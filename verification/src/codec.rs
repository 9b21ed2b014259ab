//! Wire format of the action set.
//!
//! An action list travels as a JSON array. A variant without data is a bare
//! string holding the variant name; a variant with data is a single-key
//! object whose key is the variant name and whose value is an object with
//! one field per datum, in declaration order. The encoder emits a canonical
//! form without extra whitespace; the decoder additionally accepts
//! whitespace between tokens and the usual short escapes inside strings.

use vstd::prelude::*;
use crate::actions::{ActionModel, Actions};
use crate::textutil::{dec_nat, digit_char, string_push, push_dec_u64};
use vstd::string::StrSliceExecFns;

verus! {

broadcast use vstd::string::group_string_axioms;

// ===================== spec: encoding =====================

/// Escape of a single character inside a JSON string: quote and backslash
/// take a backslash prefix, everything else stands as itself.
pub open spec fn esc_char(c: char) -> Seq<char> {
    if c == '"' {
        seq!['\\', '"']
    } else if c == '\\' {
        seq!['\\', '\\']
    } else {
        seq![c]
    }
}

/// Escaped content of a JSON string.
pub open spec fn esc_str(s: Seq<char>) -> Seq<char>
    decreases s.len(),
{
    if s.len() == 0 {
        Seq::empty()
    } else {
        esc_char(s[0]) + esc_str(s.drop_first())
    }
}

/// A JSON string literal: quote, escaped content, quote.
pub open spec fn enc_str(s: Seq<char>) -> Seq<char> {
    seq!['"'] + esc_str(s) + seq!['"']
}

/// A named string field, `"name":"value"`.
pub open spec fn enc_field_str(name: Seq<char>, v: Seq<char>) -> Seq<char> {
    enc_str(name) + seq![':'] + enc_str(v)
}

/// A named integer field, `"name":123`.
pub open spec fn enc_field_u64(name: Seq<char>, v: u64) -> Seq<char> {
    enc_str(name) + seq![':'] + dec_nat(v as nat)
}

/// Items of a string array after the first, each with a leading comma.
pub open spec fn enc_str_tail(ls: Seq<Seq<char>>) -> Seq<char>
    decreases ls.len(),
{
    if ls.len() == 0 {
        Seq::empty()
    } else {
        seq![','] + enc_str(ls[0]) + enc_str_tail(ls.drop_first())
    }
}

/// Comma-separated items of a string array.
pub open spec fn enc_str_items(ls: Seq<Seq<char>>) -> Seq<char> {
    if ls.len() == 0 {
        Seq::empty()
    } else {
        enc_str(ls[0]) + enc_str_tail(ls.drop_first())
    }
}

/// A JSON array of strings.
pub open spec fn enc_str_arr(ls: Seq<Seq<char>>) -> Seq<char> {
    seq!['['] + enc_str_items(ls) + seq![']']
}

/// A named array field, `"name":["a","b"]`.
pub open spec fn enc_field_arr(name: Seq<char>, ls: Seq<Seq<char>>) -> Seq<char> {
    enc_str(name) + seq![':'] + enc_str_arr(ls)
}

/// Payload object with one string field.
pub open spec fn pay_s(n1: Seq<char>, v1: Seq<char>) -> Seq<char> {
    seq!['{'] + enc_field_str(n1, v1) + seq!['}']
}

/// Payload object with two string fields.
pub open spec fn pay_ss(n1: Seq<char>, v1: Seq<char>, n2: Seq<char>, v2: Seq<char>) -> Seq<char> {
    seq!['{'] + enc_field_str(n1, v1) + seq![','] + enc_field_str(n2, v2) + seq!['}']
}

/// Payload object with two string fields and one string-array field.
pub open spec fn pay_ssa(
    n1: Seq<char>, v1: Seq<char>,
    n2: Seq<char>, v2: Seq<char>,
    n3: Seq<char>, l3: Seq<Seq<char>>,
) -> Seq<char> {
    seq!['{'] + enc_field_str(n1, v1) + seq![','] + enc_field_str(n2, v2) + seq![',']
        + enc_field_arr(n3, l3) + seq!['}']
}

/// Payload object with one integer field.
pub open spec fn pay_u(n1: Seq<char>, u1: u64) -> Seq<char> {
    seq!['{'] + enc_field_u64(n1, u1) + seq!['}']
}

/// Payload object with one integer field and one string field.
pub open spec fn pay_us(n1: Seq<char>, u1: u64, n2: Seq<char>, v2: Seq<char>) -> Seq<char> {
    seq!['{'] + enc_field_u64(n1, u1) + seq![','] + enc_field_str(n2, v2) + seq!['}']
}

/// A single-key object wrapping a payload, `{"Key":payload}`.
pub open spec fn wrap(key: Seq<char>, payload: Seq<char>) -> Seq<char> {
    seq!['{'] + enc_str(key) + seq![':'] + payload + seq!['}']
}

/// Canonical encoding of one action.
pub open spec fn enc_action(m: ActionModel) -> Seq<char> {
    match m {
        ActionModel::ReadAllTheCodeBase => enc_str("ReadAllTheCodeBase"@),
        ActionModel::ListAllFiles => enc_str("ListAllFiles"@),
        ActionModel::RunLLMInference { system_prompt, user_prompt } =>
            wrap("RunLLMInference"@, pay_ss("system_prompt"@, system_prompt, "user_prompt"@, user_prompt)),
        ActionModel::ReadASingleFile { path } =>
            wrap("ReadASingleFile"@, pay_s("path"@, path)),
        ActionModel::StoreOrUpdateMemoryInContext { key, value } =>
            wrap("StoreOrUpdateMemoryInContext"@, pay_ss("key"@, key, "value"@, value)),
        ActionModel::RemoveMemoryFromContext { key } =>
            wrap("RemoveMemoryFromContext"@, pay_s("key"@, key)),
        ActionModel::GithubCreateIssue { title, body, labels } =>
            wrap("GithubCreateIssue"@, pay_ssa("title"@, title, "body"@, body, "labels"@, labels)),
        ActionModel::GithubListIssues { state } =>
            wrap("GithubListIssues"@, pay_s("state"@, state)),
        ActionModel::GithubGetIssue { issue_number } =>
            wrap("GithubGetIssue"@, pay_u("issue_number"@, issue_number)),
        ActionModel::GithubAddLabelToIssue { issue_number, label } =>
            wrap("GithubAddLabelToIssue"@, pay_us("issue_number"@, issue_number, "label"@, label)),
        ActionModel::GithubRemoveLabelFromIssue { issue_number, label } =>
            wrap("GithubRemoveLabelFromIssue"@, pay_us("issue_number"@, issue_number, "label"@, label)),
        ActionModel::GithubCloseIssue { issue_number } =>
            wrap("GithubCloseIssue"@, pay_u("issue_number"@, issue_number)),
        ActionModel::GithubCommentOnIssue { issue_number, body } =>
            wrap("GithubCommentOnIssue"@, pay_us("issue_number"@, issue_number, "body"@, body)),
        ActionModel::GithubEditBodyOfIssue { issue_number, body } =>
            wrap("GithubEditBodyOfIssue"@, pay_us("issue_number"@, issue_number, "body"@, body)),
        ActionModel::GithubEditTitleOfIssue { issue_number, title } =>
            wrap("GithubEditTitleOfIssue"@, pay_us("issue_number"@, issue_number, "title"@, title)),
        ActionModel::Sleep { duration } =>
            wrap("Sleep"@, pay_u("duration"@, duration)),
    }
}

/// Actions of a list after the first, each with a leading comma.
pub open spec fn enc_tail(ms: Seq<ActionModel>) -> Seq<char>
    decreases ms.len(),
{
    if ms.len() == 0 {
        Seq::empty()
    } else {
        seq![','] + enc_action(ms[0]) + enc_tail(ms.drop_first())
    }
}

/// Comma-separated encodings of a list of actions.
pub open spec fn enc_items(ms: Seq<ActionModel>) -> Seq<char> {
    if ms.len() == 0 {
        Seq::empty()
    } else {
        enc_action(ms[0]) + enc_tail(ms.drop_first())
    }
}

/// Canonical encoding of an action list: a JSON array.
pub open spec fn enc_actions(ms: Seq<ActionModel>) -> Seq<char> {
    seq!['['] + enc_items(ms) + seq![']']
}

// ===================== exec: encoding =====================

/// Appends the escaped content of `s` to `out`.
fn push_escaped(out: &mut String, s: &str)
    ensures
        final(out)@ == old(out)@ + esc_str(s@),
{
    let n = s.unicode_len();
    let mut i: usize = 0;
    proof {
        assert(s@.skip(0) =~= s@);
    }
    while i < n
        invariant
            i <= n,
            n == s@.len(),
            out@ + esc_str(s@.skip(i as int)) == old(out)@ + esc_str(s@),
        decreases n - i,
    {
        proof {
            assert(s@.skip(i as int)[0] == s@[i as int]);
            assert(s@.skip(i as int).drop_first() =~= s@.skip(i as int + 1));
        }
        let c = s.get_char(i);
        if c == '"' {
            string_push(out, '\\');
            string_push(out, '"');
        } else if c == '\\' {
            string_push(out, '\\');
            string_push(out, '\\');
        } else {
            string_push(out, c);
        }
        proof {
            assert(out@ + esc_str(s@.skip(i as int + 1)) =~= old(out)@ + esc_str(s@));
        }
        i += 1;
    }
    proof {
        assert(s@.skip(n as int) =~= Seq::<char>::empty());
        assert(out@ =~= old(out)@ + esc_str(s@));
    }
}

/// Appends the JSON string literal for `s` to `out`.
pub(crate) fn push_json_string(out: &mut String, s: &str)
    ensures
        final(out)@ == old(out)@ + enc_str(s@),
{
    string_push(out, '"');
    push_escaped(out, s);
    string_push(out, '"');
    assert(out@ =~= old(out)@ + enc_str(s@));
}

/// Appends `"name":"value"` to `out`.
fn push_field_str(out: &mut String, name: &str, v: &str)
    ensures
        final(out)@ == old(out)@ + enc_field_str(name@, v@),
{
    push_json_string(out, name);
    string_push(out, ':');
    push_json_string(out, v);
    assert(out@ =~= old(out)@ + enc_field_str(name@, v@));
}

/// Appends `"name":123` to `out`.
fn push_field_u64(out: &mut String, name: &str, v: u64)
    ensures
        final(out)@ == old(out)@ + enc_field_u64(name@, v),
{
    push_json_string(out, name);
    string_push(out, ':');
    push_dec_u64(out, v);
    assert(out@ =~= old(out)@ + enc_field_u64(name@, v));
}

/// Appends `"name":["a","b"]` to `out`.
fn push_field_arr(out: &mut String, name: &str, ls: &Vec<String>)
    ensures
        final(out)@ == old(out)@ + enc_field_arr(name@, ls.deep_view()),
{
    let ghost dv = ls.deep_view();
    let ghost base = old(out)@ + enc_str(name@) + seq![':', '['];
    push_json_string(out, name);
    string_push(out, ':');
    string_push(out, '[');
    assert(out@ =~= base);
    if ls.len() > 0 {
        proof {
            assert(dv[0] == ls@[0]@);
        }
        push_json_string(out, ls[0].as_str());
        let mut i: usize = 1;
        proof {
            assert(dv.skip(1) =~= dv.drop_first());
            assert(out@ + enc_str_tail(dv.skip(i as int)) =~= base + enc_str_items(dv));
        }
        while i < ls.len()
            invariant
                1 <= i <= ls.len(),
                dv == ls.deep_view(),
                dv.len() == ls.len(),
                base == old(out)@ + enc_str(name@) + seq![':', '['],
                out@ + enc_str_tail(dv.skip(i as int)) == base + enc_str_items(dv),
            decreases ls.len() - i,
        {
            proof {
                assert(dv.skip(i as int)[0] == dv[i as int]);
                assert(dv.skip(i as int).drop_first() =~= dv.skip(i as int + 1));
                assert(dv[i as int] == ls@[i as int]@);
            }
            string_push(out, ',');
            push_json_string(out, ls[i].as_str());
            proof {
                assert(out@ + enc_str_tail(dv.skip(i as int + 1)) =~= base + enc_str_items(dv));
            }
            i += 1;
        }
        proof {
            assert(dv.skip(ls.len() as int) =~= Seq::<Seq<char>>::empty());
            assert(enc_str_tail(dv.skip(ls.len() as int)) =~= Seq::<char>::empty());
            assert(out@ =~= base + enc_str_items(dv));
        }
    }
    string_push(out, ']');
    assert(out@ =~= old(out)@ + enc_field_arr(name@, dv));
}

/// Appends `{"n1":"v1"}` to `out`.
fn push_pay_s(out: &mut String, n1: &str, v1: &str)
    ensures
        final(out)@ == old(out)@ + pay_s(n1@, v1@),
{
    string_push(out, '{');
    push_field_str(out, n1, v1);
    string_push(out, '}');
    assert(out@ =~= old(out)@ + pay_s(n1@, v1@));
}

/// Appends `{"n1":"v1","n2":"v2"}` to `out`.
fn push_pay_ss(out: &mut String, n1: &str, v1: &str, n2: &str, v2: &str)
    ensures
        final(out)@ == old(out)@ + pay_ss(n1@, v1@, n2@, v2@),
{
    string_push(out, '{');
    push_field_str(out, n1, v1);
    string_push(out, ',');
    push_field_str(out, n2, v2);
    string_push(out, '}');
    assert(out@ =~= old(out)@ + pay_ss(n1@, v1@, n2@, v2@));
}

/// Appends `{"n1":"v1","n2":"v2","n3":[..]}` to `out`.
fn push_pay_ssa(out: &mut String, n1: &str, v1: &str, n2: &str, v2: &str, n3: &str, l3: &Vec<String>)
    ensures
        final(out)@ == old(out)@ + pay_ssa(n1@, v1@, n2@, v2@, n3@, l3.deep_view()),
{
    string_push(out, '{');
    push_field_str(out, n1, v1);
    string_push(out, ',');
    push_field_str(out, n2, v2);
    string_push(out, ',');
    push_field_arr(out, n3, l3);
    string_push(out, '}');
    assert(out@ =~= old(out)@ + pay_ssa(n1@, v1@, n2@, v2@, n3@, l3.deep_view()));
}

/// Appends `{"n1":123}` to `out`.
fn push_pay_u(out: &mut String, n1: &str, u1: u64)
    ensures
        final(out)@ == old(out)@ + pay_u(n1@, u1),
{
    string_push(out, '{');
    push_field_u64(out, n1, u1);
    string_push(out, '}');
    assert(out@ =~= old(out)@ + pay_u(n1@, u1));
}

/// Appends `{"n1":123,"n2":"v2"}` to `out`.
fn push_pay_us(out: &mut String, n1: &str, u1: u64, n2: &str, v2: &str)
    ensures
        final(out)@ == old(out)@ + pay_us(n1@, u1, n2@, v2@),
{
    string_push(out, '{');
    push_field_u64(out, n1, u1);
    string_push(out, ',');
    push_field_str(out, n2, v2);
    string_push(out, '}');
    assert(out@ =~= old(out)@ + pay_us(n1@, u1, n2@, v2@));
}

/// Appends `{"key":` to `out`.
fn push_wrap_open(out: &mut String, key: &str)
    ensures
        final(out)@ == old(out)@ + seq!['{'] + enc_str(key@) + seq![':'],
{
    string_push(out, '{');
    push_json_string(out, key);
    string_push(out, ':');
    assert(out@ =~= old(out)@ + seq!['{'] + enc_str(key@) + seq![':']);
}

/// Appends the canonical encoding of one action to `out`.
#[verifier::rlimit(60)]
pub fn push_action(out: &mut String, a: &Actions)
    ensures
        final(out)@ == old(out)@ + enc_action(a@),
{
    match a {
        Actions::ReadAllTheCodeBase => {
            push_json_string(out, "ReadAllTheCodeBase");
        },
        Actions::ListAllFiles => {
            push_json_string(out, "ListAllFiles");
        },
        Actions::RunLLMInference { system_prompt, user_prompt } => {
            push_wrap_open(out, "RunLLMInference");
            push_pay_ss(out, "system_prompt", system_prompt.as_str(), "user_prompt", user_prompt.as_str());
            string_push(out, '}');
            assert(out@ =~= old(out)@ + enc_action(a@));
        },
        Actions::ReadASingleFile { path } => {
            push_wrap_open(out, "ReadASingleFile");
            push_pay_s(out, "path", path.as_str());
            string_push(out, '}');
            assert(out@ =~= old(out)@ + enc_action(a@));
        },
        Actions::StoreOrUpdateMemoryInContext { key, value } => {
            push_wrap_open(out, "StoreOrUpdateMemoryInContext");
            push_pay_ss(out, "key", key.as_str(), "value", value.as_str());
            string_push(out, '}');
            assert(out@ =~= old(out)@ + enc_action(a@));
        },
        Actions::RemoveMemoryFromContext { key } => {
            push_wrap_open(out, "RemoveMemoryFromContext");
            push_pay_s(out, "key", key.as_str());
            string_push(out, '}');
            assert(out@ =~= old(out)@ + enc_action(a@));
        },
        Actions::GithubCreateIssue { title, body, labels } => {
            push_wrap_open(out, "GithubCreateIssue");
            push_pay_ssa(out, "title", title.as_str(), "body", body.as_str(), "labels", labels);
            string_push(out, '}');
            assert(out@ =~= old(out)@ + enc_action(a@));
        },
        Actions::GithubListIssues { state } => {
            push_wrap_open(out, "GithubListIssues");
            push_pay_s(out, "state", state.as_str());
            string_push(out, '}');
            assert(out@ =~= old(out)@ + enc_action(a@));
        },
        Actions::GithubGetIssue { issue_number } => {
            push_wrap_open(out, "GithubGetIssue");
            push_pay_u(out, "issue_number", *issue_number);
            string_push(out, '}');
            assert(out@ =~= old(out)@ + enc_action(a@));
        },
        Actions::GithubAddLabelToIssue { issue_number, label } => {
            push_wrap_open(out, "GithubAddLabelToIssue");
            push_pay_us(out, "issue_number", *issue_number, "label", label.as_str());
            string_push(out, '}');
            assert(out@ =~= old(out)@ + enc_action(a@));
        },
        Actions::GithubRemoveLabelFromIssue { issue_number, label } => {
            push_wrap_open(out, "GithubRemoveLabelFromIssue");
            push_pay_us(out, "issue_number", *issue_number, "label", label.as_str());
            string_push(out, '}');
            assert(out@ =~= old(out)@ + enc_action(a@));
        },
        Actions::GithubCloseIssue { issue_number } => {
            push_wrap_open(out, "GithubCloseIssue");
            push_pay_u(out, "issue_number", *issue_number);
            string_push(out, '}');
            assert(out@ =~= old(out)@ + enc_action(a@));
        },
        Actions::GithubCommentOnIssue { issue_number, body } => {
            push_wrap_open(out, "GithubCommentOnIssue");
            push_pay_us(out, "issue_number", *issue_number, "body", body.as_str());
            string_push(out, '}');
            assert(out@ =~= old(out)@ + enc_action(a@));
        },
        Actions::GithubEditBodyOfIssue { issue_number, body } => {
            push_wrap_open(out, "GithubEditBodyOfIssue");
            push_pay_us(out, "issue_number", *issue_number, "body", body.as_str());
            string_push(out, '}');
            assert(out@ =~= old(out)@ + enc_action(a@));
        },
        Actions::GithubEditTitleOfIssue { issue_number, title } => {
            push_wrap_open(out, "GithubEditTitleOfIssue");
            push_pay_us(out, "issue_number", *issue_number, "title", title.as_str());
            string_push(out, '}');
            assert(out@ =~= old(out)@ + enc_action(a@));
        },
        Actions::Sleep { duration } => {
            push_wrap_open(out, "Sleep");
            push_pay_u(out, "duration", *duration);
            string_push(out, '}');
            assert(out@ =~= old(out)@ + enc_action(a@));
        },
    }
}

/// Encodes one action into its canonical wire form.
pub fn encode_action(a: &Actions) -> (r: String)
    ensures
        r@ == enc_action(a@),
{
    let mut out = String::new();
    push_action(&mut out, a);
    assert(out@ =~= enc_action(a@));
    out
}

/// Encodes an action list into its canonical wire form, a JSON array.
pub fn encode_actions(actions: &Vec<Actions>) -> (r: String)
    ensures
        r@ == enc_actions(actions.deep_view()),
{
    let ghost dv = actions.deep_view();
    let mut out = String::new();
    string_push(&mut out, '[');
    if actions.len() > 0 {
        proof {
            assert(dv[0] == actions@[0]@);
        }
        push_action(&mut out, &actions[0]);
        let mut i: usize = 1;
        proof {
            assert(dv.skip(1) =~= dv.drop_first());
            assert(out@ + enc_tail(dv.skip(i as int)) =~= seq!['['] + enc_items(dv));
        }
        while i < actions.len()
            invariant
                1 <= i <= actions.len(),
                dv == actions.deep_view(),
                dv.len() == actions.len(),
                out@ + enc_tail(dv.skip(i as int)) == seq!['['] + enc_items(dv),
            decreases actions.len() - i,
        {
            proof {
                assert(dv.skip(i as int)[0] == dv[i as int]);
                assert(dv.skip(i as int).drop_first() =~= dv.skip(i as int + 1));
                assert(dv[i as int] == actions@[i as int]@);
            }
            string_push(&mut out, ',');
            push_action(&mut out, &actions[i]);
            proof {
                assert(out@ + enc_tail(dv.skip(i as int + 1)) =~= seq!['['] + enc_items(dv));
            }
            i += 1;
        }
        proof {
            assert(dv.skip(actions.len() as int) =~= Seq::<ActionModel>::empty());
            assert(out@ =~= seq!['['] + enc_items(dv));
        }
    }
    string_push(&mut out, ']');
    assert(out@ =~= enc_actions(dv));
    out
}

// ===================== spec: parsing =====================

/// Whitespace the decoder tolerates between tokens.
pub open spec fn is_ws(c: char) -> bool {
    c == ' ' || c == '\n' || c == '\t' || c == '\r'
}

/// Drops leading whitespace.
pub open spec fn skip_ws(s: Seq<char>) -> Seq<char>
    decreases s.len(),
{
    if s.len() > 0 && is_ws(s[0]) {
        skip_ws(s.drop_first())
    } else {
        s
    }
}

/// Escape codes the decoder accepts after a backslash.
pub open spec fn is_escape_code(c: char) -> bool {
    c == '"' || c == '\\' || c == '/' || c == 'n' || c == 't' || c == 'r'
}

/// The character an escape code stands for.
pub open spec fn unescape(c: char) -> char {
    if c == 'n' { '\n' } else if c == 't' { '\t' } else if c == 'r' { '\r' } else { c }
}

/// Parses the content of a string literal after its opening quote, up to
/// and including the closing quote; yields the content and the remainder.
pub open spec fn parse_body(s: Seq<char>) -> Option<(Seq<char>, Seq<char>)>
    decreases s.len(),
{
    if s.len() == 0 {
        None
    } else if s[0] == '"' {
        Some((Seq::empty(), s.drop_first()))
    } else if s[0] == '\\' {
        if s.len() >= 2 && is_escape_code(s[1]) {
            match parse_body(s.skip(2)) {
                Some((cs, r)) => Some((seq![unescape(s[1])] + cs, r)),
                None => None,
            }
        } else {
            None
        }
    } else {
        match parse_body(s.drop_first()) {
            Some((cs, r)) => Some((seq![s[0]] + cs, r)),
            None => None,
        }
    }
}

/// Parses a string literal, tolerating leading whitespace.
pub open spec fn parse_string(s: Seq<char>) -> Option<(Seq<char>, Seq<char>)> {
    let t = skip_ws(s);
    if t.len() > 0 && t[0] == '"' {
        parse_body(t.drop_first())
    } else {
        None
    }
}

/// Consumes one expected punctuation character, tolerating leading
/// whitespace.
pub open spec fn parse_tok(s: Seq<char>, c: char) -> Option<Seq<char>> {
    let t = skip_ws(s);
    if t.len() > 0 && t[0] == c {
        Some(t.drop_first())
    } else {
        None
    }
}

/// Decimal digit test.
pub open spec fn is_digit(c: char) -> bool {
    c == '0' || c == '1' || c == '2' || c == '3' || c == '4' || c == '5' || c == '6' || c == '7'
        || c == '8' || c == '9'
}

/// Value of a decimal digit character.
pub open spec fn dval(c: char) -> nat {
    if c == '0' { 0 }
    else if c == '1' { 1 }
    else if c == '2' { 2 }
    else if c == '3' { 3 }
    else if c == '4' { 4 }
    else if c == '5' { 5 }
    else if c == '6' { 6 }
    else if c == '7' { 7 }
    else if c == '8' { 8 }
    else { 9 }
}

/// Splits off the longest leading run of digits.
pub open spec fn parse_digits(s: Seq<char>) -> (Seq<char>, Seq<char>)
    decreases s.len(),
{
    if s.len() > 0 && is_digit(s[0]) {
        let (ds, r) = parse_digits(s.drop_first());
        (seq![s[0]] + ds, r)
    } else {
        (Seq::empty(), s)
    }
}

/// Numeric value of a digit string.
pub open spec fn digits_val(ds: Seq<char>) -> nat
    decreases ds.len(),
{
    if ds.len() == 0 {
        0
    } else {
        digits_val(ds.drop_last()) * 10 + dval(ds.last())
    }
}

/// Parses an unsigned integer that fits in 64 bits, tolerating leading
/// whitespace.
pub open spec fn parse_u64(s: Seq<char>) -> Option<(u64, Seq<char>)> {
    let t = skip_ws(s);
    let (ds, r) = parse_digits(t);
    if ds.len() == 0 {
        None
    } else if digits_val(ds) > u64::MAX {
        None
    } else {
        Some((digits_val(ds) as u64, r))
    }
}

/// Parses the items of a non-empty string array, including the closing
/// bracket.
pub open spec fn parse_str_items(s: Seq<char>) -> Option<(Seq<Seq<char>>, Seq<char>)>
    decreases s.len(),
{
    match parse_string(s) {
        Some((v, r)) => match parse_tok(r, ',') {
            Some(r2) => if r2.len() < s.len() {
                match parse_str_items(r2) {
                    Some((vs, r3)) => Some((seq![v] + vs, r3)),
                    None => None,
                }
            } else {
                None
            },
            None => match parse_tok(r, ']') {
                Some(r2) => Some((seq![v], r2)),
                None => None,
            },
        },
        None => None,
    }
}

/// Parses a string array.
pub open spec fn parse_str_arr(s: Seq<char>) -> Option<(Seq<Seq<char>>, Seq<char>)> {
    match parse_tok(s, '[') {
        Some(t) => match parse_tok(t, ']') {
            Some(r) => Some((Seq::empty(), r)),
            None => parse_str_items(t),
        },
        None => None,
    }
}

/// Parses `"name":"value"`, requiring the given field name.
pub open spec fn parse_field_str(s: Seq<char>, name: Seq<char>) -> Option<(Seq<char>, Seq<char>)> {
    match parse_string(s) {
        Some((k, r)) => if k == name {
            match parse_tok(r, ':') {
                Some(r2) => parse_string(r2),
                None => None,
            }
        } else {
            None
        },
        None => None,
    }
}

/// Parses `"name":123`, requiring the given field name.
pub open spec fn parse_field_u64(s: Seq<char>, name: Seq<char>) -> Option<(u64, Seq<char>)> {
    match parse_string(s) {
        Some((k, r)) => if k == name {
            match parse_tok(r, ':') {
                Some(r2) => parse_u64(r2),
                None => None,
            }
        } else {
            None
        },
        None => None,
    }
}

/// Parses `"name":[...]`, requiring the given field name.
pub open spec fn parse_field_arr(s: Seq<char>, name: Seq<char>) -> Option<(Seq<Seq<char>>, Seq<char>)> {
    match parse_string(s) {
        Some((k, r)) => if k == name {
            match parse_tok(r, ':') {
                Some(r2) => parse_str_arr(r2),
                None => None,
            }
        } else {
            None
        },
        None => None,
    }
}

/// Parses a payload object with one string field.
pub open spec fn parse_pay_s(s: Seq<char>, n1: Seq<char>) -> Option<(Seq<char>, Seq<char>)> {
    match parse_tok(s, '{') {
        Some(t) => match parse_field_str(t, n1) {
            Some((v1, r)) => match parse_tok(r, '}') {
                Some(r2) => Some((v1, r2)),
                None => None,
            },
            None => None,
        },
        None => None,
    }
}

/// Parses a payload object with two string fields.
pub open spec fn parse_pay_ss(s: Seq<char>, n1: Seq<char>, n2: Seq<char>) -> Option<
    ((Seq<char>, Seq<char>), Seq<char>),
> {
    match parse_tok(s, '{') {
        Some(t) => match parse_field_str(t, n1) {
            Some((v1, r)) => match parse_tok(r, ',') {
                Some(r2) => match parse_field_str(r2, n2) {
                    Some((v2, r3)) => match parse_tok(r3, '}') {
                        Some(r4) => Some(((v1, v2), r4)),
                        None => None,
                    },
                    None => None,
                },
                None => None,
            },
            None => None,
        },
        None => None,
    }
}

/// Parses a payload object with two string fields and one array field.
pub open spec fn parse_pay_ssa(s: Seq<char>, n1: Seq<char>, n2: Seq<char>, n3: Seq<char>) -> Option<
    ((Seq<char>, Seq<char>, Seq<Seq<char>>), Seq<char>),
> {
    match parse_tok(s, '{') {
        Some(t) => match parse_field_str(t, n1) {
            Some((v1, r)) => match parse_tok(r, ',') {
                Some(r2) => match parse_field_str(r2, n2) {
                    Some((v2, r3)) => match parse_tok(r3, ',') {
                        Some(r4) => match parse_field_arr(r4, n3) {
                            Some((l3, r5)) => match parse_tok(r5, '}') {
                                Some(r6) => Some(((v1, v2, l3), r6)),
                                None => None,
                            },
                            None => None,
                        },
                        None => None,
                    },
                    None => None,
                },
                None => None,
            },
            None => None,
        },
        None => None,
    }
}

/// Parses a payload object with one integer field.
pub open spec fn parse_pay_u(s: Seq<char>, n1: Seq<char>) -> Option<(u64, Seq<char>)> {
    match parse_tok(s, '{') {
        Some(t) => match parse_field_u64(t, n1) {
            Some((u1, r)) => match parse_tok(r, '}') {
                Some(r2) => Some((u1, r2)),
                None => None,
            },
            None => None,
        },
        None => None,
    }
}

/// Parses a payload object with one integer field and one string field.
pub open spec fn parse_pay_us(s: Seq<char>, n1: Seq<char>, n2: Seq<char>) -> Option<
    ((u64, Seq<char>), Seq<char>),
> {
    match parse_tok(s, '{') {
        Some(t) => match parse_field_u64(t, n1) {
            Some((u1, r)) => match parse_tok(r, ',') {
                Some(r2) => match parse_field_str(r2, n2) {
                    Some((v2, r3)) => match parse_tok(r3, '}') {
                        Some(r4) => Some(((u1, v2), r4)),
                        None => None,
                    },
                    None => None,
                },
                None => None,
            },
            None => None,
        },
        None => None,
    }
}

/// The action named by a bare string, if any.
pub open spec fn unit_variant_of(n: Seq<char>) -> Option<ActionModel> {
    if n == "ReadAllTheCodeBase"@ {
        Some(ActionModel::ReadAllTheCodeBase)
    } else if n == "ListAllFiles"@ {
        Some(ActionModel::ListAllFiles)
    } else {
        None
    }
}

/// Parses the payload belonging to a variant key.
pub open spec fn parse_keyed_payload(s: Seq<char>, k: Seq<char>) -> Option<(ActionModel, Seq<char>)> {
    if k == "RunLLMInference"@ {
        match parse_pay_ss(s, "system_prompt"@, "user_prompt"@) {
            Some(((v1, v2), r)) => Some(
                (ActionModel::RunLLMInference { system_prompt: v1, user_prompt: v2 }, r),
            ),
            None => None,
        }
    } else if k == "ReadASingleFile"@ {
        match parse_pay_s(s, "path"@) {
            Some((v1, r)) => Some((ActionModel::ReadASingleFile { path: v1 }, r)),
            None => None,
        }
    } else if k == "StoreOrUpdateMemoryInContext"@ {
        match parse_pay_ss(s, "key"@, "value"@) {
            Some(((v1, v2), r)) => Some(
                (ActionModel::StoreOrUpdateMemoryInContext { key: v1, value: v2 }, r),
            ),
            None => None,
        }
    } else if k == "RemoveMemoryFromContext"@ {
        match parse_pay_s(s, "key"@) {
            Some((v1, r)) => Some((ActionModel::RemoveMemoryFromContext { key: v1 }, r)),
            None => None,
        }
    } else if k == "GithubCreateIssue"@ {
        match parse_pay_ssa(s, "title"@, "body"@, "labels"@) {
            Some(((v1, v2, l3), r)) => Some(
                (ActionModel::GithubCreateIssue { title: v1, body: v2, labels: l3 }, r),
            ),
            None => None,
        }
    } else if k == "GithubListIssues"@ {
        match parse_pay_s(s, "state"@) {
            Some((v1, r)) => Some((ActionModel::GithubListIssues { state: v1 }, r)),
            None => None,
        }
    } else if k == "GithubGetIssue"@ {
        match parse_pay_u(s, "issue_number"@) {
            Some((u1, r)) => Some((ActionModel::GithubGetIssue { issue_number: u1 }, r)),
            None => None,
        }
    } else if k == "GithubAddLabelToIssue"@ {
        match parse_pay_us(s, "issue_number"@, "label"@) {
            Some(((u1, v2), r)) => Some(
                (ActionModel::GithubAddLabelToIssue { issue_number: u1, label: v2 }, r),
            ),
            None => None,
        }
    } else if k == "GithubRemoveLabelFromIssue"@ {
        match parse_pay_us(s, "issue_number"@, "label"@) {
            Some(((u1, v2), r)) => Some(
                (ActionModel::GithubRemoveLabelFromIssue { issue_number: u1, label: v2 }, r),
            ),
            None => None,
        }
    } else if k == "GithubCloseIssue"@ {
        match parse_pay_u(s, "issue_number"@) {
            Some((u1, r)) => Some((ActionModel::GithubCloseIssue { issue_number: u1 }, r)),
            None => None,
        }
    } else if k == "GithubCommentOnIssue"@ {
        match parse_pay_us(s, "issue_number"@, "body"@) {
            Some(((u1, v2), r)) => Some(
                (ActionModel::GithubCommentOnIssue { issue_number: u1, body: v2 }, r),
            ),
            None => None,
        }
    } else if k == "GithubEditBodyOfIssue"@ {
        match parse_pay_us(s, "issue_number"@, "body"@) {
            Some(((u1, v2), r)) => Some(
                (ActionModel::GithubEditBodyOfIssue { issue_number: u1, body: v2 }, r),
            ),
            None => None,
        }
    } else if k == "GithubEditTitleOfIssue"@ {
        match parse_pay_us(s, "issue_number"@, "title"@) {
            Some(((u1, v2), r)) => Some(
                (ActionModel::GithubEditTitleOfIssue { issue_number: u1, title: v2 }, r),
            ),
            None => None,
        }
    } else if k == "Sleep"@ {
        match parse_pay_u(s, "duration"@) {
            Some((u1, r)) => Some((ActionModel::Sleep { duration: u1 }, r)),
            None => None,
        }
    } else {
        None
    }
}

/// Parses one action: a bare name or a single-key object.
pub open spec fn parse_action(s: Seq<char>) -> Option<(ActionModel, Seq<char>)> {
    let t = skip_ws(s);
    if t.len() == 0 {
        None
    } else if t[0] == '"' {
        match parse_body(t.drop_first()) {
            Some((n, r)) => match unit_variant_of(n) {
                Some(m) => Some((m, r)),
                None => None,
            },
            None => None,
        }
    } else if t[0] == '{' {
        match parse_string(t.drop_first()) {
            Some((k, r)) => match parse_tok(r, ':') {
                Some(r2) => match parse_keyed_payload(r2, k) {
                    Some((m, r3)) => match parse_tok(r3, '}') {
                        Some(r4) => Some((m, r4)),
                        None => None,
                    },
                    None => None,
                },
                None => None,
            },
            None => None,
        }
    } else {
        None
    }
}

/// Parses the items of a non-empty action array, including the closing
/// bracket.
pub open spec fn parse_items(s: Seq<char>) -> Option<(Seq<ActionModel>, Seq<char>)>
    decreases s.len(),
{
    match parse_action(s) {
        Some((m, r)) => match parse_tok(r, ',') {
            Some(r2) => if r2.len() < s.len() {
                match parse_items(r2) {
                    Some((ms, r3)) => Some((seq![m] + ms, r3)),
                    None => None,
                }
            } else {
                None
            },
            None => match parse_tok(r, ']') {
                Some(r2) => Some((seq![m], r2)),
                None => None,
            },
        },
        None => None,
    }
}

/// Parses an action array.
pub open spec fn parse_actions(s: Seq<char>) -> Option<(Seq<ActionModel>, Seq<char>)> {
    match parse_tok(s, '[') {
        Some(t) => match parse_tok(t, ']') {
            Some(r) => Some((Seq::empty(), r)),
            None => parse_items(t),
        },
        None => None,
    }
}

/// Meaning of a whole decision payload: the action list decoded from the
/// complete input, with nothing but whitespace allowed after the array.
pub open spec fn decode_spec(s: Seq<char>) -> Option<Seq<ActionModel>> {
    match parse_actions(s) {
        Some((ms, r)) => if skip_ws(r).len() == 0 {
            Some(ms)
        } else {
            None
        },
        None => None,
    }
}

// ===================== proofs: the decoder inverts the encoder =====================

proof fn lemma_parse_body_esc(v: Seq<char>, rest: Seq<char>)
    ensures
        parse_body(esc_str(v) + (seq!['"'] + rest)) == Some((v, rest)),
    decreases v.len(),
{
    let s = esc_str(v) + (seq!['"'] + rest);
    if v.len() == 0 {
        assert(s =~= seq!['"'] + rest);
        assert(s[0] == '"');
        assert(s.drop_first() =~= rest);
        assert(v =~= Seq::<char>::empty());
    } else if v[0] == '"' || v[0] == '\\' {
        assert(esc_char(v[0]) == seq!['\\', v[0]]);
        assert(s =~= seq!['\\', v[0]] + (esc_str(v.drop_first()) + (seq!['"'] + rest)));
        assert(s[0] == '\\');
        assert(s[1] == v[0]);
        assert(is_escape_code(s[1]));
        assert(unescape(s[1]) == v[0]);
        assert(s.skip(2) =~= esc_str(v.drop_first()) + (seq!['"'] + rest));
        lemma_parse_body_esc(v.drop_first(), rest);
        assert(seq![v[0]] + v.drop_first() =~= v);
    } else {
        assert(esc_char(v[0]) == seq![v[0]]);
        assert(s =~= seq![v[0]] + (esc_str(v.drop_first()) + (seq!['"'] + rest)));
        assert(s[0] == v[0]);
        assert(s.drop_first() =~= esc_str(v.drop_first()) + (seq!['"'] + rest));
        lemma_parse_body_esc(v.drop_first(), rest);
        assert(seq![v[0]] + v.drop_first() =~= v);
    }
}

proof fn lemma_rt_string(v: Seq<char>, rest: Seq<char>)
    ensures
        parse_string(enc_str(v) + rest) == Some((v, rest)),
{
    let s = enc_str(v) + rest;
    assert(s =~= seq!['"'] + (esc_str(v) + (seq!['"'] + rest)));
    assert(s[0] == '"');
    assert(!is_ws(s[0]));
    assert(skip_ws(s) == s);
    assert(s.drop_first() =~= esc_str(v) + (seq!['"'] + rest));
    lemma_parse_body_esc(v, rest);
}

proof fn lemma_rt_tok(c: char, tail: Seq<char>)
    requires
        !is_ws(c),
    ensures
        parse_tok(seq![c] + tail, c) == Some(tail),
{
    let s = seq![c] + tail;
    assert(s[0] == c);
    assert(skip_ws(s) == s);
    assert(s.drop_first() =~= tail);
}

proof fn lemma_dec_nat_digits(n: nat)
    ensures
        dec_nat(n).len() >= 1,
        forall|i: int| 0 <= i < dec_nat(n).len() ==> is_digit(#[trigger] dec_nat(n)[i]),
    decreases n,
{
    if n < 10 {
        assert(is_digit(digit_char(n)));
    } else {
        lemma_dec_nat_digits(n / 10);
        assert(is_digit(digit_char(n % 10)));
        assert(forall|i: int| 0 <= i < dec_nat(n).len() ==> is_digit(#[trigger] dec_nat(n)[i])) by {
            assert(dec_nat(n) == dec_nat(n / 10).push(digit_char(n % 10)));
            assert forall|i: int| 0 <= i < dec_nat(n).len() implies is_digit(
                #[trigger] dec_nat(n)[i],
            ) by {
                if i < dec_nat(n / 10).len() {
                    assert(dec_nat(n)[i] == dec_nat(n / 10)[i]);
                } else {
                    assert(dec_nat(n)[i] == digit_char(n % 10));
                }
            }
        }
    }
}

proof fn lemma_parse_digits_all(ds: Seq<char>, rest: Seq<char>)
    requires
        forall|i: int| 0 <= i < ds.len() ==> is_digit(#[trigger] ds[i]),
        rest.len() == 0 || !is_digit(rest[0]),
    ensures
        parse_digits(ds + rest) == (ds, rest),
    decreases ds.len(),
{
    let s = ds + rest;
    if ds.len() == 0 {
        assert(s =~= rest);
        assert(ds =~= Seq::<char>::empty());
    } else {
        assert(s[0] == ds[0]);
        assert(is_digit(s[0]));
        assert(s.drop_first() =~= ds.drop_first() + rest);
        lemma_parse_digits_all(ds.drop_first(), rest);
        assert(seq![ds[0]] + ds.drop_first() =~= ds);
    }
}

proof fn lemma_digits_val_dec(n: nat)
    ensures
        digits_val(dec_nat(n)) == n,
    decreases n,
{
    if n < 10 {
        let ds = dec_nat(n);
        assert(ds == seq![digit_char(n)]);
        assert(ds.drop_last() =~= Seq::<char>::empty());
        assert(ds.last() == digit_char(n));
        assert(digits_val(Seq::<char>::empty()) == 0);
        assert(digits_val(ds) == digits_val(ds.drop_last()) * 10 + dval(ds.last()));
        assert(dval(digit_char(n)) == n);
    } else {
        lemma_digits_val_dec(n / 10);
        let ds = dec_nat(n);
        assert(ds == dec_nat(n / 10).push(digit_char(n % 10)));
        assert(ds.drop_last() =~= dec_nat(n / 10));
        assert(ds.last() == digit_char(n % 10));
        assert(digits_val(ds) == digits_val(ds.drop_last()) * 10 + dval(ds.last()));
        assert(digits_val(ds.drop_last()) == n / 10);
        assert(dval(digit_char(n % 10)) == n % 10);
        vstd::arithmetic::div_mod::lemma_fundamental_div_mod(n as int, 10);
        assert(digits_val(ds) == (n / 10) * 10 + n % 10);
    }
}

proof fn lemma_rt_u64(n: u64, rest: Seq<char>)
    requires
        rest.len() == 0 || !is_digit(rest[0]),
    ensures
        parse_u64(dec_nat(n as nat) + rest) == Some((n, rest)),
{
    let ds = dec_nat(n as nat);
    let s = ds + rest;
    lemma_dec_nat_digits(n as nat);
    assert(s[0] == ds[0]);
    assert(is_digit(s[0]));
    assert(!is_ws(s[0]));
    assert(skip_ws(s) == s);
    lemma_parse_digits_all(ds, rest);
    lemma_digits_val_dec(n as nat);
}

proof fn lemma_rt_field_str(name: Seq<char>, v: Seq<char>, rest: Seq<char>)
    ensures
        parse_field_str(enc_field_str(name, v) + rest, name) == Some((v, rest)),
{
    let s = enc_field_str(name, v) + rest;
    assert(s =~= enc_str(name) + (seq![':'] + (enc_str(v) + rest)));
    lemma_rt_string(name, seq![':'] + (enc_str(v) + rest));
    lemma_rt_tok(':', enc_str(v) + rest);
    lemma_rt_string(v, rest);
}

proof fn lemma_rt_field_u64(name: Seq<char>, u: u64, rest: Seq<char>)
    requires
        rest.len() == 0 || !is_digit(rest[0]),
    ensures
        parse_field_u64(enc_field_u64(name, u) + rest, name) == Some((u, rest)),
{
    let s = enc_field_u64(name, u) + rest;
    assert(s =~= enc_str(name) + (seq![':'] + (dec_nat(u as nat) + rest)));
    lemma_rt_string(name, seq![':'] + (dec_nat(u as nat) + rest));
    lemma_rt_tok(':', dec_nat(u as nat) + rest);
    lemma_rt_u64(u, rest);
}

proof fn lemma_rt_str_items(ls: Seq<Seq<char>>, rest: Seq<char>)
    requires
        ls.len() >= 1,
    ensures
        parse_str_items(enc_str_items(ls) + (seq![']'] + rest)) == Some((ls, rest)),
    decreases ls.len(),
{
    let s = enc_str_items(ls) + (seq![']'] + rest);
    if ls.len() == 1 {
        assert(s =~= enc_str(ls[0]) + (seq![']'] + rest));
        lemma_rt_string(ls[0], seq![']'] + rest);
        let r = seq![']'] + rest;
        assert(r[0] == ']');
        assert(skip_ws(r) == r);
        assert(parse_tok(r, ',') is None);
        lemma_rt_tok(']', rest);
        assert(seq![ls[0]] =~= ls);
    } else {
        let d = ls.drop_first();
        assert(enc_str_tail(d) =~= seq![','] + enc_str_items(d)) by {
            assert(enc_str_tail(d) == seq![','] + enc_str(d[0]) + enc_str_tail(d.drop_first()));
        }
        let x = enc_str_items(d) + (seq![']'] + rest);
        assert(s =~= enc_str(ls[0]) + (seq![','] + x));
        lemma_rt_string(ls[0], seq![','] + x);
        lemma_rt_tok(',', x);
        assert(enc_str(ls[0]).len() >= 2);
        assert(x.len() < s.len());
        lemma_rt_str_items(d, rest);
        assert(seq![ls[0]] + d =~= ls);
    }
}

proof fn lemma_rt_str_arr(ls: Seq<Seq<char>>, rest: Seq<char>)
    ensures
        parse_str_arr(enc_str_arr(ls) + rest) == Some((ls, rest)),
{
    let s = enc_str_arr(ls) + rest;
    if ls.len() == 0 {
        assert(s =~= seq!['['] + (seq![']'] + rest));
        lemma_rt_tok('[', seq![']'] + rest);
        lemma_rt_tok(']', rest);
        assert(ls =~= Seq::<Seq<char>>::empty());
    } else {
        let t = enc_str_items(ls) + (seq![']'] + rest);
        assert(s =~= seq!['['] + t);
        lemma_rt_tok('[', t);
        assert(t[0] == enc_str(ls[0])[0]) by {
            assert(enc_str_items(ls) == enc_str(ls[0]) + enc_str_tail(ls.drop_first()));
        }
        assert(t[0] == '"');
        assert(skip_ws(t) == t);
        assert(parse_tok(t, ']') is None);
        lemma_rt_str_items(ls, rest);
    }
}

proof fn lemma_rt_field_arr(name: Seq<char>, ls: Seq<Seq<char>>, rest: Seq<char>)
    ensures
        parse_field_arr(enc_field_arr(name, ls) + rest, name) == Some((ls, rest)),
{
    let s = enc_field_arr(name, ls) + rest;
    assert(s =~= enc_str(name) + (seq![':'] + (enc_str_arr(ls) + rest)));
    lemma_rt_string(name, seq![':'] + (enc_str_arr(ls) + rest));
    lemma_rt_tok(':', enc_str_arr(ls) + rest);
    lemma_rt_str_arr(ls, rest);
}

proof fn lemma_rt_pay_s(n1: Seq<char>, v1: Seq<char>, rest: Seq<char>)
    ensures
        parse_pay_s(pay_s(n1, v1) + rest, n1) == Some((v1, rest)),
{
    let s = pay_s(n1, v1) + rest;
    assert(s =~= seq!['{'] + (enc_field_str(n1, v1) + (seq!['}'] + rest)));
    lemma_rt_tok('{', enc_field_str(n1, v1) + (seq!['}'] + rest));
    lemma_rt_field_str(n1, v1, seq!['}'] + rest);
    lemma_rt_tok('}', rest);
}

proof fn lemma_rt_pay_ss(n1: Seq<char>, v1: Seq<char>, n2: Seq<char>, v2: Seq<char>, rest: Seq<char>)
    ensures
        parse_pay_ss(pay_ss(n1, v1, n2, v2) + rest, n1, n2) == Some(((v1, v2), rest)),
{
    let s = pay_ss(n1, v1, n2, v2) + rest;
    let x2 = enc_field_str(n2, v2) + (seq!['}'] + rest);
    assert(s =~= seq!['{'] + (enc_field_str(n1, v1) + (seq![','] + x2)));
    lemma_rt_tok('{', enc_field_str(n1, v1) + (seq![','] + x2));
    lemma_rt_field_str(n1, v1, seq![','] + x2);
    lemma_rt_tok(',', x2);
    lemma_rt_field_str(n2, v2, seq!['}'] + rest);
    lemma_rt_tok('}', rest);
}

proof fn lemma_rt_pay_ssa(
    n1: Seq<char>, v1: Seq<char>,
    n2: Seq<char>, v2: Seq<char>,
    n3: Seq<char>, l3: Seq<Seq<char>>,
    rest: Seq<char>,
)
    ensures
        parse_pay_ssa(pay_ssa(n1, v1, n2, v2, n3, l3) + rest, n1, n2, n3) == Some(
            ((v1, v2, l3), rest),
        ),
{
    let s = pay_ssa(n1, v1, n2, v2, n3, l3) + rest;
    let x3 = enc_field_arr(n3, l3) + (seq!['}'] + rest);
    let x2 = enc_field_str(n2, v2) + (seq![','] + x3);
    assert(s =~= seq!['{'] + (enc_field_str(n1, v1) + (seq![','] + x2)));
    lemma_rt_tok('{', enc_field_str(n1, v1) + (seq![','] + x2));
    lemma_rt_field_str(n1, v1, seq![','] + x2);
    lemma_rt_tok(',', x2);
    lemma_rt_field_str(n2, v2, seq![','] + x3);
    lemma_rt_tok(',', x3);
    lemma_rt_field_arr(n3, l3, seq!['}'] + rest);
    lemma_rt_tok('}', rest);
}

proof fn lemma_rt_pay_u(n1: Seq<char>, u1: u64, rest: Seq<char>)
    ensures
        parse_pay_u(pay_u(n1, u1) + rest, n1) == Some((u1, rest)),
{
    let s = pay_u(n1, u1) + rest;
    assert(s =~= seq!['{'] + (enc_field_u64(n1, u1) + (seq!['}'] + rest)));
    lemma_rt_tok('{', enc_field_u64(n1, u1) + (seq!['}'] + rest));
    assert((seq!['}'] + rest)[0] == '}');
    lemma_rt_field_u64(n1, u1, seq!['}'] + rest);
    lemma_rt_tok('}', rest);
}

proof fn lemma_rt_pay_us(n1: Seq<char>, u1: u64, n2: Seq<char>, v2: Seq<char>, rest: Seq<char>)
    ensures
        parse_pay_us(pay_us(n1, u1, n2, v2) + rest, n1, n2) == Some(((u1, v2), rest)),
{
    let s = pay_us(n1, u1, n2, v2) + rest;
    let x2 = enc_field_str(n2, v2) + (seq!['}'] + rest);
    assert(s =~= seq!['{'] + (enc_field_u64(n1, u1) + (seq![','] + x2)));
    lemma_rt_tok('{', enc_field_u64(n1, u1) + (seq![','] + x2));
    assert((seq![','] + x2)[0] == ',');
    lemma_rt_field_u64(n1, u1, seq![','] + x2);
    lemma_rt_tok(',', x2);
    lemma_rt_field_str(n2, v2, seq!['}'] + rest);
    lemma_rt_tok('}', rest);
}

proof fn lemma_rt_wrap(key: Seq<char>, payload: Seq<char>, m: ActionModel, rest: Seq<char>)
    requires
        parse_keyed_payload(payload + (seq!['}'] + rest), key) == Some((m, seq!['}'] + rest)),
    ensures
        parse_action(wrap(key, payload) + rest) == Some((m, rest)),
{
    let s = wrap(key, payload) + rest;
    let x = payload + (seq!['}'] + rest);
    assert(s =~= seq!['{'] + (enc_str(key) + (seq![':'] + x)));
    assert(s[0] == '{');
    assert(skip_ws(s) == s);
    assert(s.drop_first() =~= enc_str(key) + (seq![':'] + x));
    lemma_rt_string(key, seq![':'] + x);
    lemma_rt_tok(':', x);
    lemma_rt_tok('}', rest);
}

proof fn lemma_enc_action_starts(m: ActionModel)
    ensures
        enc_action(m).len() >= 2,
        enc_action(m)[0] == '"' || enc_action(m)[0] == '{',
{
    match m {
        ActionModel::ReadAllTheCodeBase => {
            assert(enc_action(m)[0] == '"');
        },
        ActionModel::ListAllFiles => {
            assert(enc_action(m)[0] == '"');
        },
        _ => {
            assert(enc_action(m)[0] == '{');
        },
    }
}

proof fn lemma_rt_action_unit(m: ActionModel, rest: Seq<char>)
    requires
        m is ReadAllTheCodeBase || m is ListAllFiles,
    ensures
        parse_action(enc_action(m) + rest) == Some((m, rest)),
{
    reveal_strlit("ReadAllTheCodeBase");
    reveal_strlit("ListAllFiles");
    let name = if m is ReadAllTheCodeBase { "ReadAllTheCodeBase"@ } else { "ListAllFiles"@ };
    let s = enc_action(m) + rest;
    assert(s =~= seq!['"'] + (esc_str(name) + (seq!['"'] + rest)));
    assert(s[0] == '"');
    assert(skip_ws(s) == s);
    assert(s.drop_first() =~= esc_str(name) + (seq!['"'] + rest));
    lemma_parse_body_esc(name, rest);
}

proof fn lemma_rt_action_runllminference(m: ActionModel, rest: Seq<char>)
    requires
        m matches ActionModel::RunLLMInference { .. },
    ensures
        parse_action(enc_action(m) + rest) == Some((m, rest)),
{
    reveal_strlit("RunLLMInference");
    if let ActionModel::RunLLMInference { system_prompt, user_prompt } = m {
        let pay = pay_ss("system_prompt"@, system_prompt, "user_prompt"@, user_prompt);
        lemma_rt_pay_ss("system_prompt"@, system_prompt, "user_prompt"@, user_prompt, seq!['}'] + rest);
        lemma_rt_wrap("RunLLMInference"@, pay, m, rest);
    }
}

proof fn lemma_rt_action_readasinglefile(m: ActionModel, rest: Seq<char>)
    requires
        m matches ActionModel::ReadASingleFile { .. },
    ensures
        parse_action(enc_action(m) + rest) == Some((m, rest)),
{
    reveal_strlit("RunLLMInference");
    reveal_strlit("ReadASingleFile");
    assert("ReadASingleFile"@ != "RunLLMInference"@) by {
        assert("ReadASingleFile"@[1] == 'e');
        assert("RunLLMInference"@[1] == 'u');
    }
    if let ActionModel::ReadASingleFile { path } = m {
        let pay = pay_s("path"@, path);
        lemma_rt_pay_s("path"@, path, seq!['}'] + rest);
        lemma_rt_wrap("ReadASingleFile"@, pay, m, rest);
    }
}

proof fn lemma_rt_action_storeorupdatememoryincontext(m: ActionModel, rest: Seq<char>)
    requires
        m matches ActionModel::StoreOrUpdateMemoryInContext { .. },
    ensures
        parse_action(enc_action(m) + rest) == Some((m, rest)),
{
    reveal_strlit("RunLLMInference");
    reveal_strlit("ReadASingleFile");
    reveal_strlit("StoreOrUpdateMemoryInContext");
    if let ActionModel::StoreOrUpdateMemoryInContext { key, value } = m {
        let pay = pay_ss("key"@, key, "value"@, value);
        lemma_rt_pay_ss("key"@, key, "value"@, value, seq!['}'] + rest);
        lemma_rt_wrap("StoreOrUpdateMemoryInContext"@, pay, m, rest);
    }
}

proof fn lemma_rt_action_removememoryfromcontext(m: ActionModel, rest: Seq<char>)
    requires
        m matches ActionModel::RemoveMemoryFromContext { .. },
    ensures
        parse_action(enc_action(m) + rest) == Some((m, rest)),
{
    reveal_strlit("RunLLMInference");
    reveal_strlit("ReadASingleFile");
    reveal_strlit("StoreOrUpdateMemoryInContext");
    reveal_strlit("RemoveMemoryFromContext");
    if let ActionModel::RemoveMemoryFromContext { key } = m {
        let pay = pay_s("key"@, key);
        lemma_rt_pay_s("key"@, key, seq!['}'] + rest);
        lemma_rt_wrap("RemoveMemoryFromContext"@, pay, m, rest);
    }
}

proof fn lemma_rt_action_githubcreateissue(m: ActionModel, rest: Seq<char>)
    requires
        m matches ActionModel::GithubCreateIssue { .. },
    ensures
        parse_action(enc_action(m) + rest) == Some((m, rest)),
{
    reveal_strlit("RunLLMInference");
    reveal_strlit("ReadASingleFile");
    reveal_strlit("StoreOrUpdateMemoryInContext");
    reveal_strlit("RemoveMemoryFromContext");
    reveal_strlit("GithubCreateIssue");
    if let ActionModel::GithubCreateIssue { title, body, labels } = m {
        let pay = pay_ssa("title"@, title, "body"@, body, "labels"@, labels);
        lemma_rt_pay_ssa("title"@, title, "body"@, body, "labels"@, labels, seq!['}'] + rest);
        lemma_rt_wrap("GithubCreateIssue"@, pay, m, rest);
    }
}

proof fn lemma_rt_action_githublistissues(m: ActionModel, rest: Seq<char>)
    requires
        m matches ActionModel::GithubListIssues { .. },
    ensures
        parse_action(enc_action(m) + rest) == Some((m, rest)),
{
    reveal_strlit("RunLLMInference");
    reveal_strlit("ReadASingleFile");
    reveal_strlit("StoreOrUpdateMemoryInContext");
    reveal_strlit("RemoveMemoryFromContext");
    reveal_strlit("GithubCreateIssue");
    reveal_strlit("GithubListIssues");
    if let ActionModel::GithubListIssues { state } = m {
        let pay = pay_s("state"@, state);
        lemma_rt_pay_s("state"@, state, seq!['}'] + rest);
        lemma_rt_wrap("GithubListIssues"@, pay, m, rest);
    }
}

proof fn lemma_rt_action_githubgetissue(m: ActionModel, rest: Seq<char>)
    requires
        m matches ActionModel::GithubGetIssue { .. },
    ensures
        parse_action(enc_action(m) + rest) == Some((m, rest)),
{
    reveal_strlit("RunLLMInference");
    reveal_strlit("ReadASingleFile");
    reveal_strlit("StoreOrUpdateMemoryInContext");
    reveal_strlit("RemoveMemoryFromContext");
    reveal_strlit("GithubCreateIssue");
    reveal_strlit("GithubListIssues");
    reveal_strlit("GithubGetIssue");
    if let ActionModel::GithubGetIssue { issue_number } = m {
        let pay = pay_u("issue_number"@, issue_number);
        lemma_rt_pay_u("issue_number"@, issue_number, seq!['}'] + rest);
        lemma_rt_wrap("GithubGetIssue"@, pay, m, rest);
    }
}

proof fn lemma_rt_action_githubaddlabeltoissue(m: ActionModel, rest: Seq<char>)
    requires
        m matches ActionModel::GithubAddLabelToIssue { .. },
    ensures
        parse_action(enc_action(m) + rest) == Some((m, rest)),
{
    reveal_strlit("RunLLMInference");
    reveal_strlit("ReadASingleFile");
    reveal_strlit("StoreOrUpdateMemoryInContext");
    reveal_strlit("RemoveMemoryFromContext");
    reveal_strlit("GithubCreateIssue");
    reveal_strlit("GithubListIssues");
    reveal_strlit("GithubGetIssue");
    reveal_strlit("GithubAddLabelToIssue");
    if let ActionModel::GithubAddLabelToIssue { issue_number, label } = m {
        let pay = pay_us("issue_number"@, issue_number, "label"@, label);
        lemma_rt_pay_us("issue_number"@, issue_number, "label"@, label, seq!['}'] + rest);
        lemma_rt_wrap("GithubAddLabelToIssue"@, pay, m, rest);
    }
}

proof fn lemma_rt_action_githubremovelabelfromissue(m: ActionModel, rest: Seq<char>)
    requires
        m matches ActionModel::GithubRemoveLabelFromIssue { .. },
    ensures
        parse_action(enc_action(m) + rest) == Some((m, rest)),
{
    reveal_strlit("RunLLMInference");
    reveal_strlit("ReadASingleFile");
    reveal_strlit("StoreOrUpdateMemoryInContext");
    reveal_strlit("RemoveMemoryFromContext");
    reveal_strlit("GithubCreateIssue");
    reveal_strlit("GithubListIssues");
    reveal_strlit("GithubGetIssue");
    reveal_strlit("GithubAddLabelToIssue");
    reveal_strlit("GithubRemoveLabelFromIssue");
    if let ActionModel::GithubRemoveLabelFromIssue { issue_number, label } = m {
        let pay = pay_us("issue_number"@, issue_number, "label"@, label);
        lemma_rt_pay_us("issue_number"@, issue_number, "label"@, label, seq!['}'] + rest);
        lemma_rt_wrap("GithubRemoveLabelFromIssue"@, pay, m, rest);
    }
}

proof fn lemma_rt_action_githubcloseissue(m: ActionModel, rest: Seq<char>)
    requires
        m matches ActionModel::GithubCloseIssue { .. },
    ensures
        parse_action(enc_action(m) + rest) == Some((m, rest)),
{
    reveal_strlit("RunLLMInference");
    reveal_strlit("ReadASingleFile");
    reveal_strlit("StoreOrUpdateMemoryInContext");
    reveal_strlit("RemoveMemoryFromContext");
    reveal_strlit("GithubCreateIssue");
    reveal_strlit("GithubListIssues");
    reveal_strlit("GithubGetIssue");
    reveal_strlit("GithubAddLabelToIssue");
    reveal_strlit("GithubRemoveLabelFromIssue");
    reveal_strlit("GithubCloseIssue");
    assert("GithubCloseIssue"@ != "GithubListIssues"@) by {
        assert("GithubCloseIssue"@[6] == 'C');
        assert("GithubListIssues"@[6] == 'L');
    }
    if let ActionModel::GithubCloseIssue { issue_number } = m {
        let pay = pay_u("issue_number"@, issue_number);
        lemma_rt_pay_u("issue_number"@, issue_number, seq!['}'] + rest);
        lemma_rt_wrap("GithubCloseIssue"@, pay, m, rest);
    }
}

proof fn lemma_rt_action_githubcommentonissue(m: ActionModel, rest: Seq<char>)
    requires
        m matches ActionModel::GithubCommentOnIssue { .. },
    ensures
        parse_action(enc_action(m) + rest) == Some((m, rest)),
{
    reveal_strlit("RunLLMInference");
    reveal_strlit("ReadASingleFile");
    reveal_strlit("StoreOrUpdateMemoryInContext");
    reveal_strlit("RemoveMemoryFromContext");
    reveal_strlit("GithubCreateIssue");
    reveal_strlit("GithubListIssues");
    reveal_strlit("GithubGetIssue");
    reveal_strlit("GithubAddLabelToIssue");
    reveal_strlit("GithubRemoveLabelFromIssue");
    reveal_strlit("GithubCloseIssue");
    reveal_strlit("GithubCommentOnIssue");
    if let ActionModel::GithubCommentOnIssue { issue_number, body } = m {
        let pay = pay_us("issue_number"@, issue_number, "body"@, body);
        lemma_rt_pay_us("issue_number"@, issue_number, "body"@, body, seq!['}'] + rest);
        lemma_rt_wrap("GithubCommentOnIssue"@, pay, m, rest);
    }
}

proof fn lemma_rt_action_githubeditbodyofissue(m: ActionModel, rest: Seq<char>)
    requires
        m matches ActionModel::GithubEditBodyOfIssue { .. },
    ensures
        parse_action(enc_action(m) + rest) == Some((m, rest)),
{
    reveal_strlit("RunLLMInference");
    reveal_strlit("ReadASingleFile");
    reveal_strlit("StoreOrUpdateMemoryInContext");
    reveal_strlit("RemoveMemoryFromContext");
    reveal_strlit("GithubCreateIssue");
    reveal_strlit("GithubListIssues");
    reveal_strlit("GithubGetIssue");
    reveal_strlit("GithubAddLabelToIssue");
    reveal_strlit("GithubRemoveLabelFromIssue");
    reveal_strlit("GithubCloseIssue");
    reveal_strlit("GithubCommentOnIssue");
    reveal_strlit("GithubEditBodyOfIssue");
    assert("GithubEditBodyOfIssue"@ != "GithubAddLabelToIssue"@) by {
        assert("GithubEditBodyOfIssue"@[6] == 'E');
        assert("GithubAddLabelToIssue"@[6] == 'A');
    }
    if let ActionModel::GithubEditBodyOfIssue { issue_number, body } = m {
        let pay = pay_us("issue_number"@, issue_number, "body"@, body);
        lemma_rt_pay_us("issue_number"@, issue_number, "body"@, body, seq!['}'] + rest);
        lemma_rt_wrap("GithubEditBodyOfIssue"@, pay, m, rest);
    }
}

proof fn lemma_rt_action_githubedittitleofissue(m: ActionModel, rest: Seq<char>)
    requires
        m matches ActionModel::GithubEditTitleOfIssue { .. },
    ensures
        parse_action(enc_action(m) + rest) == Some((m, rest)),
{
    reveal_strlit("RunLLMInference");
    reveal_strlit("ReadASingleFile");
    reveal_strlit("StoreOrUpdateMemoryInContext");
    reveal_strlit("RemoveMemoryFromContext");
    reveal_strlit("GithubCreateIssue");
    reveal_strlit("GithubListIssues");
    reveal_strlit("GithubGetIssue");
    reveal_strlit("GithubAddLabelToIssue");
    reveal_strlit("GithubRemoveLabelFromIssue");
    reveal_strlit("GithubCloseIssue");
    reveal_strlit("GithubCommentOnIssue");
    reveal_strlit("GithubEditBodyOfIssue");
    reveal_strlit("GithubEditTitleOfIssue");
    if let ActionModel::GithubEditTitleOfIssue { issue_number, title } = m {
        let pay = pay_us("issue_number"@, issue_number, "title"@, title);
        lemma_rt_pay_us("issue_number"@, issue_number, "title"@, title, seq!['}'] + rest);
        lemma_rt_wrap("GithubEditTitleOfIssue"@, pay, m, rest);
    }
}

proof fn lemma_rt_action_sleep(m: ActionModel, rest: Seq<char>)
    requires
        m matches ActionModel::Sleep { .. },
    ensures
        parse_action(enc_action(m) + rest) == Some((m, rest)),
{
    reveal_strlit("RunLLMInference");
    reveal_strlit("ReadASingleFile");
    reveal_strlit("StoreOrUpdateMemoryInContext");
    reveal_strlit("RemoveMemoryFromContext");
    reveal_strlit("GithubCreateIssue");
    reveal_strlit("GithubListIssues");
    reveal_strlit("GithubGetIssue");
    reveal_strlit("GithubAddLabelToIssue");
    reveal_strlit("GithubRemoveLabelFromIssue");
    reveal_strlit("GithubCloseIssue");
    reveal_strlit("GithubCommentOnIssue");
    reveal_strlit("GithubEditBodyOfIssue");
    reveal_strlit("GithubEditTitleOfIssue");
    reveal_strlit("Sleep");
    if let ActionModel::Sleep { duration } = m {
        let pay = pay_u("duration"@, duration);
        lemma_rt_pay_u("duration"@, duration, seq!['}'] + rest);
        lemma_rt_wrap("Sleep"@, pay, m, rest);
    }
}

proof fn lemma_rt_action(m: ActionModel, rest: Seq<char>)
    ensures
        parse_action(enc_action(m) + rest) == Some((m, rest)),
{
    match m {
        ActionModel::ReadAllTheCodeBase => lemma_rt_action_unit(m, rest),
        ActionModel::ListAllFiles => lemma_rt_action_unit(m, rest),
        ActionModel::RunLLMInference { .. } => lemma_rt_action_runllminference(m, rest),
        ActionModel::ReadASingleFile { .. } => lemma_rt_action_readasinglefile(m, rest),
        ActionModel::StoreOrUpdateMemoryInContext { .. } => lemma_rt_action_storeorupdatememoryincontext(m, rest),
        ActionModel::RemoveMemoryFromContext { .. } => lemma_rt_action_removememoryfromcontext(m, rest),
        ActionModel::GithubCreateIssue { .. } => lemma_rt_action_githubcreateissue(m, rest),
        ActionModel::GithubListIssues { .. } => lemma_rt_action_githublistissues(m, rest),
        ActionModel::GithubGetIssue { .. } => lemma_rt_action_githubgetissue(m, rest),
        ActionModel::GithubAddLabelToIssue { .. } => lemma_rt_action_githubaddlabeltoissue(m, rest),
        ActionModel::GithubRemoveLabelFromIssue { .. } => lemma_rt_action_githubremovelabelfromissue(m, rest),
        ActionModel::GithubCloseIssue { .. } => lemma_rt_action_githubcloseissue(m, rest),
        ActionModel::GithubCommentOnIssue { .. } => lemma_rt_action_githubcommentonissue(m, rest),
        ActionModel::GithubEditBodyOfIssue { .. } => lemma_rt_action_githubeditbodyofissue(m, rest),
        ActionModel::GithubEditTitleOfIssue { .. } => lemma_rt_action_githubedittitleofissue(m, rest),
        ActionModel::Sleep { .. } => lemma_rt_action_sleep(m, rest),
    }
}

#[verifier::rlimit(100)]
proof fn lemma_rt_items(ms: Seq<ActionModel>, rest: Seq<char>)
    requires
        ms.len() >= 1,
    ensures
        parse_items(enc_items(ms) + (seq![']'] + rest)) == Some((ms, rest)),
    decreases ms.len(),
{
    let s = enc_items(ms) + (seq![']'] + rest);
    if ms.len() == 1 {
        assert(s =~= enc_action(ms[0]) + (seq![']'] + rest));
        lemma_rt_action(ms[0], seq![']'] + rest);
        let r = seq![']'] + rest;
        assert(r[0] == ']');
        assert(skip_ws(r) == r);
        assert(parse_tok(r, ',') is None);
        lemma_rt_tok(']', rest);
        assert(seq![ms[0]] =~= ms);
    } else {
        let d = ms.drop_first();
        assert(enc_tail(d) =~= seq![','] + enc_items(d)) by {
            assert(enc_tail(d) == seq![','] + enc_action(d[0]) + enc_tail(d.drop_first()));
        }
        let x = enc_items(d) + (seq![']'] + rest);
        assert(s =~= enc_action(ms[0]) + (seq![','] + x));
        lemma_rt_action(ms[0], seq![','] + x);
        lemma_rt_tok(',', x);
        lemma_enc_action_starts(ms[0]);
        assert(x.len() < s.len());
        lemma_rt_items(d, rest);
        assert(seq![ms[0]] + d =~= ms);
    }
}

/// Round trip of the wire format: decoding a canonically encoded action
/// list yields exactly the original list, for every list of actions.
pub proof fn lemma_actions_round_trip(ms: Seq<ActionModel>)
    ensures
        decode_spec(enc_actions(ms)) == Some(ms),
{
    let s = enc_actions(ms);
    if ms.len() == 0 {
        assert(s =~= seq!['['] + (seq![']'] + Seq::<char>::empty()));
        lemma_rt_tok('[', seq![']'] + Seq::<char>::empty());
        lemma_rt_tok(']', Seq::<char>::empty());
        assert(ms =~= Seq::<ActionModel>::empty());
    } else {
        let t = enc_items(ms) + (seq![']'] + Seq::<char>::empty());
        assert(s =~= seq!['['] + t);
        lemma_rt_tok('[', t);
        lemma_enc_action_starts(ms[0]);
        assert(t[0] == enc_action(ms[0])[0]) by {
            assert(enc_items(ms) == enc_action(ms[0]) + enc_tail(ms.drop_first()));
        }
        assert(!is_ws(t[0]));
        assert(skip_ws(t) == t);
        assert(t[0] != ']');
        assert(parse_tok(t, ']') is None);
        lemma_rt_items(ms, Seq::<char>::empty());
    }
}

// ===================== proofs: parsing consumes input =====================

proof fn lemma_skip_ws_consumes(s: Seq<char>)
    ensures
        skip_ws(s).len() <= s.len(),
    decreases s.len(),
{
    if s.len() > 0 && is_ws(s[0]) {
        lemma_skip_ws_consumes(s.drop_first());
    }
}

proof fn lemma_parse_body_consumes(s: Seq<char>)
    ensures
        parse_body(s) matches Some((v, r)) ==> r.len() < s.len(),
    decreases s.len(),
{
    if s.len() == 0 {
    } else if s[0] == '"' {
    } else if s[0] == '\\' {
        if s.len() >= 2 && is_escape_code(s[1]) {
            lemma_parse_body_consumes(s.skip(2));
        }
    } else {
        lemma_parse_body_consumes(s.drop_first());
    }
}

proof fn lemma_parse_string_consumes(s: Seq<char>)
    ensures
        parse_string(s) matches Some((v, r)) ==> r.len() < s.len(),
{
    lemma_skip_ws_consumes(s);
    let t = skip_ws(s);
    if t.len() > 0 && t[0] == '"' {
        lemma_parse_body_consumes(t.drop_first());
    }
}

proof fn lemma_parse_tok_consumes(s: Seq<char>, c: char)
    ensures
        parse_tok(s, c) matches Some(r) ==> r.len() < s.len(),
{
    lemma_skip_ws_consumes(s);
}

proof fn lemma_parse_digits_len(s: Seq<char>)
    ensures
        parse_digits(s).0.len() + parse_digits(s).1.len() == s.len(),
    decreases s.len(),
{
    if s.len() > 0 && is_digit(s[0]) {
        lemma_parse_digits_len(s.drop_first());
    }
}

proof fn lemma_parse_u64_consumes(s: Seq<char>)
    ensures
        parse_u64(s) matches Some((n, r)) ==> r.len() < s.len(),
{
    lemma_skip_ws_consumes(s);
    lemma_parse_digits_len(skip_ws(s));
}

proof fn lemma_parse_field_str_consumes(s: Seq<char>, name: Seq<char>)
    ensures
        parse_field_str(s, name) matches Some((v, r)) ==> r.len() < s.len(),
{
    lemma_parse_string_consumes(s);
    if let Some((k, r1)) = parse_string(s) {
        lemma_parse_tok_consumes(r1, ':');
        if let Some(r2) = parse_tok(r1, ':') {
            lemma_parse_string_consumes(r2);
        }
    }
}

proof fn lemma_parse_field_u64_consumes(s: Seq<char>, name: Seq<char>)
    ensures
        parse_field_u64(s, name) matches Some((v, r)) ==> r.len() < s.len(),
{
    lemma_parse_string_consumes(s);
    if let Some((k, r1)) = parse_string(s) {
        lemma_parse_tok_consumes(r1, ':');
        if let Some(r2) = parse_tok(r1, ':') {
            lemma_parse_u64_consumes(r2);
        }
    }
}

proof fn lemma_parse_str_items_consumes(s: Seq<char>)
    ensures
        parse_str_items(s) matches Some((v, r)) ==> r.len() < s.len(),
    decreases s.len(),
{
    lemma_parse_string_consumes(s);
    if let Some((v, r1)) = parse_string(s) {
        lemma_parse_tok_consumes(r1, ',');
        lemma_parse_tok_consumes(r1, ']');
        if let Some(r2) = parse_tok(r1, ',') {
            if r2.len() < s.len() {
                lemma_parse_str_items_consumes(r2);
            }
        }
    }
}

proof fn lemma_parse_str_arr_consumes(s: Seq<char>)
    ensures
        parse_str_arr(s) matches Some((v, r)) ==> r.len() < s.len(),
{
    lemma_parse_tok_consumes(s, '[');
    if let Some(t) = parse_tok(s, '[') {
        lemma_parse_tok_consumes(t, ']');
        lemma_parse_str_items_consumes(t);
    }
}

proof fn lemma_parse_field_arr_consumes(s: Seq<char>, name: Seq<char>)
    ensures
        parse_field_arr(s, name) matches Some((v, r)) ==> r.len() < s.len(),
{
    lemma_parse_string_consumes(s);
    if let Some((k, r1)) = parse_string(s) {
        lemma_parse_tok_consumes(r1, ':');
        if let Some(r2) = parse_tok(r1, ':') {
            lemma_parse_str_arr_consumes(r2);
        }
    }
}

proof fn lemma_parse_pay_consumes(s: Seq<char>, n1: Seq<char>, n2: Seq<char>, n3: Seq<char>)
    ensures
        parse_pay_s(s, n1) matches Some((v, r)) ==> r.len() < s.len(),
        parse_pay_ss(s, n1, n2) matches Some((v, r)) ==> r.len() < s.len(),
        parse_pay_ssa(s, n1, n2, n3) matches Some((v, r)) ==> r.len() < s.len(),
        parse_pay_u(s, n1) matches Some((v, r)) ==> r.len() < s.len(),
        parse_pay_us(s, n1, n2) matches Some((v, r)) ==> r.len() < s.len(),
{
    lemma_parse_tok_consumes(s, '{');
    if let Some(t) = parse_tok(s, '{') {
        lemma_parse_field_str_consumes(t, n1);
        lemma_parse_field_u64_consumes(t, n1);
        if let Some((v1, r)) = parse_field_str(t, n1) {
            lemma_parse_tok_consumes(r, '}');
            lemma_parse_tok_consumes(r, ',');
            if let Some(r2) = parse_tok(r, ',') {
                lemma_parse_field_str_consumes(r2, n2);
                if let Some((v2, r3)) = parse_field_str(r2, n2) {
                    lemma_parse_tok_consumes(r3, '}');
                    lemma_parse_tok_consumes(r3, ',');
                    if let Some(r4) = parse_tok(r3, ',') {
                        lemma_parse_field_arr_consumes(r4, n3);
                        if let Some((l3, r5)) = parse_field_arr(r4, n3) {
                            lemma_parse_tok_consumes(r5, '}');
                        }
                    }
                }
            }
        }
        if let Some((u1, r)) = parse_field_u64(t, n1) {
            lemma_parse_tok_consumes(r, '}');
            lemma_parse_tok_consumes(r, ',');
            if let Some(r2) = parse_tok(r, ',') {
                lemma_parse_field_str_consumes(r2, n2);
                if let Some((v2, r3)) = parse_field_str(r2, n2) {
                    lemma_parse_tok_consumes(r3, '}');
                }
            }
        }
    }
}

proof fn lemma_parse_keyed_payload_consumes(s: Seq<char>, k: Seq<char>)
    ensures
        parse_keyed_payload(s, k) matches Some((m, r)) ==> r.len() < s.len(),
{
    lemma_parse_pay_consumes(s, "system_prompt"@, "user_prompt"@, "labels"@);
    lemma_parse_pay_consumes(s, "path"@, "value"@, "labels"@);
    lemma_parse_pay_consumes(s, "key"@, "value"@, "labels"@);
    lemma_parse_pay_consumes(s, "title"@, "body"@, "labels"@);
    lemma_parse_pay_consumes(s, "state"@, "body"@, "labels"@);
    lemma_parse_pay_consumes(s, "issue_number"@, "label"@, "labels"@);
    lemma_parse_pay_consumes(s, "issue_number"@, "body"@, "labels"@);
    lemma_parse_pay_consumes(s, "issue_number"@, "title"@, "labels"@);
    lemma_parse_pay_consumes(s, "duration"@, "body"@, "labels"@);
}

proof fn lemma_parse_action_consumes(s: Seq<char>)
    ensures
        parse_action(s) matches Some((m, r)) ==> r.len() < s.len(),
{
    lemma_skip_ws_consumes(s);
    let t = skip_ws(s);
    if t.len() == 0 {
    } else if t[0] == '"' {
        lemma_parse_body_consumes(t.drop_first());
    } else if t[0] == '{' {
        lemma_parse_string_consumes(t.drop_first());
        if let Some((k, r)) = parse_string(t.drop_first()) {
            lemma_parse_tok_consumes(r, ':');
            if let Some(r2) = parse_tok(r, ':') {
                lemma_parse_keyed_payload_consumes(r2, k);
                if let Some((m, r3)) = parse_keyed_payload(r2, k) {
                    lemma_parse_tok_consumes(r3, '}');
                }
            }
        }
    }
}

// ===================== exec: decoding =====================

fn is_ws_exec(c: char) -> (r: bool)
    ensures
        r == is_ws(c),
{
    c == ' ' || c == '\n' || c == '\t' || c == '\r'
}

fn is_digit_exec(c: char) -> (r: bool)
    ensures
        r == is_digit(c),
{
    c == '0' || c == '1' || c == '2' || c == '3' || c == '4' || c == '5' || c == '6' || c == '7'
        || c == '8' || c == '9'
}

fn dval_exec(c: char) -> (r: u64)
    requires
        is_digit(c),
    ensures
        r as nat == dval(c),
        r < 10,
{
    if c == '0' { 0 }
    else if c == '1' { 1 }
    else if c == '2' { 2 }
    else if c == '3' { 3 }
    else if c == '4' { 4 }
    else if c == '5' { 5 }
    else if c == '6' { 6 }
    else if c == '7' { 7 }
    else if c == '8' { 8 }
    else { 9 }
}

/// Compares a parsed string with an expected literal.
fn string_eq_str(a: &String, b: &str) -> (r: bool)
    ensures
        r == (a@ == b@),
{
    let bs = String::from_str(b);
    a.eq(&bs)
}

fn skip_ws_exec<'a>(s: &'a [char]) -> (r: &'a [char])
    ensures
        r@ == skip_ws(s@),
{
    let mut i: usize = 0;
    proof {
        assert(s@.skip(0) =~= s@);
    }
    while i < s.len() && is_ws_exec(s[i])
        invariant
            i <= s@.len(),
            skip_ws(s@) == skip_ws(s@.skip(i as int)),
        decreases s@.len() - i,
    {
        proof {
            assert(s@.skip(i as int)[0] == s@[i as int]);
            assert(s@.skip(i as int).drop_first() =~= s@.skip(i as int + 1));
        }
        i += 1;
    }
    proof {
        if i < s.len() {
            assert(s@.skip(i as int)[0] == s@[i as int]);
        }
        assert(skip_ws(s@.skip(i as int)) == s@.skip(i as int));
    }
    let r = vstd::slice::slice_subrange(s, i, s.len());
    proof {
        assert(r@ =~= s@.skip(i as int));
    }
    r
}

fn parse_body_exec<'a>(s: &'a [char], out: &mut String) -> (r: Option<&'a [char]>)
    ensures
        match parse_body(s@) {
            Some((cs, rest)) => r matches Some(rr) && rr@ == rest && final(out)@ == old(out)@ + cs,
            None => r is None,
        },
    decreases s@.len(),
{
    if s.len() == 0 {
        return None;
    }
    let c = s[0];
    if c == '"' {
        let rr = vstd::slice::slice_subrange(s, 1, s.len());
        proof {
            assert(rr@ =~= s@.drop_first());
            assert(out@ =~= old(out)@ + Seq::<char>::empty());
        }
        Some(rr)
    } else if c == '\\' {
        if s.len() < 2 {
            return None;
        }
        let e = s[1];
        if e == '"' || e == '\\' || e == '/' || e == 'n' || e == 't' || e == 'r' {
            let u = if e == 'n' { '\n' } else if e == 't' { '\t' } else if e == 'r' { '\r' } else { e };
            assert(u == unescape(s@[1]));
            string_push(out, u);
            let s2 = vstd::slice::slice_subrange(s, 2, s.len());
            proof {
                assert(s2@ =~= s@.skip(2));
            }
            match parse_body_exec(s2, out) {
                Some(rr) => {
                    proof {
                        if let Some((cs2, rest2)) = parse_body(s@.skip(2)) {
                            assert(out@ =~= old(out)@ + (seq![unescape(s@[1])] + cs2));
                        }
                    }
                    Some(rr)
                },
                None => None,
            }
        } else {
            None
        }
    } else {
        string_push(out, c);
        let s1 = vstd::slice::slice_subrange(s, 1, s.len());
        proof {
            assert(s1@ =~= s@.drop_first());
        }
        match parse_body_exec(s1, out) {
            Some(rr) => {
                proof {
                    if let Some((cs1, rest1)) = parse_body(s@.drop_first()) {
                        assert(out@ =~= old(out)@ + (seq![s@[0]] + cs1));
                    }
                }
                Some(rr)
            },
            None => None,
        }
    }
}

fn parse_string_exec<'a>(s: &'a [char]) -> (r: Option<(String, &'a [char])>)
    ensures
        match parse_string(s@) {
            Some((v, rest)) => r matches Some((vs, rr)) && vs@ == v && rr@ == rest,
            None => r is None,
        },
{
    let t = skip_ws_exec(s);
    if t.len() > 0 && t[0] == '"' {
        let mut content = String::new();
        let t1 = vstd::slice::slice_subrange(t, 1, t.len());
        proof {
            assert(t1@ =~= t@.drop_first());
        }
        match parse_body_exec(t1, &mut content) {
            Some(rr) => Some((content, rr)),
            None => None,
        }
    } else {
        None
    }
}

fn parse_tok_exec<'a>(s: &'a [char], c: char) -> (r: Option<&'a [char]>)
    requires
        !is_ws(c),
    ensures
        match parse_tok(s@, c) {
            Some(rest) => r matches Some(rr) && rr@ == rest,
            None => r is None,
        },
{
    let t = skip_ws_exec(s);
    if t.len() > 0 && t[0] == c {
        let rr = vstd::slice::slice_subrange(t, 1, t.len());
        proof {
            assert(rr@ =~= t@.drop_first());
        }
        Some(rr)
    } else {
        None
    }
}

proof fn lemma_parse_digits_split(s: Seq<char>, k: int)
    requires
        0 <= k <= s.len(),
        forall|j: int| 0 <= j < k ==> is_digit(#[trigger] s[j]),
        k == s.len() || !is_digit(s[k]),
    ensures
        parse_digits(s) == (s.take(k), s.skip(k)),
    decreases k,
{
    if k == 0 {
        assert(s.take(0) =~= Seq::<char>::empty());
        assert(s.skip(0) =~= s);
    } else {
        assert(is_digit(s[0]));
        lemma_parse_digits_split(s.drop_first(), k - 1);
        assert(s.drop_first().take(k - 1) =~= s.take(k).drop_first());
        assert(seq![s[0]] + s.take(k).drop_first() =~= s.take(k));
        assert(s.drop_first().skip(k - 1) =~= s.skip(k));
        assert(seq![s[0]] + s.drop_first().take(k - 1) =~= s.take(k));
    }
}

proof fn lemma_digits_val_prefix(ds: Seq<char>, i: int)
    requires
        0 <= i <= ds.len(),
    ensures
        digits_val(ds.take(i)) <= digits_val(ds),
    decreases ds.len(),
{
    if i == ds.len() {
        assert(ds.take(i) =~= ds);
    } else {
        assert(digits_val(ds) == digits_val(ds.drop_last()) * 10 + dval(ds.last()));
        assert(digits_val(ds.drop_last()) * 10 >= digits_val(ds.drop_last()));
        lemma_digits_val_prefix(ds.drop_last(), i);
        assert(ds.drop_last().take(i) =~= ds.take(i));
    }
}

fn parse_u64_exec<'a>(s: &'a [char]) -> (r: Option<(u64, &'a [char])>)
    ensures
        match parse_u64(s@) {
            Some((n, rest)) => r matches Some((nn, rr)) && nn == n && rr@ == rest,
            None => r is None,
        },
{
    let t = skip_ws_exec(s);
    let mut k: usize = 0;
    while k < t.len() && is_digit_exec(t[k])
        invariant
            k <= t@.len(),
            forall|j: int| 0 <= j < k ==> is_digit(#[trigger] t@[j]),
        decreases t@.len() - k,
    {
        k += 1;
    }
    proof {
        lemma_parse_digits_split(t@, k as int);
    }
    if k == 0 {
        return None;
    }
    let ghost ds = t@.take(k as int);
    let mut acc: u64 = 0;
    let mut j: usize = 0;
    while j < k
        invariant
            j <= k,
            1 <= k <= t@.len(),
            t@ == skip_ws(s@),
            parse_digits(t@) == (ds, t@.skip(k as int)),
            ds == t@.take(k as int),
            ds.len() == k,
            forall|jj: int| 0 <= jj < k ==> is_digit(#[trigger] t@[jj]),
            forall|jj: int| 0 <= jj < ds.len() ==> is_digit(#[trigger] ds[jj]),
            acc as nat == digits_val(ds.take(j as int)),
            digits_val(ds.take(j as int)) <= u64::MAX,
        decreases k - j,
    {
        let d = dval_exec(t[j]);
        proof {
            assert(ds.take(j as int + 1).drop_last() =~= ds.take(j as int));
            assert(ds.take(j as int + 1).last() == ds[j as int]);
            assert(digits_val(ds.take(j as int + 1)) == digits_val(ds.take(j as int)) * 10 + dval(
                ds[j as int],
            ));
        }
        if acc > (u64::MAX - d) / 10 {
            proof {
                assert(ds[j as int] == t@[j as int]);
                assert(dval(ds[j as int]) == d as nat);
                vstd::arithmetic::div_mod::lemma_fundamental_div_mod(
                    (u64::MAX - d) as int,
                    10,
                );
                assert(acc as nat >= ((u64::MAX - d) / 10) as nat + 1);
                assert(acc as nat * 10 + d as nat > u64::MAX);
                assert(digits_val(ds.take(j as int + 1)) == acc as nat * 10 + d as nat);
                lemma_digits_val_prefix(ds, j as int + 1);
                assert(digits_val(ds) > u64::MAX);
                assert(parse_u64(s@) is None);
            }
            return None;
        }
        proof {
            vstd::arithmetic::div_mod::lemma_fundamental_div_mod((u64::MAX - d) as int, 10);
            assert(acc as nat * 10 + d as nat <= u64::MAX);
        }
        acc = acc * 10 + d;
        j += 1;
    }
    proof {
        assert(ds.take(k as int) =~= ds);
    }
    let rr = vstd::slice::slice_subrange(t, k, t.len());
    proof {
        assert(rr@ =~= t@.skip(k as int));
    }
    Some((acc, rr))
}

fn parse_str_items_exec<'a>(s: &'a [char]) -> (r: Option<(Vec<String>, &'a [char])>)
    ensures
        match parse_str_items(s@) {
            Some((vs, rest)) => r matches Some((v, rr)) && v.deep_view() == vs && rr@ == rest,
            None => r is None,
        },
    decreases s@.len(),
{
    match parse_string_exec(s) {
        None => None,
        Some((v0, r1)) => {
            proof {
                lemma_parse_string_consumes(s@);
            }
            match parse_tok_exec(r1, ',') {
                Some(r2) => {
                    proof {
                        lemma_parse_tok_consumes(r1@, ',');
                    }
                    match parse_str_items_exec(r2) {
                        Some((mut vs, r3)) => {
                            let ghost dv0 = vs.deep_view();
                            vs.insert(0, v0);
                            proof {
                                assert(vs.deep_view() =~= seq![v0@] + dv0);
                            }
                            Some((vs, r3))
                        },
                        None => None,
                    }
                },
                None => match parse_tok_exec(r1, ']') {
                    Some(r2) => {
                        let mut vs: Vec<String> = Vec::new();
                        vs.push(v0);
                        proof {
                            assert(vs.deep_view() =~= seq![v0@]);
                        }
                        Some((vs, r2))
                    },
                    None => None,
                },
            }
        },
    }
}

fn parse_str_arr_exec<'a>(s: &'a [char]) -> (r: Option<(Vec<String>, &'a [char])>)
    ensures
        match parse_str_arr(s@) {
            Some((vs, rest)) => r matches Some((v, rr)) && v.deep_view() == vs && rr@ == rest,
            None => r is None,
        },
{
    match parse_tok_exec(s, '[') {
        None => None,
        Some(t) => match parse_tok_exec(t, ']') {
            Some(r2) => {
                let vs: Vec<String> = Vec::new();
                proof {
                    assert(vs.deep_view() =~= Seq::<Seq<char>>::empty());
                }
                Some((vs, r2))
            },
            None => parse_str_items_exec(t),
        },
    }
}

fn parse_field_str_exec<'a>(s: &'a [char], name: &str) -> (r: Option<(String, &'a [char])>)
    ensures
        match parse_field_str(s@, name@) {
            Some((v, rest)) => r matches Some((vs, rr)) && vs@ == v && rr@ == rest,
            None => r is None,
        },
{
    match parse_string_exec(s) {
        None => None,
        Some((k, r1)) => {
            if string_eq_str(&k, name) {
                match parse_tok_exec(r1, ':') {
                    Some(r2) => parse_string_exec(r2),
                    None => None,
                }
            } else {
                None
            }
        },
    }
}

fn parse_field_u64_exec<'a>(s: &'a [char], name: &str) -> (r: Option<(u64, &'a [char])>)
    ensures
        match parse_field_u64(s@, name@) {
            Some((v, rest)) => r matches Some((n, rr)) && n == v && rr@ == rest,
            None => r is None,
        },
{
    match parse_string_exec(s) {
        None => None,
        Some((k, r1)) => {
            if string_eq_str(&k, name) {
                match parse_tok_exec(r1, ':') {
                    Some(r2) => parse_u64_exec(r2),
                    None => None,
                }
            } else {
                None
            }
        },
    }
}

fn parse_field_arr_exec<'a>(s: &'a [char], name: &str) -> (r: Option<(Vec<String>, &'a [char])>)
    ensures
        match parse_field_arr(s@, name@) {
            Some((v, rest)) => r matches Some((vs, rr)) && vs.deep_view() == v && rr@ == rest,
            None => r is None,
        },
{
    match parse_string_exec(s) {
        None => None,
        Some((k, r1)) => {
            if string_eq_str(&k, name) {
                match parse_tok_exec(r1, ':') {
                    Some(r2) => parse_str_arr_exec(r2),
                    None => None,
                }
            } else {
                None
            }
        },
    }
}

fn parse_pay_s_exec<'a>(s: &'a [char], n1: &str) -> (r: Option<(String, &'a [char])>)
    ensures
        match parse_pay_s(s@, n1@) {
            Some((v1, rest)) => r matches Some((a, rr)) && a@ == v1 && rr@ == rest,
            None => r is None,
        },
{
    match parse_tok_exec(s, '{') {
        None => None,
        Some(t) => match parse_field_str_exec(t, n1) {
            Some((v1, r1)) => match parse_tok_exec(r1, '}') {
                Some(r2) => Some((v1, r2)),
                None => None,
            },
            None => None,
        },
    }
}

fn parse_pay_ss_exec<'a>(s: &'a [char], n1: &str, n2: &str) -> (r: Option<
    (String, String, &'a [char]),
>)
    ensures
        match parse_pay_ss(s@, n1@, n2@) {
            Some(((v1, v2), rest)) => r matches Some((a, b, rr)) && a@ == v1 && b@ == v2 && rr@
                == rest,
            None => r is None,
        },
{
    match parse_tok_exec(s, '{') {
        None => None,
        Some(t) => match parse_field_str_exec(t, n1) {
            Some((v1, r1)) => match parse_tok_exec(r1, ',') {
                Some(r2) => match parse_field_str_exec(r2, n2) {
                    Some((v2, r3)) => match parse_tok_exec(r3, '}') {
                        Some(r4) => Some((v1, v2, r4)),
                        None => None,
                    },
                    None => None,
                },
                None => None,
            },
            None => None,
        },
    }
}

fn parse_pay_ssa_exec<'a>(s: &'a [char], n1: &str, n2: &str, n3: &str) -> (r: Option<
    (String, String, Vec<String>, &'a [char]),
>)
    ensures
        match parse_pay_ssa(s@, n1@, n2@, n3@) {
            Some(((v1, v2, l3), rest)) => r matches Some((a, b, c, rr)) && a@ == v1 && b@ == v2
                && c.deep_view() == l3 && rr@ == rest,
            None => r is None,
        },
{
    match parse_tok_exec(s, '{') {
        None => None,
        Some(t) => match parse_field_str_exec(t, n1) {
            Some((v1, r1)) => match parse_tok_exec(r1, ',') {
                Some(r2) => match parse_field_str_exec(r2, n2) {
                    Some((v2, r3)) => match parse_tok_exec(r3, ',') {
                        Some(r4) => match parse_field_arr_exec(r4, n3) {
                            Some((l3, r5)) => match parse_tok_exec(r5, '}') {
                                Some(r6) => Some((v1, v2, l3, r6)),
                                None => None,
                            },
                            None => None,
                        },
                        None => None,
                    },
                    None => None,
                },
                None => None,
            },
            None => None,
        },
    }
}

fn parse_pay_u_exec<'a>(s: &'a [char], n1: &str) -> (r: Option<(u64, &'a [char])>)
    ensures
        match parse_pay_u(s@, n1@) {
            Some((u1, rest)) => r matches Some((a, rr)) && a == u1 && rr@ == rest,
            None => r is None,
        },
{
    match parse_tok_exec(s, '{') {
        None => None,
        Some(t) => match parse_field_u64_exec(t, n1) {
            Some((u1, r1)) => match parse_tok_exec(r1, '}') {
                Some(r2) => Some((u1, r2)),
                None => None,
            },
            None => None,
        },
    }
}

fn parse_pay_us_exec<'a>(s: &'a [char], n1: &str, n2: &str) -> (r: Option<
    (u64, String, &'a [char]),
>)
    ensures
        match parse_pay_us(s@, n1@, n2@) {
            Some(((u1, v2), rest)) => r matches Some((a, b, rr)) && a == u1 && b@ == v2 && rr@
                == rest,
            None => r is None,
        },
{
    match parse_tok_exec(s, '{') {
        None => None,
        Some(t) => match parse_field_u64_exec(t, n1) {
            Some((u1, r1)) => match parse_tok_exec(r1, ',') {
                Some(r2) => match parse_field_str_exec(r2, n2) {
                    Some((v2, r3)) => match parse_tok_exec(r3, '}') {
                        Some(r4) => Some((u1, v2, r4)),
                        None => None,
                    },
                    None => None,
                },
                None => None,
            },
            None => None,
        },
    }
}

#[verifier::rlimit(100)]
fn parse_keyed_payload_exec<'a>(s: &'a [char], k: &String) -> (r: Option<(Actions, &'a [char])>)
    ensures
        match parse_keyed_payload(s@, k@) {
            Some((m, rest)) => r matches Some((a, rr)) && a@ == m && rr@ == rest,
            None => r is None,
        },
{
    if string_eq_str(k, "RunLLMInference") {
        match parse_pay_ss_exec(s, "system_prompt", "user_prompt") {
            Some((v1, v2, rr)) => Some(
                (Actions::RunLLMInference { system_prompt: v1, user_prompt: v2 }, rr),
            ),
            None => None,
        }
    } else if string_eq_str(k, "ReadASingleFile") {
        match parse_pay_s_exec(s, "path") {
            Some((v1, rr)) => Some((Actions::ReadASingleFile { path: v1 }, rr)),
            None => None,
        }
    } else if string_eq_str(k, "StoreOrUpdateMemoryInContext") {
        match parse_pay_ss_exec(s, "key", "value") {
            Some((v1, v2, rr)) => Some(
                (Actions::StoreOrUpdateMemoryInContext { key: v1, value: v2 }, rr),
            ),
            None => None,
        }
    } else if string_eq_str(k, "RemoveMemoryFromContext") {
        match parse_pay_s_exec(s, "key") {
            Some((v1, rr)) => Some((Actions::RemoveMemoryFromContext { key: v1 }, rr)),
            None => None,
        }
    } else if string_eq_str(k, "GithubCreateIssue") {
        match parse_pay_ssa_exec(s, "title", "body", "labels") {
            Some((v1, v2, l3, rr)) => Some(
                (Actions::GithubCreateIssue { title: v1, body: v2, labels: l3 }, rr),
            ),
            None => None,
        }
    } else if string_eq_str(k, "GithubListIssues") {
        match parse_pay_s_exec(s, "state") {
            Some((v1, rr)) => Some((Actions::GithubListIssues { state: v1 }, rr)),
            None => None,
        }
    } else if string_eq_str(k, "GithubGetIssue") {
        match parse_pay_u_exec(s, "issue_number") {
            Some((u1, rr)) => Some((Actions::GithubGetIssue { issue_number: u1 }, rr)),
            None => None,
        }
    } else if string_eq_str(k, "GithubAddLabelToIssue") {
        match parse_pay_us_exec(s, "issue_number", "label") {
            Some((u1, v2, rr)) => Some(
                (Actions::GithubAddLabelToIssue { issue_number: u1, label: v2 }, rr),
            ),
            None => None,
        }
    } else if string_eq_str(k, "GithubRemoveLabelFromIssue") {
        match parse_pay_us_exec(s, "issue_number", "label") {
            Some((u1, v2, rr)) => Some(
                (Actions::GithubRemoveLabelFromIssue { issue_number: u1, label: v2 }, rr),
            ),
            None => None,
        }
    } else if string_eq_str(k, "GithubCloseIssue") {
        match parse_pay_u_exec(s, "issue_number") {
            Some((u1, rr)) => Some((Actions::GithubCloseIssue { issue_number: u1 }, rr)),
            None => None,
        }
    } else if string_eq_str(k, "GithubCommentOnIssue") {
        match parse_pay_us_exec(s, "issue_number", "body") {
            Some((u1, v2, rr)) => Some(
                (Actions::GithubCommentOnIssue { issue_number: u1, body: v2 }, rr),
            ),
            None => None,
        }
    } else if string_eq_str(k, "GithubEditBodyOfIssue") {
        match parse_pay_us_exec(s, "issue_number", "body") {
            Some((u1, v2, rr)) => Some(
                (Actions::GithubEditBodyOfIssue { issue_number: u1, body: v2 }, rr),
            ),
            None => None,
        }
    } else if string_eq_str(k, "GithubEditTitleOfIssue") {
        match parse_pay_us_exec(s, "issue_number", "title") {
            Some((u1, v2, rr)) => Some(
                (Actions::GithubEditTitleOfIssue { issue_number: u1, title: v2 }, rr),
            ),
            None => None,
        }
    } else if string_eq_str(k, "Sleep") {
        match parse_pay_u_exec(s, "duration") {
            Some((u1, rr)) => Some((Actions::Sleep { duration: u1 }, rr)),
            None => None,
        }
    } else {
        None
    }
}

fn parse_action_exec<'a>(s: &'a [char]) -> (r: Option<(Actions, &'a [char])>)
    ensures
        match parse_action(s@) {
            Some((m, rest)) => r matches Some((a, rr)) && a@ == m && rr@ == rest,
            None => r is None,
        },
{
    let t = skip_ws_exec(s);
    if t.len() == 0 {
        None
    } else if t[0] == '"' {
        let mut content = String::new();
        let t1 = vstd::slice::slice_subrange(t, 1, t.len());
        proof {
            assert(t1@ =~= t@.drop_first());
        }
        match parse_body_exec(t1, &mut content) {
            Some(rr) => {
                if string_eq_str(&content, "ReadAllTheCodeBase") {
                    Some((Actions::ReadAllTheCodeBase, rr))
                } else if string_eq_str(&content, "ListAllFiles") {
                    Some((Actions::ListAllFiles, rr))
                } else {
                    None
                }
            },
            None => None,
        }
    } else if t[0] == '{' {
        let t1 = vstd::slice::slice_subrange(t, 1, t.len());
        proof {
            assert(t1@ =~= t@.drop_first());
        }
        match parse_string_exec(t1) {
            Some((key, r1)) => match parse_tok_exec(r1, ':') {
                Some(r2) => match parse_keyed_payload_exec(r2, &key) {
                    Some((a, r3)) => match parse_tok_exec(r3, '}') {
                        Some(r4) => Some((a, r4)),
                        None => None,
                    },
                    None => None,
                },
                None => None,
            },
            None => None,
        }
    } else {
        None
    }
}

fn parse_items_exec<'a>(s: &'a [char]) -> (r: Option<(Vec<Actions>, &'a [char])>)
    ensures
        match parse_items(s@) {
            Some((ms, rest)) => r matches Some((v, rr)) && v.deep_view() == ms && rr@ == rest,
            None => r is None,
        },
    decreases s@.len(),
{
    match parse_action_exec(s) {
        None => None,
        Some((a0, r1)) => {
            proof {
                lemma_parse_action_consumes(s@);
            }
            match parse_tok_exec(r1, ',') {
                Some(r2) => {
                    proof {
                        lemma_parse_tok_consumes(r1@, ',');
                    }
                    match parse_items_exec(r2) {
                        Some((mut v, r3)) => {
                            let ghost dv0 = v.deep_view();
                            v.insert(0, a0);
                            proof {
                                assert(v.deep_view() =~= seq![a0@] + dv0);
                            }
                            Some((v, r3))
                        },
                        None => None,
                    }
                },
                None => match parse_tok_exec(r1, ']') {
                    Some(r2) => {
                        let mut v: Vec<Actions> = Vec::new();
                        v.push(a0);
                        proof {
                            assert(v.deep_view() =~= seq![a0@]);
                        }
                        Some((v, r2))
                    },
                    None => None,
                },
            }
        },
    }
}

fn parse_actions_exec<'a>(s: &'a [char]) -> (r: Option<(Vec<Actions>, &'a [char])>)
    ensures
        match parse_actions(s@) {
            Some((ms, rest)) => r matches Some((v, rr)) && v.deep_view() == ms && rr@ == rest,
            None => r is None,
        },
{
    match parse_tok_exec(s, '[') {
        None => None,
        Some(t) => match parse_tok_exec(t, ']') {
            Some(r2) => {
                let v: Vec<Actions> = Vec::new();
                proof {
                    assert(v.deep_view() =~= Seq::<ActionModel>::empty());
                }
                Some((v, r2))
            },
            None => parse_items_exec(t),
        },
    }
}

/// Decodes a decision payload: a JSON array of actions, possibly surrounded
/// by whitespace. Succeeds exactly on the inputs whose whole text is such an
/// array, and then returns exactly the actions it denotes.
pub fn decode_actions(s: &str) -> (r: Option<Vec<Actions>>)
    ensures
        match decode_spec(s@) {
            Some(ms) => r matches Some(v) && v.deep_view() == ms,
            None => r is None,
        },
{
    let n = s.unicode_len();
    let mut cs: Vec<char> = Vec::new();
    let mut i: usize = 0;
    while i < n
        invariant
            i <= n,
            n == s@.len(),
            cs@ == s@.take(i as int),
        decreases n - i,
    {
        let c = s.get_char(i);
        cs.push(c);
        proof {
            assert(cs@ =~= s@.take(i as int + 1));
        }
        i += 1;
    }
    proof {
        assert(cs@ =~= s@);
    }
    match parse_actions_exec(cs.as_slice()) {
        Some((v, rest)) => {
            let rem = skip_ws_exec(rest);
            if rem.len() == 0 {
                Some(v)
            } else {
                None
            }
        },
        None => None,
    }
}

} // verus!
