//! Interpretation of a model response.
//!
//! A decision payload is free text, a line of `===`, and a JSON array of
//! actions, possibly framed by further `===` markers. The text before the
//! first marker is thinking and is discarded; the rest, with markers
//! removed and whitespace trimmed, must decode as an action array. A
//! missing marker or an undecodable remainder yields no actions and an
//! error message the next prompt will carry. This module also holds the
//! retry policy of the model call and the response sanitiser.

use vstd::prelude::*;
use crate::actions::Actions;
use crate::codec::{decode_actions, decode_spec, is_ws, skip_ws};
use crate::textutil::string_push;
use vstd::string::StrSliceExecFns;
use vstd::string::StringExecFns;

verus! {

// ===================== text utilities with exact meanings =====================

/// Position of the first `===` marker, if any.
pub open spec fn first_marker(s: Seq<char>) -> Option<int>
    decreases s.len(),
{
    if s.len() < 3 {
        None
    } else if s[0] == '=' && s[1] == '=' && s[2] == '=' {
        Some(0)
    } else {
        match first_marker(s.drop_first()) {
            Some(i) => Some(i + 1),
            None => None,
        }
    }
}

/// `s` with every occurrence of `pat` removed, scanning left to right.
pub open spec fn remove_pat(s: Seq<char>, pat: Seq<char>) -> Seq<char>
    decreases s.len(),
    when pat.len() >= 1
{
    if s.len() == 0 {
        Seq::empty()
    } else if pat.len() <= s.len() && s.take(pat.len() as int) == pat {
        remove_pat(s.skip(pat.len() as int), pat)
    } else {
        seq![s[0]] + remove_pat(s.drop_first(), pat)
    }
}

/// Drops trailing whitespace.
pub open spec fn skip_ws_end(s: Seq<char>) -> Seq<char>
    decreases s.len(),
{
    if s.len() > 0 && is_ws(s.last()) {
        skip_ws_end(s.drop_last())
    } else {
        s
    }
}

/// `s` without leading and trailing whitespace.
pub open spec fn trim_spec(s: Seq<char>) -> Seq<char> {
    skip_ws_end(skip_ws(s))
}

fn is_ws_exec(c: char) -> (r: bool)
    ensures
        r == is_ws(c),
{
    c == ' ' || c == '\n' || c == '\t' || c == '\r'
}

/// Whether `pat` occurs in `s` at position `i`.
pub(crate) fn pat_at_exec(s: &str, i: usize, pat: &str) -> (r: bool)
    requires
        i <= s@.len(),
    ensures
        r == (i + pat@.len() <= s@.len() && s@.subrange(i as int, i + pat@.len()) == pat@),
{
    let m = pat.unicode_len();
    let n = s.unicode_len();
    if m > n || i > n - m {
        proof {
            assert(i + pat@.len() > s@.len());
        }
        return false;
    }
    let mut j: usize = 0;
    while j < m
        invariant
            j <= m,
            m == pat@.len(),
            n == s@.len(),
            i + m <= n,
            forall|jj: int| 0 <= jj < j ==> s@[i + jj] == pat@[jj],
        decreases m - j,
    {
        if s.get_char(i + j) != pat.get_char(j) {
            proof {
                assert(s@.subrange(i as int, i + pat@.len())[j as int] != pat@[j as int]);
            }
            return false;
        }
        j += 1;
    }
    proof {
        assert(s@.subrange(i as int, i + pat@.len()) =~= pat@);
    }
    true
}

/// Removes every occurrence of `pat` from `s`, scanning left to right.
pub fn remove_pat_exec(s: &str, pat: &str) -> (r: String)
    requires
        pat@.len() >= 1,
    ensures
        r@ == remove_pat(s@, pat@),
{
    let n = s.unicode_len();
    let m = pat.unicode_len();
    let mut out = String::new();
    let mut i: usize = 0;
    proof {
        assert(s@.skip(0) =~= s@);
    }
    while i < n
        invariant
            i <= n,
            n == s@.len(),
            m == pat@.len(),
            m >= 1,
            out@ + remove_pat(s@.skip(i as int), pat@) == remove_pat(s@, pat@),
        decreases n - i,
    {
        if pat_at_exec(s, i, pat) {
            proof {
                assert(s@.skip(i as int).take(m as int) =~= s@.subrange(i as int, i + m));
                assert(s@.skip(i as int).skip(m as int) =~= s@.skip(i as int + m));
            }
            i += m;
        } else {
            proof {
                assert(s@.skip(i as int).len() > 0);
                assert(s@.skip(i as int)[0] == s@[i as int]);
                if m <= s@.len() - i {
                    assert(s@.skip(i as int).take(m as int) =~= s@.subrange(i as int, i + m));
                }
                assert(s@.skip(i as int).drop_first() =~= s@.skip(i as int + 1));
            }
            let c = s.get_char(i);
            string_push(&mut out, c);
            proof {
                assert(out@ + remove_pat(s@.skip(i as int + 1), pat@) =~= remove_pat(s@, pat@));
            }
            i += 1;
        }
    }
    proof {
        assert(s@.skip(n as int) =~= Seq::<char>::empty());
        assert(out@ =~= remove_pat(s@, pat@));
    }
    out
}

/// Removes leading and trailing whitespace.
pub fn trim_exec(s: &str) -> (r: String)
    ensures
        r@ == trim_spec(s@),
{
    let n = s.unicode_len();
    let mut a: usize = 0;
    proof {
        assert(s@.skip(0) =~= s@);
    }
    while a < n && is_ws_exec(s.get_char(a))
        invariant
            a <= n,
            n == s@.len(),
            skip_ws(s@) == skip_ws(s@.skip(a as int)),
        decreases n - a,
    {
        proof {
            assert(s@.skip(a as int)[0] == s@[a as int]);
            assert(s@.skip(a as int).drop_first() =~= s@.skip(a as int + 1));
        }
        a += 1;
    }
    proof {
        if a < n {
            assert(s@.skip(a as int)[0] == s@[a as int]);
        }
        assert(skip_ws(s@) == s@.skip(a as int));
    }
    // from here the leading-trimmed text is s@[a..]; trim its tail
    let mut b: usize = n;
    proof {
        assert(s@.skip(a as int).take((b - a) as int) =~= s@.skip(a as int));
    }
    while b > a && is_ws_exec(s.get_char(b - 1))
        invariant
            a <= b <= n,
            n == s@.len(),
            skip_ws(s@) == s@.skip(a as int),
            skip_ws_end(s@.skip(a as int)) == skip_ws_end(s@.skip(a as int).take((b - a) as int)),
        decreases b,
    {
        proof {
            let t = s@.skip(a as int).take((b - a) as int);
            assert(t.last() == s@[b - 1]);
            assert(t.drop_last() =~= s@.skip(a as int).take((b - 1 - a) as int));
        }
        b -= 1;
    }
    proof {
        let t = s@.skip(a as int).take((b - a) as int);
        if b > a {
            assert(t.last() == s@[b - 1]);
        }
        assert(skip_ws_end(t) == t);
    }
    // copy out s@[a..b]
    let mut out = String::new();
    let mut i: usize = a;
    while i < b
        invariant
            a <= i <= b <= n,
            n == s@.len(),
            out@ == s@.subrange(a as int, i as int),
        decreases b - i,
    {
        let c = s.get_char(i);
        string_push(&mut out, c);
        proof {
            assert(out@ =~= s@.subrange(a as int, i as int + 1));
        }
        i += 1;
    }
    proof {
        assert(out@ =~= s@.skip(a as int).take((b - a) as int));
    }
    out
}

// ===================== decision parsing =====================

/// Outcome of interpreting a model response: the actions to run this cycle
/// and, when interpretation failed, the error to surface in the next prompt.
pub struct ParsedDecision {
    pub actions: Vec<Actions>,
    pub error: Option<String>,
}

/// The error recorded when the response holds no `===` marker.
pub open spec fn missing_marker_error() -> Seq<char> {
    "No actions found in your output. Did you use equal signs: === ?"@
}

/// The error recorded when the text after the marker does not decode.
pub open spec fn bad_actions_error() -> Seq<char> {
    "Failed to parse actions from the model output."@
}

/// The cleaned action text after the first marker: markers removed,
/// whitespace trimmed.
pub open spec fn decision_payload(s: Seq<char>, i: int) -> Seq<char> {
    trim_spec(remove_pat(s.skip(i), "==="@))
}

/// Finds the first `===` marker.
fn find_marker(s: &str) -> (r: Option<usize>)
    ensures
        match first_marker(s@) {
            Some(i) => r matches Some(j) && j == i && i + 3 <= s@.len(),
            None => r is None,
        },
{
    let n = s.unicode_len();
    let mut i: usize = 0;
    proof {
        assert(s@.skip(0) =~= s@);
    }
    loop
        invariant
            i <= n,
            n == s@.len(),
            match first_marker(s@.skip(i as int)) {
                Some(j) => first_marker(s@) == Some(i + j),
                None => first_marker(s@) is None,
            },
        decreases n - i,
    {
        if n < 3 || i > n - 3 {
            proof {
                assert(s@.skip(i as int).len() < 3);
            }
            return None;
        }
        proof {
            assert(s@.skip(i as int)[0] == s@[i as int]);
            assert(s@.skip(i as int)[1] == s@[i as int + 1]);
            assert(s@.skip(i as int)[2] == s@[i as int + 2]);
        }
        if s.get_char(i) == '=' && s.get_char(i + 1) == '=' && s.get_char(i + 2) == '=' {
            return Some(i);
        }
        proof {
            assert(s@.skip(i as int).drop_first() =~= s@.skip(i as int + 1));
        }
        i += 1;
    }
}

/// Interprets a raw model response as this cycle's decision.
///
/// Text before the first `===` marker is discarded as thinking. The rest,
/// with all markers removed and whitespace trimmed, must decode as a JSON
/// action array; then those actions are returned with no error. A missing
/// marker, or a remainder that does not decode, yields an empty action
/// list and a non-empty error message.
pub fn parse_decision(output: &str) -> (r: ParsedDecision)
    ensures
        match first_marker(output@) {
            None => r.actions@.len() == 0 && (r.error matches Some(e) && e@
                == missing_marker_error()),
            Some(i) => match decode_spec(decision_payload(output@, i)) {
                Some(ms) => r.actions.deep_view() == ms && r.error is None,
                None => r.actions@.len() == 0 && (r.error matches Some(e) && e@
                    == bad_actions_error()),
            },
        },
{
    match find_marker(output) {
        None => ParsedDecision {
            actions: Vec::new(),
            error: Some(String::from_str("No actions found in your output. Did you use equal signs: === ?")),
        },
        Some(i) => {
            let n = output.unicode_len();
            let tail = output.substring_char(i, n);
            proof {
                assert(tail@ =~= output@.skip(i as int));
            }
            proof {
                reveal_strlit("===");
            }
            let stripped = remove_pat_exec(tail, "===");
            let payload = trim_exec(stripped.as_str());
            match decode_actions(payload.as_str()) {
                Some(actions) => ParsedDecision { actions, error: None },
                None => ParsedDecision {
                    actions: Vec::new(),
                    error: Some(String::from_str("Failed to parse actions from the model output.")),
                },
            }
        },
    }
}

// ===================== response sanitising =====================

/// The sanitised form of a raw model response: trimmed, with fenced
/// code-block markers removed.
pub open spec fn sanitize_spec(s: Seq<char>) -> Seq<char> {
    remove_pat(remove_pat(trim_spec(s), "```json"@), "```"@)
}

/// Cleans a raw model response: trims whitespace, then removes ```` ```json ````
/// and ```` ``` ```` fence markers.
pub fn sanitize_response(s: &str) -> (r: String)
    ensures
        r@ == sanitize_spec(s@),
{
    proof {
        reveal_strlit("```json");
        reveal_strlit("```");
    }
    let trimmed = trim_exec(s);
    let no_json = remove_pat_exec(trimmed.as_str(), "```json");
    remove_pat_exec(no_json.as_str(), "```")
}

// ===================== model-call retry policy =====================

/// What to do after a failed model call.
#[derive(Debug, Clone, PartialEq, Eq)]
pub enum RetryStep {
    /// Try again after waiting this many seconds.
    Retry { delay_secs: u64 },
    /// Give up and return the last error.
    GiveUp,
}

/// Delay in seconds before retry number `attempt + 1`: 4 seconds after the
/// first failure, doubling with each further failure.
pub open spec fn retry_delay(attempt: nat) -> nat
    decreases attempt,
{
    if attempt <= 1 {
        4
    } else {
        2 * retry_delay((attempt - 1) as nat)
    }
}

/// Decides what a model-call driver does after `attempt` calls have all
/// failed: up to five attempts in total, with delays of 4, 8, 16 and 32
/// seconds between them; after the fifth failure the last error stands.
pub fn llm_retry_step(attempt: u64) -> (r: RetryStep)
    requires
        attempt >= 1,
    ensures
        attempt < 5 ==> r == (RetryStep::Retry { delay_secs: retry_delay(attempt as nat) as u64 }),
        attempt >= 5 ==> r == RetryStep::GiveUp,
        attempt < 5 ==> retry_delay(attempt as nat) <= 32,
{
    if attempt >= 5 {
        RetryStep::GiveUp
    } else {
        let delay: u64 = if attempt == 1 { 4 } else if attempt == 2 { 8 } else if attempt == 3 {
            16
        } else {
            32
        };
        proof {
            reveal_with_fuel(retry_delay, 5);
            assert(retry_delay(1) == 4);
            assert(retry_delay(2) == 8);
            assert(retry_delay(3) == 16);
            assert(retry_delay(4) == 32);
        }
        RetryStep::Retry { delay_secs: delay }
    }
}

/// Law of the retry policy: a driver that follows [`llm_retry_step`] makes
/// at most five attempts, with delays of exactly 4, 8, 16 and 32 seconds
/// between consecutive attempts.
pub proof fn lemma_retry_policy()
    ensures
        retry_delay(1) == 4,
        retry_delay(2) == 8,
        retry_delay(3) == 16,
        retry_delay(4) == 32,
        forall|a: nat| 1 <= a < 5 ==> retry_delay(a) == 4 * vstd::arithmetic::power2::pow2(
            (a - 1) as nat,
        ),
{
    reveal_with_fuel(retry_delay, 5);
    vstd::arithmetic::power2::lemma2_to64();
    assert forall|a: nat| 1 <= a < 5 implies retry_delay(a) == 4
        * vstd::arithmetic::power2::pow2((a - 1) as nat) by {
        if a == 1 {
        } else if a == 2 {
        } else if a == 3 {
        } else {
            assert(a == 4);
        }
    }
}

// ===================== the cycle's phases =====================

/// The phases of one agent cycle. There is no terminal phase: the loop
/// runs until the process ends.
#[derive(Debug, Clone, Copy, PartialEq, Eq)]
pub enum CyclePhase {
    BuildingContext,
    AwaitingModelOutput,
    ParsingActions,
    Executing,
    Sleeping,
}

/// The phase that follows: context is built, the model is awaited, its
/// output is parsed, the actions run, the loop rests, and the next cycle
/// builds context again.
pub fn next_phase(p: CyclePhase) -> (r: CyclePhase)
    ensures
        p == CyclePhase::BuildingContext ==> r == CyclePhase::AwaitingModelOutput,
        p == CyclePhase::AwaitingModelOutput ==> r == CyclePhase::ParsingActions,
        p == CyclePhase::ParsingActions ==> r == CyclePhase::Executing,
        p == CyclePhase::Executing ==> r == CyclePhase::Sleeping,
        p == CyclePhase::Sleeping ==> r == CyclePhase::BuildingContext,
{
    match p {
        CyclePhase::BuildingContext => CyclePhase::AwaitingModelOutput,
        CyclePhase::AwaitingModelOutput => CyclePhase::ParsingActions,
        CyclePhase::ParsingActions => CyclePhase::Executing,
        CyclePhase::Executing => CyclePhase::Sleeping,
        CyclePhase::Sleeping => CyclePhase::BuildingContext,
    }
}

} // verus!
