//! Execution support for the action dispatcher: the exact result texts of
//! each action kind, the per-batch output entries, clipping of long file
//! contents, and the memory actions, which mutate the context directly.
//! The tracker, repository and model calls an action may need are made by
//! the caller; their outcomes are handed to these builders.

use vstd::prelude::*;
use crate::actions::Actions;
use crate::codec::enc_action;
use crate::context::{AgentContext, mem_idx};
use crate::textutil::push_dec_u64;
use vstd::string::StrSliceExecFns;
use vstd::string::StringExecFns;

verus! {

/// Longest file content shown as an action result; longer content is
/// clipped and marked with an ellipsis.
pub const MAX_FILE_CHARS: usize = 5000;

/// Clips text to at most `max` characters, marking clipped text with an
/// ellipsis.
pub fn clip_text(s: &str, max: usize) -> (r: String)
    ensures
        s@.len() <= max ==> r@ == s@,
        s@.len() > max ==> r@ == s@.take(max as int) + "..."@,
{
    let n = s.unicode_len();
    if n <= max {
        s.to_owned()
    } else {
        let mut out = s.substring_char(0, max).to_owned();
        proof {
            assert(out@ =~= s@.take(max as int));
        }
        out.append("...");
        out
    }
}

/// `Stored memory: key = value`.
pub fn stored_memory_text(key: &str, value: &str) -> (r: String)
    ensures
        r@ == "Stored memory: "@ + key@ + " = "@ + value@,
{
    let mut out = String::from_str("Stored memory: ");
    out.append(key);
    out.append(" = ");
    out.append(value);
    assert(out@ =~= "Stored memory: "@ + key@ + " = "@ + value@);
    out
}

/// `Removed memory: key`.
pub fn removed_memory_text(key: &str) -> (r: String)
    ensures
        r@ == "Removed memory: "@ + key@,
{
    let mut out = String::from_str("Removed memory: ");
    out.append(key);
    out
}

/// `Created issue: number - title`.
pub fn created_issue_text(number: u64, title: &str) -> (r: String)
    ensures
        r@ == "Created issue: "@ + crate::textutil::dec_nat(number as nat) + " - "@ + title@,
{
    let mut out = String::from_str("Created issue: ");
    push_dec_u64(&mut out, number);
    out.append(" - ");
    out.append(title);
    assert(out@ =~= "Created issue: "@ + crate::textutil::dec_nat(number as nat) + " - "@
        + title@);
    out
}

/// `Failed to create issue: error`.
pub fn create_issue_failed_text(err: &str) -> (r: String)
    ensures
        r@ == "Failed to create issue: "@ + err@,
{
    let mut out = String::from_str("Failed to create issue: ");
    out.append(err);
    out
}

/// `Failed to read file path: error`.
pub fn read_file_failed_text(path: &str, err: &str) -> (r: String)
    ensures
        r@ == "Failed to read file "@ + path@ + ": "@ + err@,
{
    let mut out = String::from_str("Failed to read file ");
    out.append(path);
    out.append(": ");
    out.append(err);
    assert(out@ =~= "Failed to read file "@ + path@ + ": "@ + err@);
    out
}

/// `Added label 'label' to issue #number`.
pub fn added_label_text(label: &str, number: u64) -> (r: String)
    ensures
        r@ == "Added label '"@ + label@ + "' to issue #"@ + crate::textutil::dec_nat(
            number as nat,
        ),
{
    let mut out = String::from_str("Added label '");
    out.append(label);
    out.append("' to issue #");
    push_dec_u64(&mut out, number);
    assert(out@ =~= "Added label '"@ + label@ + "' to issue #"@ + crate::textutil::dec_nat(
        number as nat,
    ));
    out
}

/// `Removed label 'label' from issue #number`.
pub fn removed_label_text(label: &str, number: u64) -> (r: String)
    ensures
        r@ == "Removed label '"@ + label@ + "' from issue #"@ + crate::textutil::dec_nat(
            number as nat,
        ),
{
    let mut out = String::from_str("Removed label '");
    out.append(label);
    out.append("' from issue #");
    push_dec_u64(&mut out, number);
    assert(out@ =~= "Removed label '"@ + label@ + "' from issue #"@ + crate::textutil::dec_nat(
        number as nat,
    ));
    out
}

/// `Closed issue #number`.
pub fn closed_issue_text(number: u64) -> (r: String)
    ensures
        r@ == "Closed issue #"@ + crate::textutil::dec_nat(number as nat),
{
    let mut out = String::from_str("Closed issue #");
    push_dec_u64(&mut out, number);
    out
}

/// `Commented on issue #number: body`.
pub fn commented_text(number: u64, body: &str) -> (r: String)
    ensures
        r@ == "Commented on issue #"@ + crate::textutil::dec_nat(number as nat) + ": "@ + body@,
{
    let mut out = String::from_str("Commented on issue #");
    push_dec_u64(&mut out, number);
    out.append(": ");
    out.append(body);
    assert(out@ =~= "Commented on issue #"@ + crate::textutil::dec_nat(number as nat) + ": "@
        + body@);
    out
}

/// `Edited body of issue #number: body`.
pub fn edited_body_text(number: u64, body: &str) -> (r: String)
    ensures
        r@ == "Edited body of issue #"@ + crate::textutil::dec_nat(number as nat) + ": "@ + body@,
{
    let mut out = String::from_str("Edited body of issue #");
    push_dec_u64(&mut out, number);
    out.append(": ");
    out.append(body);
    assert(out@ =~= "Edited body of issue #"@ + crate::textutil::dec_nat(number as nat) + ": "@
        + body@);
    out
}

/// `Edited title of issue #number: title`.
pub fn edited_title_text(number: u64, title: &str) -> (r: String)
    ensures
        r@ == "Edited title of issue #"@ + crate::textutil::dec_nat(number as nat) + ": "@
            + title@,
{
    let mut out = String::from_str("Edited title of issue #");
    push_dec_u64(&mut out, number);
    out.append(": ");
    out.append(title);
    assert(out@ =~= "Edited title of issue #"@ + crate::textutil::dec_nat(number as nat) + ": "@
        + title@);
    out
}

/// `Slept for duration seconds.`
pub fn slept_text(duration: u64) -> (r: String)
    ensures
        r@ == "Slept for "@ + crate::textutil::dec_nat(duration as nat) + " seconds."@,
{
    let mut out = String::from_str("Slept for ");
    push_dec_u64(&mut out, duration);
    out.append(" seconds.");
    assert(out@ =~= "Slept for "@ + crate::textutil::dec_nat(duration as nat) + " seconds."@);
    out
}

/// One entry of the per-cycle output buffer: the action in its wire form
/// and what it returned.
pub fn action_entry_text(action: &Actions, output: &str) -> (r: String)
    ensures
        r@ == "Action: "@ + enc_action(action@) + "\nOutput: "@ + output@ + "\n"@,
{
    let mut out = String::from_str("Action: ");
    let json = crate::codec::encode_action(action);
    out.append(json.as_str());
    out.append("\nOutput: ");
    out.append(output);
    out.append("\n");
    assert(out@ =~= "Action: "@ + enc_action(action@) + "\nOutput: "@ + output@ + "\n"@);
    out
}

/// Executes a memory action against the context, returning its result
/// text; any other action leaves the context untouched and returns
/// nothing, for the caller to execute.
pub fn apply_memory_action(ctx: &mut AgentContext, action: &Actions) -> (r: Option<String>)
    requires
        old(ctx).wf(),
    ensures
        final(ctx).wf(),
        *action matches Actions::StoreOrUpdateMemoryInContext { key, value } ==> {
            &&& r matches Some(t) && t@ == "Stored memory: "@ + key@ + " = "@ + value@
            &&& match mem_idx(old(ctx).memories@, key@) {
                Some(i) => final(ctx).memories@ == old(ctx).memories@.update(i, (key, value)),
                None => final(ctx).memories@ == old(ctx).memories@.push((key, value)),
            }
        },
        *action matches Actions::RemoveMemoryFromContext { key } ==> {
            &&& r matches Some(t) && t@ == "Removed memory: "@ + key@
            &&& match mem_idx(old(ctx).memories@, key@) {
                Some(i) => final(ctx).memories@ == old(ctx).memories@.remove(i),
                None => final(ctx).memories@ == old(ctx).memories@,
            }
        },
        !(*action matches Actions::StoreOrUpdateMemoryInContext { .. }) && !(
        *action matches Actions::RemoveMemoryFromContext { .. }) ==> r is None && *final(ctx)
            == *old(ctx),
        final(ctx).last_action_output == old(ctx).last_action_output,
        final(ctx).last_thought == old(ctx).last_thought,
        final(ctx).known_open_issues == old(ctx).known_open_issues,
        final(ctx).known_closed_issues_titles == old(ctx).known_closed_issues_titles,
        final(ctx).past_events == old(ctx).past_events,
        final(ctx).new_event == old(ctx).new_event,
        final(ctx).error == old(ctx).error,
{
    match action {
        Actions::StoreOrUpdateMemoryInContext { key, value } => {
            let t = stored_memory_text(key.as_str(), value.as_str());
            ctx.set_memory(key.clone(), value.clone());
            Some(t)
        },
        Actions::RemoveMemoryFromContext { key } => {
            ctx.remove_memory(key.as_str());
            Some(removed_memory_text(key.as_str()))
        },
        _ => None,
    }
}

} // verus!
