//! The agent's bounded memory between cycles: a key-value memory map, the
//! last-known issue snapshot, a bounded FIFO of past events, the current
//! cycle's events, and the last output, thought and error. The store also
//! renders the contextual prompt for the model, in a fixed section order.

use vstd::prelude::*;
use crate::tracker::Issue;
use crate::textutil::{dec_nat, dec_int, push_dec_u64, u64_to_string, i64_to_string};
use crate::codec::enc_str;
use vstd::string::StrSliceExecFns;
use vstd::string::StringExecFns;

verus! {

/// Capacity of the past-events FIFO.
pub const MAX_PAST_EVENTS: usize = 5;

/// An observed external change, before it is rendered into the textual
/// record the context retains.
#[derive(Debug, Clone, PartialEq, Eq)]
pub enum Event {
    NewCommit { commit_hash: String, message: String },
    NewIssue { issue_number: u64, title: String, body: String },
    NewComment { issue_number: u64, body: String },
    NewPullRequest { pull_request_number: u64, title: String, body: String },
}

impl Event {
    /// The textual record of this event.
    pub fn text(&self) -> (r: String)
        ensures
            *self matches Event::NewCommit { commit_hash, message } ==> r@
                == "New commit detected: "@ + commit_hash@ + " - "@ + message@,
            *self matches Event::NewIssue { issue_number, title, .. } ==> r@ == "New issue: #"@
                + dec_nat(issue_number as nat) + " - "@ + title@,
            *self matches Event::NewComment { issue_number, body } ==> r@
                == "New comment on issue #"@ + dec_nat(issue_number as nat) + ": "@ + body@,
            *self matches Event::NewPullRequest { pull_request_number, title, .. } ==> r@
                == "New pull request: #"@ + dec_nat(pull_request_number as nat) + " - "@ + title@,
    {
        match self {
            Event::NewCommit { commit_hash, message } => {
                let mut out = String::from_str("New commit detected: ");
                out.append(commit_hash.as_str());
                out.append(" - ");
                out.append(message.as_str());
                assert(out@ =~= "New commit detected: "@ + commit_hash@ + " - "@ + message@);
                out
            },
            Event::NewIssue { issue_number, title, .. } => {
                let mut out = String::from_str("New issue: #");
                push_dec_u64(&mut out, *issue_number);
                out.append(" - ");
                out.append(title.as_str());
                assert(out@ =~= "New issue: #"@ + dec_nat(*issue_number as nat) + " - "@
                    + title@);
                out
            },
            Event::NewComment { issue_number, body } => {
                let mut out = String::from_str("New comment on issue #");
                push_dec_u64(&mut out, *issue_number);
                out.append(": ");
                out.append(body.as_str());
                assert(out@ =~= "New comment on issue #"@ + dec_nat(*issue_number as nat) + ": "@
                    + body@);
                out
            },
            Event::NewPullRequest { pull_request_number, title, .. } => {
                let mut out = String::from_str("New pull request: #");
                push_dec_u64(&mut out, *pull_request_number);
                out.append(" - ");
                out.append(title.as_str());
                assert(out@ =~= "New pull request: #"@ + dec_nat(*pull_request_number as nat)
                    + " - "@ + title@);
                out
            },
        }
    }
}

/// Index of the first memory entry with the given key.
pub open spec fn mem_idx(ms: Seq<(String, String)>, key: Seq<char>) -> Option<int>
    decreases ms.len(),
{
    if ms.len() == 0 {
        None
    } else if ms[0].0@ == key {
        Some(0)
    } else {
        match mem_idx(ms.drop_first(), key) {
            Some(i) => Some(i + 1),
            None => None,
        }
    }
}

/// The agent's working memory for one process lifetime.
pub struct AgentContext {
    /// Agent-owned key-value memories; keys are unique.
    pub memories: Vec<(String, String)>,
    /// Output accumulated by the last action batch.
    pub last_action_output: Option<String>,
    /// The model's last thought.
    pub last_thought: Option<String>,
    /// Open issues from the last listing.
    pub known_open_issues: Vec<Issue>,
    /// Titles of closed issues from the last listing.
    pub known_closed_issues_titles: Vec<String>,
    /// Bounded FIFO of past events, oldest first.
    pub past_events: Vec<String>,
    /// Events observed in the current cycle.
    pub new_event: Vec<String>,
    /// An error to surface to the model exactly once.
    pub error: Option<String>,
}

impl AgentContext {
    /// Well-formedness: memory keys are unique and the past-events FIFO is
    /// within capacity.
    pub open spec fn wf(&self) -> bool {
        &&& forall|i: int, j: int|
            0 <= i < j < self.memories@.len() ==> (#[trigger] self.memories@[i]).0@ != (
            #[trigger] self.memories@[j]).0@
        &&& self.past_events@.len() <= MAX_PAST_EVENTS as int
    }

    /// An empty context.
    pub fn new() -> (r: AgentContext)
        ensures
            r.wf(),
            r.memories@.len() == 0,
            r.last_action_output is None,
            r.last_thought is None,
            r.known_open_issues@.len() == 0,
            r.known_closed_issues_titles@.len() == 0,
            r.past_events@.len() == 0,
            r.new_event@.len() == 0,
            r.error is None,
    {
        AgentContext {
            memories: Vec::new(),
            last_action_output: None,
            last_thought: None,
            known_open_issues: Vec::new(),
            known_closed_issues_titles: Vec::new(),
            past_events: Vec::new(),
            new_event: Vec::new(),
            error: None,
        }
    }

    /// Looks a memory up by key.
    pub fn get_memory(&self, key: &str) -> (r: Option<&String>)
        ensures
            match mem_idx(self.memories@, key@) {
                Some(i) => r matches Some(v) && *v == self.memories@[i].1,
                None => r is None,
            },
    {
        let mut i: usize = 0;
        proof {
            assert(self.memories@.skip(0) =~= self.memories@);
        }
        loop
            invariant
                i <= self.memories@.len(),
                match mem_idx(self.memories@.skip(i as int), key@) {
                    Some(j) => mem_idx(self.memories@, key@) == Some(i + j),
                    None => mem_idx(self.memories@, key@) is None,
                },
            decreases self.memories@.len() - i,
        {
            if i >= self.memories.len() {
                proof {
                    assert(self.memories@.skip(i as int) =~= Seq::<(String, String)>::empty());
                }
                return None;
            }
            proof {
                assert(self.memories@.skip(i as int)[0] == self.memories@[i as int]);
            }
            if string_eq_text(&self.memories[i].0, key) {
                return Some(&self.memories[i].1);
            }
            proof {
                assert(self.memories@.skip(i as int).drop_first() =~= self.memories@.skip(
                    i as int + 1,
                ));
            }
            i += 1;
        }
    }

    /// Stores or updates a memory: the entry with this key now holds this
    /// value, everything else is unchanged; a new key is appended.
    pub fn set_memory(&mut self, key: String, value: String)
        requires
            old(self).wf(),
        ensures
            final(self).wf(),
            match mem_idx(old(self).memories@, key@) {
                Some(i) => final(self).memories@ == old(self).memories@.update(
                    i,
                    (key, value),
                ),
                None => final(self).memories@ == old(self).memories@.push((key, value)),
            },
            final(self).last_action_output == old(self).last_action_output,
            final(self).last_thought == old(self).last_thought,
            final(self).known_open_issues == old(self).known_open_issues,
            final(self).known_closed_issues_titles == old(self).known_closed_issues_titles,
            final(self).past_events == old(self).past_events,
            final(self).new_event == old(self).new_event,
            final(self).error == old(self).error,
    {
        let idx = find_mem(&self.memories, key.as_str());
        match idx {
            Some(i) => {
                self.memories.set(i, (key, value));
                proof {
                    lemma_mem_idx_key(old(self).memories@, key@);
                    assert(final(self).wf()) by {
                        assert(forall|a: int, b: int|
                            0 <= a < b < self.memories@.len() ==> (
                            #[trigger] self.memories@[a]).0@ != (
                            #[trigger] self.memories@[b]).0@) by {
                            assert(forall|a: int|
                                0 <= a < self.memories@.len() && a != i ==> self.memories@[a]
                                    == old(self).memories@[a]);
                        }
                    }
                }
            },
            None => {
                self.memories.push((key, value));
                proof {
                    lemma_mem_idx_none(old(self).memories@, key@);
                    assert(final(self).wf()) by {
                        assert(forall|a: int|
                            0 <= a < old(self).memories@.len() ==> self.memories@[a] == old(
                                self,
                            ).memories@[a]);
                    }
                }
            },
        }
    }

    /// Removes the memory with this key, if present.
    pub fn remove_memory(&mut self, key: &str)
        requires
            old(self).wf(),
        ensures
            final(self).wf(),
            match mem_idx(old(self).memories@, key@) {
                Some(i) => final(self).memories@ == old(self).memories@.remove(i),
                None => final(self).memories@ == old(self).memories@,
            },
            final(self).last_action_output == old(self).last_action_output,
            final(self).last_thought == old(self).last_thought,
            final(self).known_open_issues == old(self).known_open_issues,
            final(self).known_closed_issues_titles == old(self).known_closed_issues_titles,
            final(self).past_events == old(self).past_events,
            final(self).new_event == old(self).new_event,
            final(self).error == old(self).error,
    {
        let idx = find_mem(&self.memories, key);
        match idx {
            Some(i) => {
                self.memories.remove(i);
                proof {
                    assert(final(self).wf()) by {
                        assert(forall|a: int, b: int|
                            0 <= a < b < self.memories@.len() ==> (
                            #[trigger] self.memories@[a]).0@ != (
                            #[trigger] self.memories@[b]).0@) by {
                            assert(forall|a: int|
                                0 <= a < self.memories@.len() ==> self.memories@[a] == if a < i {
                                    old(self).memories@[a]
                                } else {
                                    old(self).memories@[a + 1]
                                });
                        }
                    }
                }
            },
            None => {},
        }
    }

    /// Appends one event to the past-events FIFO: within capacity the event
    /// is appended; at capacity the oldest event is evicted first. The FIFO
    /// never exceeds its capacity.
    pub fn push_past_event(&mut self, e: String)
        requires
            old(self).wf(),
        ensures
            final(self).wf(),
            final(self).past_events@.len() <= MAX_PAST_EVENTS as int,
            old(self).past_events@.len() < MAX_PAST_EVENTS as int ==> final(self).past_events@
                == old(self).past_events@.push(e),
            old(self).past_events@.len() == MAX_PAST_EVENTS as int ==> final(self).past_events@
                == old(self).past_events@.drop_first().push(e),
            final(self).memories == old(self).memories,
            final(self).last_action_output == old(self).last_action_output,
            final(self).last_thought == old(self).last_thought,
            final(self).known_open_issues == old(self).known_open_issues,
            final(self).known_closed_issues_titles == old(self).known_closed_issues_titles,
            final(self).new_event == old(self).new_event,
            final(self).error == old(self).error,
    {
        if self.past_events.len() == MAX_PAST_EVENTS {
            self.past_events.remove(0);
            proof {
                assert(self.past_events@ =~= old(self).past_events@.drop_first());
            }
        }
        self.past_events.push(e);
    }

    /// Starts a cycle: the previous cycle's events roll into the bounded
    /// past-events FIFO (evicting oldest first beyond capacity) and the
    /// fresh events become the current cycle's events.
    pub fn begin_cycle(&mut self, fresh: Vec<String>)
        requires
            old(self).wf(),
        ensures
            final(self).wf(),
            final(self).past_events@.len() <= MAX_PAST_EVENTS as int,
            ({
                let all = old(self).past_events@ + old(self).new_event@;
                final(self).past_events@ == if all.len() <= MAX_PAST_EVENTS as int {
                    all
                } else {
                    all.skip(all.len() - MAX_PAST_EVENTS as int)
                }
            }),
            final(self).new_event == fresh,
            final(self).memories == old(self).memories,
            final(self).last_action_output == old(self).last_action_output,
            final(self).last_thought == old(self).last_thought,
            final(self).known_open_issues == old(self).known_open_issues,
            final(self).known_closed_issues_titles == old(self).known_closed_issues_titles,
            final(self).error == old(self).error,
    {
        let ghost all = old(self).past_events@ + old(self).new_event@;
        let incoming = &mut self.new_event;
        self.past_events.append(incoming);
        self.new_event = fresh;
        proof {
            assert(self.past_events@ == all);
        }
        while self.past_events.len() > MAX_PAST_EVENTS
            invariant
                self.past_events@ == all.skip(all.len() - self.past_events@.len()),
                self.past_events@.len() <= all.len(),
                all.len() > MAX_PAST_EVENTS as int ==> self.past_events@.len()
                    >= MAX_PAST_EVENTS as int,
                all.len() <= MAX_PAST_EVENTS as int ==> self.past_events@.len() == all.len(),
                self.new_event == fresh,
                self.memories == old(self).memories,
                self.last_action_output == old(self).last_action_output,
                self.last_thought == old(self).last_thought,
                self.known_open_issues == old(self).known_open_issues,
                self.known_closed_issues_titles == old(self).known_closed_issues_titles,
                self.error == old(self).error,
            decreases self.past_events@.len(),
        {
            self.past_events.remove(0);
            proof {
                let k = all.len() - self.past_events@.len();
                assert(self.past_events@ =~= all.skip(k));
            }
        }
        proof {
            if all.len() <= MAX_PAST_EVENTS as int {
                assert(all.skip(0) =~= all);
            }
        }
    }
}

/// Compares a stored string with a key.
fn string_eq_text(a: &String, b: &str) -> (r: bool)
    ensures
        r == (a@ == b@),
{
    let bs = String::from_str(b);
    a.eq(&bs)
}

/// Finds the first memory entry with the given key.
fn find_mem(ms: &Vec<(String, String)>, key: &str) -> (r: Option<usize>)
    ensures
        match mem_idx(ms@, key@) {
            Some(i) => r matches Some(j) && j == i && 0 <= i < ms@.len() && ms@[i].0@ == key@,
            None => r is None,
        },
{
    let mut i: usize = 0;
    proof {
        assert(ms@.skip(0) =~= ms@);
    }
    loop
        invariant
            i <= ms@.len(),
            match mem_idx(ms@.skip(i as int), key@) {
                Some(j) => mem_idx(ms@, key@) == Some(i + j),
                None => mem_idx(ms@, key@) is None,
            },
        decreases ms@.len() - i,
    {
        if i >= ms.len() {
            proof {
                assert(ms@.skip(i as int) =~= Seq::<(String, String)>::empty());
            }
            return None;
        }
        proof {
            assert(ms@.skip(i as int)[0] == ms@[i as int]);
        }
        if string_eq_text(&ms[i].0, key) {
            return Some(i);
        }
        proof {
            assert(ms@.skip(i as int).drop_first() =~= ms@.skip(i as int + 1));
        }
        i += 1;
    }
}

/// With unique keys, the entry `mem_idx` finds carries the key it was
/// asked for.
proof fn lemma_mem_idx_key(ms: Seq<(String, String)>, key: Seq<char>)
    ensures
        mem_idx(ms, key) matches Some(i) ==> 0 <= i < ms.len() && ms[i].0@ == key,
    decreases ms.len(),
{
    if ms.len() > 0 && ms[0].0@ != key {
        lemma_mem_idx_key(ms.drop_first(), key);
    }
}

/// When `mem_idx` finds nothing, no entry carries the key.
proof fn lemma_mem_idx_none(ms: Seq<(String, String)>, key: Seq<char>)
    ensures
        mem_idx(ms, key) is None ==> forall|i: int|
            0 <= i < ms.len() ==> (#[trigger] ms[i]).0@ != key,
    decreases ms.len(),
{
    if ms.len() > 0 {
        lemma_mem_idx_none(ms.drop_first(), key);
        assert forall|i: int|
            mem_idx(ms, key) is None && 0 <= i < ms.len() implies (#[trigger] ms[i]).0@
            != key by {
            if i > 0 {
                assert(ms.drop_first()[i - 1] == ms[i]);
            }
        }
    }
}

// ===================== prompt rendering =====================

/// Clamps an unbounded time difference into the 64-bit signed range.
pub open spec fn clamp_i64(x: int) -> int {
    if x > i64::MAX {
        i64::MAX as int
    } else if x < i64::MIN {
        i64::MIN as int
    } else {
        x
    }
}

/// A duration in a human unit: whole days if at least a day, else whole
/// hours, else whole minutes, else seconds.
pub open spec fn format_duration_spec(secs: int) -> Seq<char> {
    if secs >= 86400 {
        dec_nat((secs / 86400) as nat) + " days"@
    } else if secs >= 3600 {
        dec_nat((secs / 3600) as nat) + " hours"@
    } else if secs >= 60 {
        dec_nat((secs / 60) as nat) + " minutes"@
    } else {
        dec_int(secs) + " seconds"@
    }
}

/// Renders a duration given in seconds in a human unit.
pub fn format_duration(secs: i64) -> (r: String)
    ensures
        r@ == format_duration_spec(secs as int),
{
    if secs >= 86400 {
        let mut out = u64_to_string((secs as u64) / 86400);
        out.append(" days");
        proof {
            assert(out@ =~= format_duration_spec(secs as int));
        }
        out
    } else if secs >= 3600 {
        let mut out = u64_to_string((secs as u64) / 3600);
        out.append(" hours");
        proof {
            assert(out@ =~= format_duration_spec(secs as int));
        }
        out
    } else if secs >= 60 {
        let mut out = u64_to_string((secs as u64) / 60);
        out.append(" minutes");
        proof {
            assert(out@ =~= format_duration_spec(secs as int));
        }
        out
    } else {
        let mut out = i64_to_string(secs);
        out.append(" seconds");
        proof {
            assert(out@ =~= format_duration_spec(secs as int));
        }
        out
    }
}

/// `key: value` lines of the memory section.
pub open spec fn mem_lines(ms: Seq<(String, String)>) -> Seq<char>
    decreases ms.len(),
{
    if ms.len() == 0 {
        Seq::empty()
    } else {
        ms[0].0@ + ": "@ + ms[0].1@ + "\n"@ + mem_lines(ms.drop_first())
    }
}

/// Items of the label list after the first, each with a separator.
pub open spec fn label_tail(ls: Seq<String>) -> Seq<char>
    decreases ls.len(),
{
    if ls.len() == 0 {
        Seq::empty()
    } else {
        ", "@ + enc_str(ls[0]@) + label_tail(ls.drop_first())
    }
}

/// A label list as shown in the prompt: quoted labels in brackets.
pub open spec fn labels_render(ls: Seq<String>) -> Seq<char> {
    if ls.len() == 0 {
        "[]"@
    } else {
        "["@ + enc_str(ls[0]@) + label_tail(ls.drop_first()) + "]"@
    }
}

/// One open issue as shown in the prompt.
pub open spec fn issue_line(i: Issue, now: int) -> Seq<char> {
    "Issue #"@ + dec_nat(i.number as nat) + ": "@ + i.title@ + " (Updated "@
        + format_duration_spec(clamp_i64(now - i.updated_at)) + " ago)\nState: "@ + i.state@
        + "\nLabels: "@ + labels_render(i.labels@) + "\n"@
}

/// The open-issue lines of the prompt.
pub open spec fn issue_lines(s: Seq<Issue>, now: int) -> Seq<char>
    decreases s.len(),
{
    if s.len() == 0 {
        Seq::empty()
    } else {
        issue_line(s[0], now) + issue_lines(s.drop_first(), now)
    }
}

/// A list of strings, one per line.
pub open spec fn line_list(s: Seq<String>) -> Seq<char>
    decreases s.len(),
{
    if s.len() == 0 {
        Seq::empty()
    } else {
        s[0]@ + "\n"@ + line_list(s.drop_first())
    }
}

/// The first sections of the prompt: current time, memories, open issues,
/// closed titles.
pub open spec fn prompt_head_spec(ctx: AgentContext, now: int, now_str: Seq<char>) -> Seq<char> {
    "Current time: "@ + now_str + "\n"@ + (if ctx.memories@.len() == 0 {
        Seq::<char>::empty()
    } else {
        "\nMemories:\n"@ + mem_lines(ctx.memories@)
    }) + (if ctx.known_open_issues@.len() == 0 {
        Seq::<char>::empty()
    } else {
        "\nKnown Open Issues:\n"@ + issue_lines(ctx.known_open_issues@, now)
    }) + (if ctx.known_closed_issues_titles@.len() == 0 {
        Seq::<char>::empty()
    } else {
        "\nKnown Closed Issues:\n"@ + line_list(ctx.known_closed_issues_titles@)
    })
}

/// The event sections of the prompt: past events and this cycle's events.
pub open spec fn prompt_events_spec(ctx: AgentContext) -> Seq<char> {
    (if ctx.past_events@.len() == 0 {
        Seq::<char>::empty()
    } else {
        "\nPast Events (most recent first):\n"@ + line_list(ctx.past_events@)
    }) + (if ctx.new_event@.len() == 0 {
        Seq::<char>::empty()
    } else {
        "\nNew Events:\n"@ + line_list(ctx.new_event@)
    })
}

/// The trailing sections of the prompt: the last output, the last thought,
/// and a pending error.
pub open spec fn prompt_trailer_spec(ctx: AgentContext) -> Seq<char> {
    (match ctx.last_action_output {
        Some(o) => "Last Action Output: "@ + o@ + "\n"@,
        None => Seq::<char>::empty(),
    }) + (match ctx.last_thought {
        Some(t) => "Last Thought: "@ + t@ + "\n"@,
        None => Seq::<char>::empty(),
    }) + (match ctx.error {
        Some(e) => "\nError: "@ + e@ + "\n"@,
        None => Seq::<char>::empty(),
    }) + "\n"@
}

/// The later sections of the prompt: past events, this cycle's events, the
/// last output, the last thought, and a pending error.
pub open spec fn prompt_tail_spec(ctx: AgentContext) -> Seq<char> {
    prompt_events_spec(ctx) + prompt_trailer_spec(ctx)
}

/// The contextual prompt rendered from a context, before the trailing size
/// line: current time, memories, open issues, closed titles, the past
/// events (oldest first), this cycle's events, the last output, the last
/// thought, and a pending error.
pub open spec fn prompt_base_spec(ctx: AgentContext, now: int, now_str: Seq<char>) -> Seq<char> {
    prompt_head_spec(ctx, now, now_str) + prompt_tail_spec(ctx)
}

/// The full contextual prompt: the base followed by its own size in
/// characters.
pub open spec fn prompt_spec(ctx: AgentContext, now: int, now_str: Seq<char>) -> Seq<char> {
    prompt_base_spec(ctx, now, now_str) + "Current size of the context: "@ + dec_nat(
        prompt_base_spec(ctx, now, now_str).len() as nat,
    ) + " characters\n"@
}

pub(crate) fn push_labels(out: &mut String, ls: &Vec<String>)
    ensures
        final(out)@ == old(out)@ + labels_render(ls@),
{
    out.append("[");
    if ls.len() > 0 {
        crate::codec::push_json_string(out, ls[0].as_str());
        let mut i: usize = 1;
        proof {
            assert(ls@.skip(1) =~= ls@.drop_first());
        }
        while i < ls.len()
            invariant
                1 <= i <= ls@.len(),
                out@ + label_tail(ls@.skip(i as int)) == old(out)@ + "["@ + enc_str(ls@[0]@)
                    + label_tail(ls@.drop_first()),
            decreases ls@.len() - i,
        {
            proof {
                assert(ls@.skip(i as int)[0] == ls@[i as int]);
                assert(ls@.skip(i as int).drop_first() =~= ls@.skip(i as int + 1));
            }
            out.append(", ");
            crate::codec::push_json_string(out, ls[i].as_str());
            proof {
                assert(out@ + label_tail(ls@.skip(i as int + 1)) =~= old(out)@ + "["@ + enc_str(
                    ls@[0]@,
                ) + label_tail(ls@.drop_first()));
            }
            i += 1;
        }
        proof {
            assert(ls@.skip(ls@.len() as int) =~= Seq::<String>::empty());
        }
    }
    out.append("]");
    proof {
        if ls@.len() == 0 {
            reveal_strlit("[]");
            reveal_strlit("[");
            reveal_strlit("]");
            assert("[]"@ =~= "["@ + "]"@);
            assert(out@ =~= old(out)@ + labels_render(ls@));
        } else {
            assert(out@ =~= old(out)@ + labels_render(ls@));
        }
    }
}

fn push_lines(out: &mut String, v: &Vec<String>)
    ensures
        final(out)@ == old(out)@ + line_list(v@),
{
    let mut i: usize = 0;
    proof {
        assert(v@.skip(0) =~= v@);
    }
    while i < v.len()
        invariant
            i <= v@.len(),
            out@ + line_list(v@.skip(i as int)) == old(out)@ + line_list(v@),
        decreases v@.len() - i,
    {
        proof {
            assert(v@.skip(i as int)[0] == v@[i as int]);
            assert(v@.skip(i as int).drop_first() =~= v@.skip(i as int + 1));
        }
        out.append(v[i].as_str());
        out.append("\n");
        proof {
            assert(out@ + line_list(v@.skip(i as int + 1)) =~= old(out)@ + line_list(v@));
        }
        i += 1;
    }
    proof {
        assert(v@.skip(v@.len() as int) =~= Seq::<String>::empty());
        assert(out@ =~= old(out)@ + line_list(v@));
    }
}

fn push_mem_lines(out: &mut String, ms: &Vec<(String, String)>)
    ensures
        final(out)@ == old(out)@ + mem_lines(ms@),
{
    let mut i: usize = 0;
    proof {
        assert(ms@.skip(0) =~= ms@);
    }
    while i < ms.len()
        invariant
            i <= ms@.len(),
            out@ + mem_lines(ms@.skip(i as int)) == old(out)@ + mem_lines(ms@),
        decreases ms@.len() - i,
    {
        proof {
            assert(ms@.skip(i as int)[0] == ms@[i as int]);
            assert(ms@.skip(i as int).drop_first() =~= ms@.skip(i as int + 1));
        }
        out.append(ms[i].0.as_str());
        out.append(": ");
        out.append(ms[i].1.as_str());
        out.append("\n");
        proof {
            assert(out@ + mem_lines(ms@.skip(i as int + 1)) =~= old(out)@ + mem_lines(ms@));
        }
        i += 1;
    }
    proof {
        assert(ms@.skip(ms@.len() as int) =~= Seq::<(String, String)>::empty());
        assert(out@ =~= old(out)@ + mem_lines(ms@));
    }
}

fn push_issue_lines(out: &mut String, v: &Vec<Issue>, now: i64)
    ensures
        final(out)@ == old(out)@ + issue_lines(v@, now as int),
{
    let mut i: usize = 0;
    proof {
        assert(v@.skip(0) =~= v@);
    }
    while i < v.len()
        invariant
            i <= v@.len(),
            out@ + issue_lines(v@.skip(i as int), now as int) == old(out)@ + issue_lines(
                v@,
                now as int,
            ),
        decreases v@.len() - i,
    {
        proof {
            assert(v@.skip(i as int)[0] == v@[i as int]);
            assert(v@.skip(i as int).drop_first() =~= v@.skip(i as int + 1));
        }
        let issue = &v[i];
        let diff_wide: i128 = now as i128 - issue.updated_at as i128;
        let diff: i64 = if diff_wide > i64::MAX as i128 {
            i64::MAX
        } else if diff_wide < i64::MIN as i128 {
            i64::MIN
        } else {
            diff_wide as i64
        };
        assert(diff as int == clamp_i64(now as int - issue.updated_at as int));
        out.append("Issue #");
        push_dec_u64(out, issue.number);
        out.append(": ");
        out.append(issue.title.as_str());
        out.append(" (Updated ");
        let dur = format_duration(diff);
        out.append(dur.as_str());
        out.append(" ago)\nState: ");
        out.append(issue.state.as_str());
        out.append("\nLabels: ");
        push_labels(out, &issue.labels);
        out.append("\n");
        proof {
            assert(out@ + issue_lines(v@.skip(i as int + 1), now as int) =~= old(out)@
                + issue_lines(v@, now as int));
        }
        i += 1;
    }
    proof {
        assert(v@.skip(v@.len() as int) =~= Seq::<Issue>::empty());
        assert(out@ =~= old(out)@ + issue_lines(v@, now as int));
    }
}

impl AgentContext {
    fn render_head(&self, now: i64, now_str: &str) -> (r: String)
        ensures
            r@ == prompt_head_spec(*self, now as int, now_str@),
    {
        let ghost ctx = *self;
        let ghost sec_time = "Current time: "@ + now_str@ + "\n"@;
        let ghost sec_mem = if ctx.memories@.len() == 0 {
            Seq::<char>::empty()
        } else {
            "\nMemories:\n"@ + mem_lines(ctx.memories@)
        };
        let ghost sec_open = if ctx.known_open_issues@.len() == 0 {
            Seq::<char>::empty()
        } else {
            "\nKnown Open Issues:\n"@ + issue_lines(ctx.known_open_issues@, now as int)
        };
        let mut out = String::from_str("Current time: ");
        out.append(now_str);
        out.append("\n");
        assert(out@ =~= sec_time);
        if self.memories.len() > 0 {
            out.append("\nMemories:\n");
            push_mem_lines(&mut out, &self.memories);
        }
        assert(out@ =~= sec_time + sec_mem);
        if self.known_open_issues.len() > 0 {
            out.append("\nKnown Open Issues:\n");
            push_issue_lines(&mut out, &self.known_open_issues, now);
        }
        assert(out@ =~= sec_time + sec_mem + sec_open);
        if self.known_closed_issues_titles.len() > 0 {
            out.append("\nKnown Closed Issues:\n");
            push_lines(&mut out, &self.known_closed_issues_titles);
        }
        assert(out@ =~= prompt_head_spec(ctx, now as int, now_str@));
        out
    }

    fn render_tail_events(&self, out: &mut String)
        ensures
            final(out)@ == old(out)@ + prompt_events_spec(*self),
    {
        let ghost ctx = *self;
        let ghost base = old(out)@;
        let ghost sec_past = if ctx.past_events@.len() == 0 {
            Seq::<char>::empty()
        } else {
            "\nPast Events (most recent first):\n"@ + line_list(ctx.past_events@)
        };
        if self.past_events.len() > 0 {
            out.append("\nPast Events (most recent first):\n");
            push_lines(out, &self.past_events);
        }
        assert(out@ =~= base + sec_past);
        if self.new_event.len() > 0 {
            out.append("\nNew Events:\n");
            push_lines(out, &self.new_event);
        }
        assert(out@ =~= base + prompt_events_spec(ctx));
    }

    fn render_trailer(&self, out: &mut String)
        ensures
            final(out)@ == old(out)@ + prompt_trailer_spec(*self),
    {
        let ghost ctx = *self;
        let ghost base = old(out)@;
        let ghost sec_out = match ctx.last_action_output {
            Some(o) => "Last Action Output: "@ + o@ + "\n"@,
            None => Seq::<char>::empty(),
        };
        let ghost sec_thought = match ctx.last_thought {
            Some(t) => "Last Thought: "@ + t@ + "\n"@,
            None => Seq::<char>::empty(),
        };
        match &self.last_action_output {
            Some(o) => {
                out.append("Last Action Output: ");
                out.append(o.as_str());
                out.append("\n");
            },
            None => {},
        }
        assert(out@ =~= base + sec_out);
        match &self.last_thought {
            Some(t) => {
                out.append("Last Thought: ");
                out.append(t.as_str());
                out.append("\n");
            },
            None => {},
        }
        assert(out@ =~= base + sec_out + sec_thought);
        match &self.error {
            Some(e) => {
                out.append("\nError: ");
                out.append(e.as_str());
                out.append("\n");
            },
            None => {},
        }
        out.append("\n");
        assert(out@ =~= base + prompt_trailer_spec(ctx));
    }


    /// Renders the contextual prompt in its fixed section order, given the
    /// current time as Unix seconds and as display text. A pending error is
    /// rendered into the prompt and cleared: it is surfaced to the model
    /// exactly once. Nothing else in the context changes.
    pub fn build_contextual_prompt(&mut self, now: i64, now_str: &str) -> (r: String)
        ensures
            r@ == prompt_spec(*old(self), now as int, now_str@),
            final(self).error is None,
            final(self).memories == old(self).memories,
            final(self).last_action_output == old(self).last_action_output,
            final(self).last_thought == old(self).last_thought,
            final(self).known_open_issues == old(self).known_open_issues,
            final(self).known_closed_issues_titles == old(self).known_closed_issues_titles,
            final(self).past_events == old(self).past_events,
            final(self).new_event == old(self).new_event,
    {
        let ghost ctx = *old(self);
        let mut out = self.render_head(now, now_str);
        self.render_tail_events(&mut out);
        self.render_trailer(&mut out);
        self.error = None;
        assert(out@ =~= prompt_base_spec(ctx, now as int, now_str@));
        let base_len = out.unicode_len();
        out.append("Current size of the context: ");
        push_dec_u64(&mut out, base_len as u64);
        out.append(" characters\n");
        proof {
            assert(out@ =~= prompt_spec(ctx, now as int, now_str@));
        }
        out
    }

    /// Records an error for the next prompt.
    pub fn record_error(&mut self, e: String)
        ensures
            final(self).error matches Some(v) && v == e,
            final(self).memories == old(self).memories,
            final(self).last_action_output == old(self).last_action_output,
            final(self).last_thought == old(self).last_thought,
            final(self).known_open_issues == old(self).known_open_issues,
            final(self).known_closed_issues_titles == old(self).known_closed_issues_titles,
            final(self).past_events == old(self).past_events,
            final(self).new_event == old(self).new_event,
    {
        self.error = Some(e);
    }

    /// Records the model's latest thought.
    pub fn set_last_thought(&mut self, t: String)
        ensures
            final(self).last_thought matches Some(v) && v == t,
            final(self).memories == old(self).memories,
            final(self).last_action_output == old(self).last_action_output,
            final(self).error == old(self).error,
            final(self).known_open_issues == old(self).known_open_issues,
            final(self).known_closed_issues_titles == old(self).known_closed_issues_titles,
            final(self).past_events == old(self).past_events,
            final(self).new_event == old(self).new_event,
    {
        self.last_thought = Some(t);
    }

    /// Records the output of the latest action batch.
    pub fn set_last_action_output(&mut self, o: String)
        ensures
            final(self).last_action_output matches Some(v) && v == o,
            final(self).memories == old(self).memories,
            final(self).last_thought == old(self).last_thought,
            final(self).error == old(self).error,
            final(self).known_open_issues == old(self).known_open_issues,
            final(self).known_closed_issues_titles == old(self).known_closed_issues_titles,
            final(self).past_events == old(self).past_events,
            final(self).new_event == old(self).new_event,
    {
        self.last_action_output = Some(o);
    }
}

} // verus!
