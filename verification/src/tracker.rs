//! Issue-tracker data model and the incremental synchronisation logic:
//! pagination, pull-request filtering, comment-count based comment reuse,
//! diffing against the last-known snapshot, and the classification of
//! authentication failures for the refresh-and-retry policy.
//!
//! All network work stays with the caller: these functions take fetched
//! values and return decisions and assembled results.

use vstd::prelude::*;
use crate::textutil::{dec_nat, push_dec_u64};
use crate::decision::pat_at_exec;
use vstd::string::StrSliceExecFns;
use vstd::string::StringExecFns;

verus! {

/// Page size of the tracker's listing endpoints.
pub const PAGE_SIZE: u64 = 100;

/// An issue as the agent knows it. Timestamps are Unix seconds.
pub struct Issue {
    pub number: u64,
    pub title: String,
    pub body: String,
    pub state: String,
    pub updated_at: i64,
    pub labels: Vec<String>,
    /// `(author, body)` pairs, oldest first.
    pub comments: Vec<(String, String)>,
    /// Comment count reported by the listing endpoint: a sync marker, not
    /// authoritative content.
    pub comments_count: u64,
}

/// One element of a listing page: an issue header, before any comments are
/// attached. The listing endpoint conflates issues and pull requests; the
/// marker records which one this is.
pub struct IssueHeader {
    pub number: u64,
    pub title: String,
    pub body: String,
    pub state: String,
    pub updated_at: i64,
    pub labels: Vec<String>,
    pub comments_count: u64,
    pub is_pull_request: bool,
}

// ===================== pagination =====================

/// State of one paginated listing: the next page to request and whether
/// the listing is finished.
pub struct Pagination {
    pub next_page: u32,
    pub requests: u32,
    pub done: bool,
}

impl Pagination {
    /// Starts a listing at page one.
    pub fn new() -> (r: Pagination)
        ensures
            r.next_page == 1,
            r.requests == 0,
            !r.done,
    {
        Pagination { next_page: 1, requests: 0, done: false }
    }

    /// Records one fetched page. The listing is finished as soon as a page
    /// is empty or carries no next-page indicator: a driver that requests
    /// only while `!done` never loops on such a page.
    pub fn step(&mut self, page_len: usize, has_next: bool)
        requires
            !old(self).done,
            old(self).next_page < u32::MAX,
            old(self).requests < u32::MAX,
        ensures
            final(self).done == (page_len == 0 || !has_next),
            final(self).next_page == old(self).next_page + 1,
            final(self).requests == old(self).requests + 1,
    {
        self.requests = self.requests + 1;
        self.next_page = self.next_page + 1;
        self.done = page_len == 0 || !has_next;
    }
}

/// Total number of items over a run of pages, each given as
/// `(item count, next-page indicator)`.
pub open spec fn page_total(pages: Seq<(nat, bool)>) -> nat
    decreases pages.len(),
{
    if pages.len() == 0 {
        0
    } else {
        pages[0].0 + page_total(pages.drop_first())
    }
}

/// Law of pagination: a run in which every page before the last is full
/// and carries a next-page indicator — which is how the tracker serves a
/// listing of `total` items — makes at most `total / 100 + 1` requests.
pub proof fn lemma_pagination_bound(pages: Seq<(nat, bool)>)
    requires
        forall|i: int| 0 <= i < pages.len() - 1 ==> (#[trigger] pages[i]).0 == 100
            && pages[i].1,
    ensures
        pages.len() <= page_total(pages) / 100 + 1,
    decreases pages.len(),
{
    if pages.len() <= 1 {
    } else {
        let d = pages.drop_first();
        assert(forall|i: int| 0 <= i < d.len() - 1 ==> (#[trigger] d[i]).0 == 100 && d[i].1)
            by {
            assert(forall|i: int| 0 <= i < d.len() - 1 ==> d[i] == pages[i + 1]);
        }
        lemma_pagination_bound(d);
        assert(pages[0].0 == 100);
        assert(page_total(pages) == 100 + page_total(d));
        vstd::arithmetic::div_mod::lemma_div_plus_one(page_total(d) as int, 100);
    }
}

// ===================== pull-request filtering =====================

/// The headers that are real issues, in order: pull requests are excluded.
pub open spec fn issues_only(s: Seq<IssueHeader>) -> Seq<IssueHeader>
    decreases s.len(),
{
    if s.len() == 0 {
        Seq::empty()
    } else if s[0].is_pull_request {
        issues_only(s.drop_first())
    } else {
        seq![s[0]] + issues_only(s.drop_first())
    }
}

/// Drops every entry that carries the pull-request marker, keeping the
/// order of the rest.
pub fn filter_pull_requests(items: Vec<IssueHeader>) -> (r: Vec<IssueHeader>)
    ensures
        r@ == issues_only(items@),
{
    let ghost orig = items@;
    let mut r: Vec<IssueHeader> = Vec::new();
    let mut rest = items;
    proof {
        assert(orig.skip(0) =~= orig);
    }
    while rest.len() > 0
        invariant
            rest@.len() <= orig.len(),
            rest@ == orig.skip(orig.len() - rest@.len()),
            r@ + issues_only(orig.skip(orig.len() - rest@.len())) == issues_only(orig),
        decreases rest@.len(),
    {
        proof {
            let k = orig.len() - rest@.len();
            assert(rest@[0] == orig[k]);
            assert(rest@.drop_first() =~= orig.skip(k + 1));
            assert(rest@.remove(0) =~= rest@.drop_first());
        }
        let h = rest.remove(0);
        if !h.is_pull_request {
            r.push(h);
        }
        proof {
            let k = orig.len() - rest@.len();
            assert(r@ + issues_only(orig.skip(k)) =~= issues_only(orig));
        }
    }
    proof {
        assert(orig.skip(orig.len() as int) =~= Seq::<IssueHeader>::empty());
        assert(r@ =~= issues_only(orig));
    }
    r
}

// ===================== lookup and comment reuse =====================

/// Index of the first issue with the given number.
pub open spec fn find_idx(s: Seq<Issue>, number: u64) -> Option<int>
    decreases s.len(),
{
    if s.len() == 0 {
        None
    } else if s[0].number == number {
        Some(0)
    } else {
        match find_idx(s.drop_first(), number) {
            Some(i) => Some(i + 1),
            None => None,
        }
    }
}

/// Finds the first issue with the given number.
pub fn find_issue(known: &Vec<Issue>, number: u64) -> (r: Option<usize>)
    ensures
        match find_idx(known@, number) {
            Some(i) => r matches Some(j) && j == i && 0 <= i < known@.len()
                && known@[i].number == number,
            None => r is None,
        },
{
    let mut i: usize = 0;
    proof {
        assert(known@.skip(0) =~= known@);
    }
    loop
        invariant
            i <= known@.len(),
            match find_idx(known@.skip(i as int), number) {
                Some(j) => find_idx(known@, number) == Some(i + j),
                None => find_idx(known@, number) is None,
            },
        decreases known@.len() - i,
    {
        if i >= known.len() {
            proof {
                assert(known@.skip(i as int) =~= Seq::<Issue>::empty());
            }
            return None;
        }
        proof {
            assert(known@.skip(i as int)[0] == known@[i as int]);
        }
        if known[i].number == number {
            return Some(i);
        }
        proof {
            assert(known@.skip(i as int).drop_first() =~= known@.skip(i as int + 1));
        }
        i += 1;
    }
}

/// What to do about an issue's comments after a listing.
#[derive(Debug, Clone, PartialEq, Eq)]
pub enum CommentSync {
    /// The count is unchanged: the cached list was adopted, no fetch needed.
    Reuse,
    /// The comments must be fetched: the issue is new, or its count changed.
    Refetch { known_before: bool },
}

fn clone_strings(v: &Vec<String>) -> (r: Vec<String>)
    ensures
        r@ == v@,
{
    let mut r: Vec<String> = Vec::new();
    let mut i: usize = 0;
    while i < v.len()
        invariant
            i <= v@.len(),
            r@ == v@.take(i as int),
        decreases v@.len() - i,
    {
        r.push(v[i].clone());
        proof {
            assert(r@ =~= v@.take(i as int + 1));
        }
        i += 1;
    }
    proof {
        assert(v@.take(v@.len() as int) =~= v@);
    }
    r
}

fn clone_comments(v: &Vec<(String, String)>) -> (r: Vec<(String, String)>)
    ensures
        r@ == v@,
{
    let mut r: Vec<(String, String)> = Vec::new();
    let mut i: usize = 0;
    while i < v.len()
        invariant
            i <= v@.len(),
            r@ == v@.take(i as int),
        decreases v@.len() - i,
    {
        let (a, b) = (&v[i].0, &v[i].1);
        r.push((a.clone(), b.clone()));
        proof {
            assert(r@ =~= v@.take(i as int + 1));
        }
        i += 1;
    }
    proof {
        assert(v@.take(v@.len() as int) =~= v@);
    }
    r
}

/// Builds the agent's record of one listed issue, reusing cached comments
/// when the comment count is unchanged.
///
/// If `known` holds an issue with the same number and the same comment
/// count, its comment list is adopted verbatim and no fetch is called for;
/// if the count changed, or the issue is new, the comments come back empty
/// and the result asks for a fetch.
pub fn merge_issue(known: &Vec<Issue>, h: IssueHeader) -> (r: (Issue, CommentSync))
    ensures
        r.0.number == h.number,
        r.0.title@ == h.title@,
        r.0.body@ == h.body@,
        r.0.state@ == h.state@,
        r.0.updated_at == h.updated_at,
        r.0.labels@ == h.labels@,
        r.0.comments_count == h.comments_count,
        match find_idx(known@, h.number) {
            Some(j) => if known@[j].comments_count == h.comments_count {
                r.1 == CommentSync::Reuse && r.0.comments@ == known@[j].comments@
            } else {
                r.1 == (CommentSync::Refetch { known_before: true }) && r.0.comments@.len() == 0
            },
            None => r.1 == (CommentSync::Refetch { known_before: false }) && r.0.comments@.len()
                == 0,
        },
{
    let (comments, sync) = match find_issue(known, h.number) {
        Some(j) => {
            if known[j].comments_count == h.comments_count {
                (clone_comments(&known[j].comments), CommentSync::Reuse)
            } else {
                (Vec::new(), CommentSync::Refetch { known_before: true })
            }
        },
        None => (Vec::new(), CommentSync::Refetch { known_before: false }),
    };
    let issue = Issue {
        number: h.number,
        title: h.title,
        body: h.body,
        state: h.state,
        updated_at: h.updated_at,
        labels: h.labels,
        comments: comments,
        comments_count: h.comments_count,
    };
    (issue, sync)
}

/// Replaces an issue's comment list with a freshly fetched one.
pub fn set_comments(issue: &mut Issue, comments: Vec<(String, String)>)
    ensures
        final(issue).comments@ == comments@,
        final(issue).number == old(issue).number,
        final(issue).title@ == old(issue).title@,
        final(issue).body@ == old(issue).body@,
        final(issue).state@ == old(issue).state@,
        final(issue).updated_at == old(issue).updated_at,
        final(issue).labels@ == old(issue).labels@,
        final(issue).comments_count == old(issue).comments_count,
{
    issue.comments = comments;
}


/// Whether a run of per-issue sync decisions saw a new issue, and whether
/// it saw a known issue whose comments changed: the two flags a full
/// listing reports.
pub open spec fn saw_new(syncs: Seq<CommentSync>) -> bool {
    exists|i: int| 0 <= i < syncs.len() && syncs[i] == (CommentSync::Refetch {
        known_before: false,
    })
}

/// Whether a run of per-issue sync decisions saw a known issue whose
/// comment count changed.
pub open spec fn saw_updated(syncs: Seq<CommentSync>) -> bool {
    exists|i: int| 0 <= i < syncs.len() && syncs[i] == (CommentSync::Refetch {
        known_before: true,
    })
}

/// Folds the per-issue sync decisions of one listing into its two flags:
/// whether any issue was new, and whether any known issue's comments
/// changed.
pub fn sync_flags(syncs: &Vec<CommentSync>) -> (r: (bool, bool))
    ensures
        r.0 == saw_new(syncs@),
        r.1 == saw_updated(syncs@),
{
    let mut new_issues = false;
    let mut updated_issues = false;
    let mut i: usize = 0;
    while i < syncs.len()
        invariant
            i <= syncs@.len(),
            new_issues == exists|k: int|
                0 <= k < i && syncs@[k] == (CommentSync::Refetch { known_before: false }),
            updated_issues == exists|k: int|
                0 <= k < i && syncs@[k] == (CommentSync::Refetch { known_before: true }),
        decreases syncs@.len() - i,
    {
        match syncs[i] {
            CommentSync::Refetch { known_before } => {
                if known_before {
                    updated_issues = true;
                } else {
                    new_issues = true;
                }
            },
            CommentSync::Reuse => {},
        }
        i += 1;
    }
    (new_issues, updated_issues)
}

// ===================== event texts and snapshot diffing =====================

/// Event text for a commit that was not seen before.
pub fn new_commit_event(hash: &str, message: &str) -> (r: String)
    ensures
        r@ == "New commit detected: "@ + hash@ + " - "@ + message@,
{
    let mut out = String::from_str("New commit detected: ");
    out.append(hash);
    out.append(" - ");
    out.append(message);
    assert(out@ =~= "New commit detected: "@ + hash@ + " - "@ + message@);
    out
}

/// Text of the event recorded when a known issue changed.
pub open spec fn issue_updated_text(number: u64, title: Seq<char>) -> Seq<char> {
    "Issue #"@ + dec_nat(number as nat) + " updated: "@ + title
}

/// Text of the event recorded for an issue not seen before.
pub open spec fn new_issue_text(number: u64, title: Seq<char>) -> Seq<char> {
    "New issue: #"@ + dec_nat(number as nat) + " - "@ + title
}

fn issue_updated_event(number: u64, title: &str) -> (r: String)
    ensures
        r@ == issue_updated_text(number, title@),
{
    let mut out = String::from_str("Issue #");
    push_dec_u64(&mut out, number);
    out.append(" updated: ");
    out.append(title);
    assert(out@ =~= issue_updated_text(number, title@));
    out
}

fn new_issue_event(number: u64, title: &str) -> (r: String)
    ensures
        r@ == new_issue_text(number, title@),
{
    let mut out = String::from_str("New issue: #");
    push_dec_u64(&mut out, number);
    out.append(" - ");
    out.append(title);
    assert(out@ =~= new_issue_text(number, title@));
    out
}

/// The events produced by comparing a fresh listing against the last-known
/// snapshot: one per changed known issue, one per new issue, in listing
/// order.
pub open spec fn diff_events_spec(known: Seq<Issue>, current: Seq<Issue>) -> Seq<Seq<char>>
    decreases current.len(),
{
    if current.len() == 0 {
        Seq::empty()
    } else {
        let head = current[0];
        let head_events = match find_idx(known, head.number) {
            Some(j) => if known[j].updated_at != head.updated_at || known[j].comments_count
                != head.comments_count {
                seq![issue_updated_text(head.number, head.title@)]
            } else {
                Seq::empty()
            },
            None => seq![new_issue_text(head.number, head.title@)],
        };
        head_events + diff_events_spec(known, current.drop_first())
    }
}

/// Diffs a fresh listing against the last-known snapshot, producing the
/// textual events of this cycle: an update event for each known issue
/// whose update time or comment count changed, a new-issue event for each
/// number not seen before.
pub fn diff_issues(known: &Vec<Issue>, current: &Vec<Issue>) -> (events: Vec<String>)
    ensures
        events.deep_view() == diff_events_spec(known@, current@),
{
    let mut events: Vec<String> = Vec::new();
    let mut i: usize = 0;
    proof {
        assert(current@.skip(0) =~= current@);
    }
    while i < current.len()
        invariant
            i <= current@.len(),
            events.deep_view() + diff_events_spec(known@, current@.skip(i as int))
                == diff_events_spec(known@, current@),
        decreases current@.len() - i,
    {
        let ghost dv0 = events.deep_view();
        proof {
            assert(current@.skip(i as int)[0] == current@[i as int]);
            assert(current@.skip(i as int).drop_first() =~= current@.skip(i as int + 1));
        }
        match find_issue(known, current[i].number) {
            Some(j) => {
                if known[j].updated_at != current[i].updated_at || known[j].comments_count
                    != current[i].comments_count {
                    events.push(issue_updated_event(current[i].number, current[i].title.as_str()));
                    proof {
                        assert(events.deep_view() =~= dv0.push(
                            issue_updated_text(current@[i as int].number, current@[i as int].title@),
                        ));
                    }
                }
            },
            None => {
                events.push(new_issue_event(current[i].number, current[i].title.as_str()));
                proof {
                    assert(events.deep_view() =~= dv0.push(
                        new_issue_text(current@[i as int].number, current@[i as int].title@),
                    ));
                }
            },
        }
        proof {
            assert(events.deep_view() + diff_events_spec(known@, current@.skip(i as int + 1))
                =~= diff_events_spec(known@, current@));
        }
        i += 1;
    }
    proof {
        assert(current@.skip(current@.len() as int) =~= Seq::<Issue>::empty());
        assert(events.deep_view() =~= diff_events_spec(known@, current@));
    }
    events
}

// ===================== auth-failure classification =====================

/// Whether `pat` occurs anywhere in `s`.
pub open spec fn contains_pat(s: Seq<char>, pat: Seq<char>) -> bool {
    exists|i: int| 0 <= i && i + pat.len() <= s.len() && #[trigger] s.subrange(i, i + pat.len())
        == pat
}

fn contains_exec(s: &str, pat: &str) -> (r: bool)
    requires
        pat@.len() >= 1,
    ensures
        r == contains_pat(s@, pat@),
{
    let n = s.unicode_len();
    let mut i: usize = 0;
    while i < n
        invariant
            i <= n,
            n == s@.len(),
            forall|j: int| 0 <= j < i ==> !(j + pat@.len() <= s@.len() && #[trigger] s@.subrange(
                j,
                j + pat@.len(),
            ) == pat@),
        decreases n - i,
    {
        if pat_at_exec(s, i, pat) {
            return true;
        }
        i += 1;
    }
    false
}

/// The textual signatures of an authentication failure from the tracker.
pub open spec fn is_auth_error_text(s: Seq<char>) -> bool {
    contains_pat(s, "401"@) || contains_pat(s, "unauthorized"@) || contains_pat(
        s,
        "Unauthorized"@,
    ) || contains_pat(s, "bad credentials"@) || contains_pat(s, "Bad credentials"@)
}

/// Classifies a tracker error: does its text carry an authentication
/// failure signature?
pub fn is_auth_error(msg: &str) -> (r: bool)
    ensures
        r == is_auth_error_text(msg@),
{
    proof {
        reveal_strlit("401");
        reveal_strlit("unauthorized");
        reveal_strlit("Unauthorized");
        reveal_strlit("bad credentials");
        reveal_strlit("Bad credentials");
    }
    contains_exec(msg, "401") || contains_exec(msg, "unauthorized") || contains_exec(
        msg,
        "Unauthorized",
    ) || contains_exec(msg, "bad credentials") || contains_exec(msg, "Bad credentials")
}

/// What a tracker-call wrapper does with a failure.
#[derive(Debug, Clone, PartialEq, Eq)]
pub enum TrackerRetry {
    /// Refresh the credentials and retry the call once.
    RefreshAndRetry,
    /// Hand the error on unchanged.
    Propagate,
}

/// Decides what to do after a failed tracker call: on the first failure of
/// a call, and only when the error text carries an authentication
/// signature, the credentials are refreshed and the call retried exactly
/// once; any other error, and any second failure, propagates unchanged.
pub fn tracker_retry_decision(first_failure: bool, msg: &str) -> (r: TrackerRetry)
    ensures
        r == TrackerRetry::RefreshAndRetry <==> (first_failure && is_auth_error_text(msg@)),
        r == TrackerRetry::Propagate <==> !(first_failure && is_auth_error_text(msg@)),
{
    if first_failure && is_auth_error(msg) {
        TrackerRetry::RefreshAndRetry
    } else {
        TrackerRetry::Propagate
    }
}

// ===================== snapshot split and issue report =====================

/// All fields equal up to text views: the record reads the same.
pub open spec fn issue_like(a: Issue, b: Issue) -> bool {
    &&& a.number == b.number
    &&& a.title@ == b.title@
    &&& a.body@ == b.body@
    &&& a.state@ == b.state@
    &&& a.updated_at == b.updated_at
    &&& a.labels@ == b.labels@
    &&& a.comments@ == b.comments@
    &&& a.comments_count == b.comments_count
}

/// The issues whose state is `open`, in order.
pub open spec fn open_filter(s: Seq<Issue>) -> Seq<Issue>
    decreases s.len(),
{
    if s.len() == 0 {
        Seq::empty()
    } else if s[0].state@ == "open"@ {
        seq![s[0]] + open_filter(s.drop_first())
    } else {
        open_filter(s.drop_first())
    }
}

/// The titles of the issues whose state is `closed`, in order.
pub open spec fn closed_titles_spec(s: Seq<Issue>) -> Seq<Seq<char>>
    decreases s.len(),
{
    if s.len() == 0 {
        Seq::empty()
    } else if s[0].state@ == "closed"@ {
        seq![s[0].title@] + closed_titles_spec(s.drop_first())
    } else {
        closed_titles_spec(s.drop_first())
    }
}

fn state_is(issue: &Issue, lit: &str) -> (r: bool)
    ensures
        r == (issue.state@ == lit@),
{
    let other = String::from_str(lit);
    issue.state.eq(&other)
}

/// A copy of an issue that reads the same.
pub fn clone_issue(i: &Issue) -> (r: Issue)
    ensures
        issue_like(r, *i),
{
    Issue {
        number: i.number,
        title: i.title.clone(),
        body: i.body.clone(),
        state: i.state.clone(),
        updated_at: i.updated_at,
        labels: clone_strings(&i.labels),
        comments: clone_comments(&i.comments),
        comments_count: i.comments_count,
    }
}

/// Copies of the open issues of a listing, in order: the context's
/// open-issue snapshot.
pub fn open_issues(issues: &Vec<Issue>) -> (r: Vec<Issue>)
    ensures
        r@.len() == open_filter(issues@).len(),
        forall|k: int| 0 <= k < r@.len() ==> issue_like(#[trigger] r@[k], open_filter(issues@)[k]),
{
    let ghost target = open_filter(issues@);
    let mut r: Vec<Issue> = Vec::new();
    let mut i: usize = 0;
    proof {
        assert(issues@.skip(0) =~= issues@);
    }
    while i < issues.len()
        invariant
            i <= issues@.len(),
            r@.len() <= target.len(),
            target == open_filter(issues@),
            open_filter(issues@.skip(i as int)) == target.skip(r@.len() as int),
            forall|k: int| 0 <= k < r@.len() ==> issue_like(#[trigger] r@[k], target[k]),
        decreases issues@.len() - i,
    {
        proof {
            assert(issues@.skip(i as int)[0] == issues@[i as int]);
            assert(issues@.skip(i as int).drop_first() =~= issues@.skip(i as int + 1));
        }
        if state_is(&issues[i], "open") {
            proof {
                assert(target.skip(r@.len() as int)[0] == issues@[i as int]);
                assert(target.skip(r@.len() as int).len() >= 1);
                assert(r@.len() < target.len());
                assert(target[r@.len() as int] == issues@[i as int]);
                assert(open_filter(issues@.skip(i as int + 1)) =~= target.skip(
                    r@.len() as int,
                ).drop_first());
                assert(target.skip(r@.len() as int).drop_first() =~= target.skip(
                    r@.len() as int + 1,
                ));
            }
            let c = clone_issue(&issues[i]);
            r.push(c);
        }
        i += 1;
    }
    proof {
        assert(issues@.skip(issues@.len() as int) =~= Seq::<Issue>::empty());
        assert(target.skip(r@.len() as int) =~= Seq::<Issue>::empty());
    }
    r
}

/// The titles of the closed issues of a listing, in order: the context's
/// closed-title snapshot.
pub fn closed_titles(issues: &Vec<Issue>) -> (r: Vec<String>)
    ensures
        r.deep_view() == closed_titles_spec(issues@),
{
    let mut r: Vec<String> = Vec::new();
    let mut i: usize = 0;
    proof {
        assert(issues@.skip(0) =~= issues@);
    }
    while i < issues.len()
        invariant
            i <= issues@.len(),
            r.deep_view() + closed_titles_spec(issues@.skip(i as int)) == closed_titles_spec(
                issues@,
            ),
        decreases issues@.len() - i,
    {
        let ghost dv0 = r.deep_view();
        proof {
            assert(issues@.skip(i as int)[0] == issues@[i as int]);
            assert(issues@.skip(i as int).drop_first() =~= issues@.skip(i as int + 1));
        }
        if state_is(&issues[i], "closed") {
            r.push(issues[i].title.clone());
            proof {
                assert(r.deep_view() =~= dv0.push(issues@[i as int].title@));
            }
        }
        proof {
            assert(r.deep_view() + closed_titles_spec(issues@.skip(i as int + 1))
                =~= closed_titles_spec(issues@));
        }
        i += 1;
    }
    proof {
        assert(issues@.skip(issues@.len() as int) =~= Seq::<Issue>::empty());
        assert(r.deep_view() =~= closed_titles_spec(issues@));
    }
    r
}

/// One comment as shown in an issue report.
pub open spec fn comment_line(c: (String, String)) -> Seq<char> {
    "  - "@ + c.0@ + ": "@ + c.1@
}

/// Comments after the first, each on its own line.
pub open spec fn comment_tail(cs: Seq<(String, String)>) -> Seq<char>
    decreases cs.len(),
{
    if cs.len() == 0 {
        Seq::empty()
    } else {
        "\n"@ + comment_line(cs[0]) + comment_tail(cs.drop_first())
    }
}

/// All comments, one per line.
pub open spec fn comments_joined(cs: Seq<(String, String)>) -> Seq<char> {
    if cs.len() == 0 {
        Seq::empty()
    } else {
        comment_line(cs[0]) + comment_tail(cs.drop_first())
    }
}

/// The full report of one issue, as shown to the model after a fetch:
/// header line, state, update time, labels, body and all comments.
pub open spec fn issue_report_spec(i: Issue, updated: Seq<char>) -> Seq<char> {
    "Issue #"@ + dec_nat(i.number as nat) + ": "@ + i.title@ + "\nState: "@ + i.state@
        + "\nUpdated at: "@ + updated + "\nLabels: "@ + crate::context::labels_render(i.labels@)
        + "\nBody: "@ + i.body@ + "\nComments and Updates:\n"@ + comments_joined(i.comments@)
}

impl Issue {
    /// Renders the full report of this issue, given the display text of
    /// its update time.
    pub fn report(&self, updated: &str) -> (r: String)
        ensures
            r@ == issue_report_spec(*self, updated@),
    {
        let mut out = String::from_str("Issue #");
        push_dec_u64(&mut out, self.number);
        out.append(": ");
        out.append(self.title.as_str());
        out.append("\nState: ");
        out.append(self.state.as_str());
        out.append("\nUpdated at: ");
        out.append(updated);
        out.append("\nLabels: ");
        crate::context::push_labels(&mut out, &self.labels);
        out.append("\nBody: ");
        out.append(self.body.as_str());
        out.append("\nComments and Updates:\n");
        let ghost head = out@;
        if self.comments.len() > 0 {
            out.append("  - ");
            out.append(self.comments[0].0.as_str());
            out.append(": ");
            out.append(self.comments[0].1.as_str());
            proof {
                assert(out@ =~= head + comment_line(self.comments@[0]));
                assert(self.comments@.skip(1) =~= self.comments@.drop_first());
            }
            let mut i: usize = 1;
            while i < self.comments.len()
                invariant
                    1 <= i <= self.comments@.len(),
                    out@ + comment_tail(self.comments@.skip(i as int)) == head + comments_joined(
                        self.comments@,
                    ),
                decreases self.comments@.len() - i,
            {
                proof {
                    assert(self.comments@.skip(i as int)[0] == self.comments@[i as int]);
                    assert(self.comments@.skip(i as int).drop_first() =~= self.comments@.skip(
                        i as int + 1,
                    ));
                }
                out.append("\n  - ");
                out.append(self.comments[i].0.as_str());
                out.append(": ");
                out.append(self.comments[i].1.as_str());
                proof {
                    reveal_strlit("\n  - ");
                    reveal_strlit("\n");
                    reveal_strlit("  - ");
                    assert("\n  - "@ =~= "\n"@ + "  - "@);
                    assert(out@ + comment_tail(self.comments@.skip(i as int + 1)) =~= head
                        + comments_joined(self.comments@));
                }
                i += 1;
            }
            proof {
                assert(self.comments@.skip(self.comments@.len() as int) =~= Seq::<(
                    String,
                    String,
                )>::empty());
            }
        }
        proof {
            assert(out@ =~= issue_report_spec(*self, updated@));
        }
        out
    }
}

} // verus!
