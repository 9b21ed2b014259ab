//! Decisions of the repository synchroniser: classifying the local/remote
//! relationship after a fetch, planning the merge commit, and tracking the
//! last observed head commit. The git work itself — fetching, moving
//! references, checking out, committing — is carried out by the caller
//! according to these decisions.

use vstd::prelude::*;
use vstd::string::StringExecFns;

verus! {

/// How a pull proceeds after a fetch, given the merge analysis.
#[derive(Debug, Clone, PartialEq, Eq)]
pub enum PullPlan {
    /// No remote change: nothing to do.
    UpToDate,
    /// The remote is strictly ahead: move the branch pointer and check out,
    /// no new commit.
    FastForward,
    /// Both sides advanced: a three-way merge commit is required.
    Merge,
    /// The analysis fits none of the known cases: fail loudly.
    Unknown,
}

/// Classifies the merge analysis of a fetch, in the order the analysis
/// flags are consulted: up-to-date wins over fast-forward, which wins over
/// a normal merge; anything else is unknown.
pub fn plan_pull(up_to_date: bool, fast_forward: bool, normal: bool) -> (r: PullPlan)
    ensures
        up_to_date ==> r == PullPlan::UpToDate,
        !up_to_date && fast_forward ==> r == PullPlan::FastForward,
        !up_to_date && !fast_forward && normal ==> r == PullPlan::Merge,
        !up_to_date && !fast_forward && !normal ==> r == PullPlan::Unknown,
{
    if up_to_date {
        PullPlan::UpToDate
    } else if fast_forward {
        PullPlan::FastForward
    } else if normal {
        PullPlan::Merge
    } else {
        PullPlan::Unknown
    }
}

/// A planned three-way merge commit: its two parents are the local head
/// and the fetched head, in that order.
pub struct MergeCommit {
    pub parent_local: String,
    pub parent_fetched: String,
}

/// The error surfaced when the merge index reports conflicts.
pub open spec fn conflict_error() -> Seq<char> {
    "Conflicts detected during merge. Please resolve them manually."@
}

/// Decides the outcome of a normal merge once the index is known: any
/// conflicted path fails the pull — nothing is auto-committed — and a
/// clean index yields a commit with exactly the local and fetched heads
/// as parents.
pub fn plan_merge_commit(has_conflicts: bool, local_head: String, fetched_head: String) -> (r:
    Result<MergeCommit, String>)
    ensures
        has_conflicts <==> r is Err,
        r matches Ok(m) ==> m.parent_local == local_head && m.parent_fetched == fetched_head,
        r matches Err(e) ==> e@ == conflict_error(),
{
    if has_conflicts {
        Err(String::from_str("Conflicts detected during merge. Please resolve them manually."))
    } else {
        Ok(MergeCommit { parent_local: local_head, parent_fetched: fetched_head })
    }
}

/// The message of the three-way merge commit for a branch.
pub fn merge_message(branch: &str) -> (r: String)
    ensures
        r@ == "Merge remote-tracking branch 'origin/"@ + branch@ + "' into "@ + branch@,
{
    let mut out = String::from_str("Merge remote-tracking branch 'origin/");
    out.append(branch);
    out.append("' into ");
    out.append(branch);
    assert(out@ =~= "Merge remote-tracking branch 'origin/"@ + branch@ + "' into "@ + branch@);
    out
}

/// The synchroniser's only durable state: the hash of the last observed
/// head commit.
pub struct HeadCache {
    pub last_commit_hash: String,
}

impl HeadCache {
    /// Starts tracking from a known head.
    pub fn new(initial: String) -> (r: HeadCache)
        ensures
            r.last_commit_hash == initial,
    {
        HeadCache { last_commit_hash: initial }
    }

    /// Reports whether the head moved since the last observation, and
    /// brings the cache up to date: after the call the cache holds the
    /// observed hash, updated exactly once per observed change.
    pub fn observe_head(&mut self, current: String) -> (r: bool)
        ensures
            r == (old(self).last_commit_hash@ != current@),
            final(self).last_commit_hash@ == current@,
            !r ==> final(self).last_commit_hash == old(self).last_commit_hash,
    {
        if self.last_commit_hash.eq(&current) {
            false
        } else {
            self.last_commit_hash = current;
            true
        }
    }
}

} // verus!
