//! The rule that decides whether a repository's result is retained.
use crate::model::{deltas_of, BranchDelta, Delta, Filter};
use vstd::prelude::*;

verus! {

/// Every delta of the sequence is `delta`.
pub open spec fn all_are(deltas: Seq<Delta>, delta: Delta) -> bool {
    forall|i: int| 0 <= i < deltas.len() ==> deltas[i] == delta
}

/// Whether some branch result carries `delta`.
pub fn any_delta(deltas: &Vec<BranchDelta>, delta: Delta) -> (found: bool)
    ensures
        found == deltas_of(deltas@).contains(delta),
{
    let mut i: usize = 0;
    while i < deltas.len()
        invariant
            i <= deltas.len(),
            forall|k: int| 0 <= k < i ==> deltas_of(deltas@)[k] != delta,
        decreases deltas.len() - i,
    {
        if deltas[i].delta == delta {
            assert(deltas_of(deltas@)[i as int] == delta);
            return true;
        }
        i += 1;
    }
    false
}

/// Whether every branch result carries `delta`.
pub fn all_delta(deltas: &Vec<BranchDelta>, delta: Delta) -> (all: bool)
    ensures
        all == all_are(deltas_of(deltas@), delta),
{
    let mut i: usize = 0;
    while i < deltas.len()
        invariant
            i <= deltas.len(),
            forall|k: int| 0 <= k < i ==> deltas_of(deltas@)[k] == delta,
        decreases deltas.len() - i,
    {
        if deltas[i].delta != delta {
            assert(deltas_of(deltas@)[i as int] != delta);
            return false;
        }
        i += 1;
    }
    true
}

impl Filter {
    /// A filter that retains every repository and reads no ignore list.
    pub fn everything() -> (f: Filter)
        ensures
            f.all_toggles_on(),
            f.repo_ignore_list is None,
    {
        Filter {
            include_consolidated_by_same_commit: true,
            include_consolidated_by_merge_commit: true,
            include_consolidated_by_equal_content: true,
            include_non_consolidated: true,
            include_non_consolidated_but_ff_able: true,
            include_branch_not_found: true,
            repo_ignore_list: None,
        }
    }

    /// All six toggles are on.
    pub open spec fn all_toggles_on(&self) -> bool {
        &&& self.include_consolidated_by_same_commit
        &&& self.include_consolidated_by_merge_commit
        &&& self.include_consolidated_by_equal_content
        &&& self.include_non_consolidated
        &&& self.include_non_consolidated_but_ff_able
        &&& self.include_branch_not_found
    }

    /// Only the toggle for missing branches is on.
    pub open spec fn only_branch_not_found(&self) -> bool {
        &&& !self.include_consolidated_by_same_commit
        &&& !self.include_consolidated_by_merge_commit
        &&& !self.include_consolidated_by_equal_content
        &&& !self.include_non_consolidated
        &&& !self.include_non_consolidated_but_ff_able
        &&& self.include_branch_not_found
    }

    /// A repository is retained if the toggle of some delta other than
    /// `BranchNotFound` is on and a branch carries that delta, or if the
    /// toggle of `BranchNotFound` is on and every branch carries it.
    pub open spec fn spec_retains(&self, deltas: Seq<Delta>) -> bool {
        ||| self.include_consolidated_by_same_commit && deltas.contains(
            Delta::ConsolidatedBySameCommit,
        )
        ||| self.include_consolidated_by_merge_commit && deltas.contains(
            Delta::ConsolidatedByMergeCommit,
        )
        ||| self.include_consolidated_by_equal_content && deltas.contains(
            Delta::ConsolidatedByEqualContent,
        )
        ||| self.include_non_consolidated_but_ff_able && deltas.contains(
            Delta::NotConsolidatedButFastForwardable,
        )
        ||| self.include_non_consolidated && deltas.contains(Delta::NotConsolidated)
        ||| self.include_branch_not_found && all_are(deltas, Delta::BranchNotFound)
    }

    /// Decides whether a repository with these branch results is retained.
    pub fn retains(&self, deltas: &Vec<BranchDelta>) -> (keep: bool)
        ensures
            keep == self.spec_retains(deltas_of(deltas@)),
    {
        if self.include_consolidated_by_same_commit && any_delta(
            deltas,
            Delta::ConsolidatedBySameCommit,
        ) {
            true
        } else if self.include_consolidated_by_merge_commit && any_delta(
            deltas,
            Delta::ConsolidatedByMergeCommit,
        ) {
            true
        } else if self.include_consolidated_by_equal_content && any_delta(
            deltas,
            Delta::ConsolidatedByEqualContent,
        ) {
            true
        } else if self.include_non_consolidated_but_ff_able && any_delta(
            deltas,
            Delta::NotConsolidatedButFastForwardable,
        ) {
            true
        } else if self.include_non_consolidated && any_delta(deltas, Delta::NotConsolidated) {
            true
        } else if self.include_branch_not_found && all_delta(deltas, Delta::BranchNotFound) {
            true
        } else {
            false
        }
    }
}

/// With all six toggles on, every repository is retained, whatever its
/// branch results are.
pub proof fn lemma_all_toggles_retain(filter: Filter, deltas: Seq<Delta>)
    requires
        filter.all_toggles_on(),
    ensures
        filter.spec_retains(deltas),
{
    if !all_are(deltas, Delta::BranchNotFound) {
        let i = choose|i: int| 0 <= i < deltas.len() && deltas[i] != Delta::BranchNotFound;
        assert(deltas.contains(deltas[i]));
    }
}

/// With only the toggle for missing branches on, a repository is retained
/// exactly when every one of its branches is missing: a single branch that
/// resolved drops it.
pub proof fn lemma_only_missing_branches(filter: Filter, deltas: Seq<Delta>)
    requires
        filter.only_branch_not_found(),
    ensures
        filter.spec_retains(deltas) <==> all_are(deltas, Delta::BranchNotFound),
        forall|i: int|
            0 <= i < deltas.len() && deltas[i] != Delta::BranchNotFound ==> !filter.spec_retains(
                deltas,
            ),
{
}

} // verus!
