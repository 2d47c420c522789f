//! Classification of one branch against HEAD.
//!
//! A branch is judged by up to four checks, asked in a fixed order; the first
//! one that holds names the delta. Answering a check may be costly, so the
//! [`Classifier`] asks for one answer at a time and stops at the first that
//! holds. [`delta_of`] states the same rule over all answers at once.
use crate::model::Delta;
use vstd::prelude::*;

verus! {

/// A question about HEAD and the tip of a branch that was found.
#[derive(Clone, Copy, Debug, PartialEq, Eq, Structural)]
pub enum Check {
    /// Are HEAD and the branch tip the identical commit?
    SameCommit,
    /// Does a commit of the branch's first-parent history have HEAD among its parents?
    MergeCommit,
    /// Do the trees of HEAD and of the branch tip hold the same content?
    EqualContent,
    /// Is HEAD an ancestor of the branch tip?
    FastForward,
}

impl Check {
    /// The delta reported when this check is the first to hold.
    pub open spec fn spec_delta(self) -> Delta {
        match self {
            Check::SameCommit => Delta::ConsolidatedBySameCommit,
            Check::MergeCommit => Delta::ConsolidatedByMergeCommit,
            Check::EqualContent => Delta::ConsolidatedByEqualContent,
            Check::FastForward => Delta::NotConsolidatedButFastForwardable,
        }
    }

    /// The delta reported when this check is the first to hold.
    #[verifier::when_used_as_spec(spec_delta)]
    pub fn delta(self) -> (d: Delta)
        ensures
            d == self.spec_delta(),
    {
        match self {
            Check::SameCommit => Delta::ConsolidatedBySameCommit,
            Check::MergeCommit => Delta::ConsolidatedByMergeCommit,
            Check::EqualContent => Delta::ConsolidatedByEqualContent,
            Check::FastForward => Delta::NotConsolidatedButFastForwardable,
        }
    }

    /// The check asked after this one failed, if any is left.
    pub open spec fn spec_following(self) -> Option<Check> {
        match self {
            Check::SameCommit => Some(Check::MergeCommit),
            Check::MergeCommit => Some(Check::EqualContent),
            Check::EqualContent => Some(Check::FastForward),
            Check::FastForward => None,
        }
    }

    /// The check asked after this one failed, if any is left.
    #[verifier::when_used_as_spec(spec_following)]
    pub fn following(self) -> (next: Option<Check>)
        ensures
            next == self.spec_following(),
    {
        match self {
            Check::SameCommit => Some(Check::MergeCommit),
            Check::MergeCommit => Some(Check::EqualContent),
            Check::EqualContent => Some(Check::FastForward),
            Check::FastForward => None,
        }
    }

    /// The place of this check in the evaluation order, starting at zero.
    pub open spec fn rank(self) -> nat {
        match self {
            Check::SameCommit => 0,
            Check::MergeCommit => 1,
            Check::EqualContent => 2,
            Check::FastForward => 3,
        }
    }
}

/// Everything the classification of one branch depends on: whether the branch
/// exists, and the true answer to each check.
#[derive(Clone, Copy, Debug, PartialEq, Eq, Structural)]
pub struct BranchFacts {
    /// A local or remote-tracking branch of the name exists.
    pub found: bool,
    /// The branch tip is the commit HEAD points to.
    pub same_commit: bool,
    /// A commit of the branch's first-parent history has HEAD among its parents.
    pub merged: bool,
    /// The trees of HEAD and of the branch tip do not differ.
    pub equal_content: bool,
    /// HEAD is an ancestor of the branch tip.
    pub fast_forwardable: bool,
}

impl BranchFacts {
    /// The true answer to `check`.
    pub open spec fn spec_holds(self, check: Check) -> bool {
        match check {
            Check::SameCommit => self.same_commit,
            Check::MergeCommit => self.merged,
            Check::EqualContent => self.equal_content,
            Check::FastForward => self.fast_forwardable,
        }
    }

    /// The true answer to `check`.
    #[verifier::when_used_as_spec(spec_holds)]
    pub fn holds(self, check: Check) -> (answer: bool)
        ensures
            answer == self.spec_holds(check),
    {
        match check {
            Check::SameCommit => self.same_commit,
            Check::MergeCommit => self.merged,
            Check::EqualContent => self.equal_content,
            Check::FastForward => self.fast_forwardable,
        }
    }
}

/// The delta of a branch: `BranchNotFound` when the branch does not exist,
/// else the delta of the first check that holds, in the order in which
/// [`Check::following`] passes the question on, else
/// `NotConsolidated`.
pub open spec fn delta_of(facts: BranchFacts) -> Delta {
    if !facts.found {
        Delta::BranchNotFound
    } else if facts.same_commit {
        Delta::ConsolidatedBySameCommit
    } else if facts.merged {
        Delta::ConsolidatedByMergeCommit
    } else if facts.equal_content {
        Delta::ConsolidatedByEqualContent
    } else if facts.fast_forwardable {
        Delta::NotConsolidatedButFastForwardable
    } else {
        Delta::NotConsolidated
    }
}

/// Where the classification of one branch stands.
#[derive(Clone, Copy, Debug, PartialEq, Eq, Structural)]
pub enum Classifier {
    /// The branch has not been looked up yet.
    Lookup,
    /// The branch exists, every earlier check failed, and this one is asked next.
    Asking(Check),
    /// The delta is known.
    Settled(Delta),
}

impl Classifier {
    /// The state before anything is known about the branch.
    pub fn start() -> (c: Classifier)
        ensures
            c == Classifier::Lookup,
    {
        Classifier::Lookup
    }

    /// The state after the branch lookup, seen from `self`.
    pub open spec fn spec_resolved(self, found: bool) -> Classifier {
        match self {
            Classifier::Lookup => if found {
                Classifier::Asking(Check::SameCommit)
            } else {
                Classifier::Settled(Delta::BranchNotFound)
            },
            _ => self,
        }
    }

    /// Records the outcome of the branch lookup. A missing branch settles the
    /// delta at once; a branch that was found is asked the first check. In
    /// any state but `Lookup` nothing changes.
    #[verifier::when_used_as_spec(spec_resolved)]
    pub fn resolved(self, found: bool) -> (next: Classifier)
        ensures
            next == self.spec_resolved(found),
    {
        match self {
            Classifier::Lookup => if found {
                Classifier::Asking(Check::SameCommit)
            } else {
                Classifier::Settled(Delta::BranchNotFound)
            },
            _ => self,
        }
    }

    /// The state after the pending check was answered, seen from `self`.
    pub open spec fn spec_answered(self, holds: bool) -> Classifier {
        match self {
            Classifier::Asking(check) => if holds {
                Classifier::Settled(check.spec_delta())
            } else {
                match check.spec_following() {
                    Some(next) => Classifier::Asking(next),
                    None => Classifier::Settled(Delta::NotConsolidated),
                }
            },
            _ => self,
        }
    }

    /// Records the answer to the pending check. A check that holds settles the
    /// delta; one that fails passes the question on to the next check, or
    /// settles `NotConsolidated` after the last. In any state but `Asking`
    /// nothing changes.
    #[verifier::when_used_as_spec(spec_answered)]
    pub fn answered(self, holds: bool) -> (next: Classifier)
        ensures
            next == self.spec_answered(holds),
    {
        match self {
            Classifier::Asking(check) => if holds {
                Classifier::Settled(check.delta())
            } else {
                match check.following() {
                    Some(next) => Classifier::Asking(next),
                    None => Classifier::Settled(Delta::NotConsolidated),
                }
            },
            _ => self,
        }
    }

    /// The check waiting for an answer, if there is one.
    pub open spec fn spec_pending(self) -> Option<Check> {
        match self {
            Classifier::Asking(check) => Some(check),
            _ => None,
        }
    }

    /// The check waiting for an answer, if there is one.
    #[verifier::when_used_as_spec(spec_pending)]
    pub fn pending(self) -> (check: Option<Check>)
        ensures
            check == self.spec_pending(),
    {
        match self {
            Classifier::Asking(check) => Some(check),
            _ => None,
        }
    }

    /// The delta, once it is settled.
    pub open spec fn spec_verdict(self) -> Option<Delta> {
        match self {
            Classifier::Settled(delta) => Some(delta),
            _ => None,
        }
    }

    /// The delta, once it is settled.
    #[verifier::when_used_as_spec(spec_verdict)]
    pub fn verdict(self) -> (delta: Option<Delta>)
        ensures
            delta == self.spec_verdict(),
    {
        match self {
            Classifier::Settled(delta) => Some(delta),
            _ => None,
        }
    }

    /// How many answers the classifier may still need.
    pub open spec fn remaining(self) -> nat {
        match self {
            Classifier::Lookup => 5,
            Classifier::Asking(check) => (4 - check.rank()) as nat,
            Classifier::Settled(_) => 0,
        }
    }

    /// One step of the classifier when every question is answered truthfully
    /// from `facts`.
    pub open spec fn step(self, facts: BranchFacts) -> Classifier {
        match self {
            Classifier::Lookup => self.spec_resolved(facts.found),
            Classifier::Asking(check) => self.spec_answered(facts.spec_holds(check)),
            Classifier::Settled(_) => self,
        }
    }

    /// The state the classifier ends in when every question is answered
    /// truthfully from `facts`.
    pub open spec fn run(self, facts: BranchFacts) -> Classifier
        decreases self.remaining(),
    {
        match self {
            Classifier::Settled(_) => self,
            _ => if self.step(facts).remaining() < self.remaining() {
                self.step(facts).run(facts)
            } else {
                self
            },
        }
    }
}

/// Classifies a branch from all facts at once.
pub fn classify(facts: BranchFacts) -> (delta: Delta)
    ensures
        delta == delta_of(facts),
        Classifier::Lookup.run(facts) == Classifier::Settled(delta),
{
    let mut state = Classifier::start();
    proof {
        lemma_run_settles(facts);
    }
    state = state.resolved(facts.found);
    let mut rounds: u8 = 0;
    while rounds < 4
        invariant
            rounds <= 4,
            state.remaining() <= 4 - rounds,
            state.run(facts) == Classifier::Settled(delta_of(facts)),
        decreases 4 - rounds,
    {
        match state.pending() {
            Some(check) => {
                state = state.answered(facts.holds(check));
            },
            None => {},
        }
        rounds += 1;
    }
    match state.verdict() {
        Some(delta) => delta,
        None => Delta::NotConsolidated,
    }
}

/// Answering every question truthfully leads the classifier from its start to
/// the delta that [`delta_of`] gives for the same facts, and through states
/// that all lead there.
pub proof fn lemma_run_settles(facts: BranchFacts)
    ensures
        Classifier::Lookup.run(facts) == Classifier::Settled(delta_of(facts)),
        Classifier::Lookup.spec_resolved(facts.found).run(facts) == Classifier::Settled(
            delta_of(facts),
        ),
{
    reveal_with_fuel(Classifier::run, 6);
}

/// The conditions under which each delta is reported exclude one another and
/// cover every state of a repository, a branch and HEAD: exactly one delta
/// applies, and classification reports that one.
pub proof fn lemma_deltas_partition(facts: BranchFacts, delta: Delta)
    ensures
        (delta_of(facts) == delta) <==> applies(delta, facts),
        exists|d: Delta| applies(d, facts),
        forall|d1: Delta, d2: Delta| applies(d1, facts) && applies(d2, facts) ==> d1 == d2,
{
    assert(applies(delta_of(facts), facts));
}

/// The condition under which `delta` is the one reported for `facts`.
pub open spec fn applies(delta: Delta, facts: BranchFacts) -> bool {
    match delta {
        Delta::BranchNotFound => !facts.found,
        Delta::ConsolidatedBySameCommit => facts.found && facts.same_commit,
        Delta::ConsolidatedByMergeCommit => facts.found && !facts.same_commit && facts.merged,
        Delta::ConsolidatedByEqualContent => facts.found && !facts.same_commit && !facts.merged
            && facts.equal_content,
        Delta::NotConsolidatedButFastForwardable => facts.found && !facts.same_commit
            && !facts.merged && !facts.equal_content && facts.fast_forwardable,
        Delta::NotConsolidated => facts.found && !facts.same_commit && !facts.merged
            && !facts.equal_content && !facts.fast_forwardable,
    }
}

/// A branch whose tip is HEAD's commit is consolidated by the same commit,
/// whatever the trees and the ancestry say.
pub proof fn lemma_same_commit_wins(facts: BranchFacts)
    requires
        facts.found,
        facts.same_commit,
    ensures
        delta_of(facts) == Delta::ConsolidatedBySameCommit,
{
}

/// A branch into which HEAD was merged, with a tip other than HEAD and a tree
/// that differs from HEAD's, is consolidated by a merge commit even where
/// HEAD is also an ancestor of the tip.
pub proof fn lemma_merge_before_fast_forward(facts: BranchFacts)
    requires
        facts.found,
        !facts.same_commit,
        facts.merged,
        !facts.equal_content,
    ensures
        delta_of(facts) == Delta::ConsolidatedByMergeCommit,
        delta_of(facts) != Delta::NotConsolidatedButFastForwardable,
{
}

/// A branch whose tree equals HEAD's, reached through a history that neither
/// ends in HEAD's commit nor merges it, is consolidated by equal content.
pub proof fn lemma_equal_content_without_history(facts: BranchFacts)
    requires
        facts.found,
        !facts.same_commit,
        !facts.merged,
        facts.equal_content,
    ensures
        delta_of(facts) == Delta::ConsolidatedByEqualContent,
        delta_of(facts) != Delta::ConsolidatedBySameCommit,
        delta_of(facts) != Delta::ConsolidatedByMergeCommit,
{
}

/// A branch that is consolidated in no way but has HEAD among the ancestors
/// of its tip can be fast-forwarded.
pub proof fn lemma_fast_forwardable(facts: BranchFacts)
    requires
        facts.found,
        !facts.same_commit,
        !facts.merged,
        !facts.equal_content,
        facts.fast_forwardable,
    ensures
        delta_of(facts) == Delta::NotConsolidatedButFastForwardable,
{
}

/// A branch that was found and for which no check holds, be it that the
/// answer was no or that the check could not be answered, is not
/// consolidated.
pub proof fn lemma_nothing_holds(facts: BranchFacts)
    requires
        facts.found,
        !facts.same_commit,
        !facts.merged,
        !facts.equal_content,
        !facts.fast_forwardable,
    ensures
        delta_of(facts) == Delta::NotConsolidated,
        Classifier::Lookup.spec_resolved(true).spec_answered(false).spec_answered(
            false,
        ).spec_answered(false) == Classifier::Asking(Check::FastForward),
        Classifier::Asking(Check::FastForward).spec_answered(false) == Classifier::Settled(
            Delta::NotConsolidated,
        ),
{
}

} // verus!
