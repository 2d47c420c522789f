//! The data a scan produces: repositories, the qualitative difference between
//! HEAD and a branch, and the per-repository result handed to presentation.
use std::sync::Arc;
use vstd::prelude::*;
use vstd::string::*;

verus! {

/// A qualitative difference between HEAD and a target branch.
///
/// The variants are listed in evaluation priority: the first one that applies
/// to a branch is the one reported for it.
#[derive(Clone, Copy, Debug, PartialEq, Eq, Structural)]
pub enum Delta {
    /// HEAD and the branch tip are the identical commit.
    ConsolidatedBySameCommit,
    /// The branch's first-parent history holds a commit with HEAD among its parents.
    ConsolidatedByMergeCommit,
    /// The trees of HEAD and of the branch tip do not differ.
    ConsolidatedByEqualContent,
    /// HEAD is an ancestor of the branch tip.
    NotConsolidatedButFastForwardable,
    /// None of the consolidation mechanisms applies.
    NotConsolidated,
    /// No local or remote-tracking branch of that name exists.
    BranchNotFound,
}

impl Delta {
    /// The name of the delta.
    pub open spec fn name(self) -> Seq<char> {
        match self {
            Delta::ConsolidatedBySameCommit => "ConsolidatedBySameCommit"@,
            Delta::ConsolidatedByMergeCommit => "ConsolidatedByMergeCommit"@,
            Delta::ConsolidatedByEqualContent => "ConsolidatedByEqualContent"@,
            Delta::NotConsolidatedButFastForwardable => "NotConsolidatedButFastForwardable"@,
            Delta::NotConsolidated => "NotConsolidated"@,
            Delta::BranchNotFound => "BranchNotFound"@,
        }
    }

    /// The name of the delta as text.
    pub fn to_string(&self) -> (text: String)
        ensures
            text@ == self.name(),
    {
        match self {
            Delta::ConsolidatedBySameCommit => String::from_str("ConsolidatedBySameCommit"),
            Delta::ConsolidatedByMergeCommit => String::from_str("ConsolidatedByMergeCommit"),
            Delta::ConsolidatedByEqualContent => String::from_str("ConsolidatedByEqualContent"),
            Delta::NotConsolidatedButFastForwardable => String::from_str(
                "NotConsolidatedButFastForwardable",
            ),
            Delta::NotConsolidated => String::from_str("NotConsolidated"),
            Delta::BranchNotFound => String::from_str("BranchNotFound"),
        }
    }
}

/// A commit count measured from the merge base, or the reason it could not be had.
pub type Distance = Result<u32, String>;

/// The mathematical value of a [`Distance`].
pub open spec fn distance_view(d: Distance) -> Result<u32, Seq<char>> {
    match d {
        Ok(n) => Ok(n),
        Err(message) => Err(message@),
    }
}

/// The outcome of comparing HEAD against one branch.
#[derive(Debug)]
pub struct BranchDelta {
    pub branch_name: String,
    pub delta: Delta,
    pub distance_head_to_merge_base: Result<u32, String>,
    pub distance_target_to_merge_base: Result<u32, String>,
}

/// The mathematical value of a [`BranchDelta`].
pub struct BranchDeltaView {
    pub branch_name: Seq<char>,
    pub delta: Delta,
    pub distance_head_to_merge_base: Result<u32, Seq<char>>,
    pub distance_target_to_merge_base: Result<u32, Seq<char>>,
}

impl View for BranchDelta {
    type V = BranchDeltaView;

    open spec fn view(&self) -> BranchDeltaView {
        BranchDeltaView {
            branch_name: self.branch_name@,
            delta: self.delta,
            distance_head_to_merge_base: distance_view(self.distance_head_to_merge_base),
            distance_target_to_merge_base: distance_view(self.distance_target_to_merge_base),
        }
    }
}

/// The deltas of a sequence of branch results, in order.
pub open spec fn deltas_of(deltas: Seq<BranchDelta>) -> Seq<Delta> {
    deltas.map(|_i: int, b: BranchDelta| b.delta)
}

/// The mathematical values of a sequence of branch results, in order.
pub open spec fn branch_views(deltas: Seq<BranchDelta>) -> Seq<BranchDeltaView> {
    deltas.map(|_i: int, b: BranchDelta| b@)
}

/// A copy of a distance.
pub fn clone_distance(d: &Result<u32, String>) -> (r: Result<u32, String>)
    ensures
        distance_view(r) == distance_view(*d),
{
    match d {
        Ok(n) => Ok(*n),
        Err(message) => Err(message.clone()),
    }
}

impl Clone for BranchDelta {
    fn clone(&self) -> (r: BranchDelta)
        ensures
            r@ == self@,
    {
        BranchDelta {
            branch_name: self.branch_name.clone(),
            delta: self.delta,
            distance_head_to_merge_base: clone_distance(&self.distance_head_to_merge_base),
            distance_target_to_merge_base: clone_distance(&self.distance_target_to_merge_base),
        }
    }
}

impl BranchDelta {
    /// The result for a branch that exists neither locally nor as a
    /// remote-tracking branch: both distances are zero, nothing is measured.
    pub fn not_found(branch_name: String) -> (r: BranchDelta)
        ensures
            r@ == (BranchDeltaView {
                branch_name: branch_name@,
                delta: Delta::BranchNotFound,
                distance_head_to_merge_base: Ok(0u32),
                distance_target_to_merge_base: Ok(0u32),
            }),
    {
        BranchDelta {
            branch_name,
            delta: Delta::BranchNotFound,
            distance_head_to_merge_base: Ok(0),
            distance_target_to_merge_base: Ok(0),
        }
    }
}

/// A local git repository.
#[derive(Debug)]
pub struct Repo {
    /// Absolute path of the repository on disk.
    pub abs_path: String,
    /// Path relative to the root of the checkout.
    pub rel_path: String,
    /// Display name: the final segment of `abs_path`.
    pub description: String,
}

/// The mathematical value of a [`Repo`].
pub struct RepoView {
    pub abs_path: Seq<char>,
    pub rel_path: Seq<char>,
    pub description: Seq<char>,
}

impl View for Repo {
    type V = RepoView;

    open spec fn view(&self) -> RepoView {
        RepoView {
            abs_path: self.abs_path@,
            rel_path: self.rel_path@,
            description: self.description@,
        }
    }
}

/// A repository together with the results for each requested branch, in the
/// order in which the branches were requested.
pub struct RepoBranchDeltas {
    pub repo: Arc<Repo>,
    pub deltas: Vec<BranchDelta>,
}

/// The mathematical value of a [`RepoBranchDeltas`].
pub struct RepoBranchDeltasView {
    pub repo: RepoView,
    pub deltas: Seq<BranchDeltaView>,
}

impl View for RepoBranchDeltas {
    type V = RepoBranchDeltasView;

    open spec fn view(&self) -> RepoBranchDeltasView {
        RepoBranchDeltasView { repo: self.repo@, deltas: branch_views(self.deltas@) }
    }
}

/// The mathematical values of a model, in order.
pub open spec fn model_views(model: Seq<RepoBranchDeltas>) -> Seq<RepoBranchDeltasView> {
    model.map(|_i: int, r: RepoBranchDeltas| r@)
}

/// A copy of a sequence of branch results.
pub fn clone_deltas(deltas: &Vec<BranchDelta>) -> (r: Vec<BranchDelta>)
    ensures
        branch_views(r@) == branch_views(deltas@),
{
    let mut copy: Vec<BranchDelta> = Vec::new();
    let mut i: usize = 0;
    while i < deltas.len()
        invariant
            i <= deltas.len(),
            copy.len() == i,
            forall|k: int| 0 <= k < i ==> copy[k]@ == deltas[k]@,
        decreases deltas.len() - i,
    {
        copy.push(deltas[i].clone());
        i += 1;
    }
    assert(branch_views(copy@) =~= branch_views(deltas@));
    copy
}

impl Clone for RepoBranchDeltas {
    fn clone(&self) -> (r: RepoBranchDeltas)
        ensures
            r.repo == self.repo,
            branch_views(r.deltas@) == branch_views(self.deltas@),
    {
        RepoBranchDeltas { repo: self.repo.clone(), deltas: clone_deltas(&self.deltas) }
    }
}

/// Which repositories a scan retains.
///
/// Each toggle names the delta that it lets through.
pub struct Filter {
    pub include_consolidated_by_same_commit: bool,
    pub include_consolidated_by_merge_commit: bool,
    pub include_consolidated_by_equal_content: bool,
    pub include_non_consolidated: bool,
    pub include_non_consolidated_but_ff_able: bool,
    pub include_branch_not_found: bool,
    /// Path of a file listing relative paths of repositories to skip.
    pub repo_ignore_list: Option<String>,
}

} // verus!
