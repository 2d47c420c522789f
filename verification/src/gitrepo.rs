//! What a scan reads from a repository on disk, and the three checks that
//! are answered from it.
//!
//! The repository is read through `git2`. Nothing is known in advance about
//! what a repository holds, so the functions that read promise little; what
//! is decided from the values read is decided by functions with exact
//! contracts.
use crate::classify::{Check, Classifier};
use crate::model::Delta;
use git2::{Branch, Commit, Diff, Error, Object, Oid, Reference, Repository, Revwalk, Tree};
use vstd::prelude::*;

verus! {

/// `git2::Repository`: an open repository. Its inside is not looked at.
#[verifier::external_type_specification]
#[verifier::external_body]
pub struct ExRepository(git2::Repository);

/// `git2::Reference`: a reference of a repository. Its inside is not looked at.
#[verifier::external_type_specification]
#[verifier::external_body]
pub struct ExReference<'repo>(git2::Reference<'repo>);

/// `git2::Object`: an object of a repository. Its inside is not looked at.
#[verifier::external_type_specification]
#[verifier::external_body]
pub struct ExObject<'repo>(git2::Object<'repo>);

/// `git2::Branch`: a branch of a repository. Its inside is not looked at.
#[verifier::external_type_specification]
#[verifier::external_body]
pub struct ExBranch<'repo>(git2::Branch<'repo>);

/// `git2::Commit`: a commit of a repository. Its inside is not looked at.
#[verifier::external_type_specification]
#[verifier::external_body]
pub struct ExCommit<'repo>(git2::Commit<'repo>);

/// `git2::Tree`: a tree of a repository. Its inside is not looked at.
#[verifier::external_type_specification]
#[verifier::external_body]
pub struct ExTree<'repo>(git2::Tree<'repo>);

/// `git2::Revwalk`: a walk over the history of a repository. Its inside is not looked at.
#[verifier::external_type_specification]
#[verifier::external_body]
pub struct ExRevwalk<'repo>(git2::Revwalk<'repo>);

/// `git2::Diff`: the difference between two trees. Its inside is not looked at.
#[verifier::external_type_specification]
#[verifier::external_body]
pub struct ExDiff<'repo>(git2::Diff<'repo>);

/// `git2::Oid`: the id of an object. Its inside is not looked at.
#[verifier::external_type_specification]
#[verifier::external_body]
pub struct ExOid(git2::Oid);

/// `git2::Error`: an error that `git2` reports. Its inside is not looked at.
#[verifier::external_type_specification]
#[verifier::external_body]
pub struct ExError(git2::Error);

/// The bytes that an id holds.
pub uninterp spec fn oid_bytes(id: Oid) -> Seq<u8>;

/// The ids of the parents that a commit holds, in their order, each as the
/// bytes that it holds.
pub uninterp spec fn commit_parents(commit: Commit) -> Seq<Seq<u8>>;

/// The name of a git object as plain bytes.
#[derive(Debug)]
pub struct ObjectId {
    pub bytes: Vec<u8>,
}

impl View for ObjectId {
    type V = Seq<u8>;

    open spec fn view(&self) -> Seq<u8> {
        self.bytes@
    }
}

impl ObjectId {
    /// Whether two ids name the same object.
    pub fn same(&self, other: &ObjectId) -> (r: bool)
        ensures
            r == (self@ == other@),
    {
        if self.bytes.len() != other.bytes.len() {
            return false;
        }
        let mut i: usize = 0;
        while i < self.bytes.len()
            invariant
                i <= self.bytes.len(),
                self.bytes.len() == other.bytes.len(),
                forall|k: int| 0 <= k < i ==> self.bytes[k] == other.bytes[k],
            decreases self.bytes.len() - i,
        {
            if self.bytes[i] != other.bytes[i] {
                return false;
            }
            i += 1;
        }
        assert(self@ =~= other@);
        true
    }
}

/// The views of a sequence of ids.
pub open spec fn id_views(ids: Seq<ObjectId>) -> Seq<Seq<u8>> {
    ids.map(|_i: int, id: ObjectId| id@)
}

/// Whether `head` is one of `parents`.
pub fn has_parent(parents: &Vec<ObjectId>, head: &ObjectId) -> (r: bool)
    ensures
        r == id_views(parents@).contains(head@),
{
    let mut i: usize = 0;
    while i < parents.len()
        invariant
            i <= parents.len(),
            forall|k: int| 0 <= k < i ==> id_views(parents@)[k] != head@,
        decreases parents.len() - i,
    {
        if parents[i].same(head) {
            assert(id_views(parents@)[i as int] == head@);
            return true;
        }
        i += 1;
    }
    false
}

/// Where a branch is looked for.
#[derive(Clone, Copy, Debug, PartialEq, Eq, Structural)]
pub enum BranchKind {
    Local,
    Remote,
}

/// The kind of object a reference is peeled to.
#[derive(Clone, Copy, Debug, PartialEq, Eq, Structural)]
pub enum PeelTarget {
    Commit,
    Tree,
}

/// The step of reading a repository that failed.
#[derive(Clone, Copy, Debug, PartialEq, Eq, Structural)]
pub enum GitStep {
    /// The repository has no HEAD.
    ResolveHead,
    /// HEAD does not lead to a commit.
    PeelHeadToCommit,
    /// The branch does not lead to a commit.
    PeelBranchToCommit,
    /// No walk over the history could be set up.
    CreateWalk,
    /// The branch tip could not be made the start of the walk.
    StartWalk,
    /// A commit on the walk could not be read.
    FindCommit,
    /// HEAD does not lead to a tree.
    PeelHeadToTree,
    /// The branch does not lead to a tree.
    PeelBranchToTree,
    /// The two trees could not be compared.
    DiffTrees,
}

/// A failure to read what a check needs from a repository that was opened.
#[derive(Debug)]
pub struct GitFailure {
    /// The step that failed.
    pub step: GitStep,
    /// What `git2` reported.
    pub message: String,
}

/// `git2::Repository::open`: opens the repository at `path`. Whether it
/// succeeds depends on what is on disk, so nothing is claimed of the result.
#[verifier::external_body]
fn git_open(path: &str) -> (r: Result<Repository, Error>) {
    Repository::open(path)
}

/// `git2::Repository::head`: the reference HEAD points to. Nothing is claimed
/// of the result.
#[verifier::external_body]
fn git_head<'r>(repo: &'r Repository) -> (r: Result<Reference<'r>, Error>) {
    repo.head()
}

/// `git2::Repository::find_branch`: looks a branch up by its short name among
/// the local or the remote-tracking branches. Nothing is claimed of the result.
#[verifier::external_body]
fn git_find_branch<'r>(repo: &'r Repository, name: &str, kind: BranchKind) -> (r: Result<
    Branch<'r>,
    Error,
>) {
    let branch_type = match kind {
        BranchKind::Local => git2::BranchType::Local,
        BranchKind::Remote => git2::BranchType::Remote,
    };
    repo.find_branch(name, branch_type)
}

/// `git2::Branch::get`: the reference that the branch is.
#[verifier::external_body]
fn git_branch_reference<'a, 'r>(branch: &'a Branch<'r>) -> (r: &'a Reference<'r>) {
    branch.get()
}

/// `git2::Reference::peel`: follows the reference to an object of the kind
/// asked for. Nothing is claimed of the result.
#[verifier::external_body]
fn git_peel<'r>(reference: &Reference<'r>, target: PeelTarget) -> (r: Result<Object<'r>, Error>) {
    let kind = match target {
        PeelTarget::Commit => git2::ObjectType::Commit,
        PeelTarget::Tree => git2::ObjectType::Tree,
    };
    reference.peel(kind)
}

/// `git2::Object::id`: the id of the object. Nothing is claimed of the
/// result.
#[verifier::external_body]
fn git_object_id(object: &Object) -> (id: Oid) {
    object.id()
}

/// `git2::Oid::as_bytes`: the bytes of the id. They depend on the id
/// alone; the contract names them [`oid_bytes`], and claims that there are
/// 20 of them, which is the length that the function documents.
#[verifier::external_body]
fn git_oid_bytes(id: &Oid) -> (bytes: Vec<u8>)
    ensures
        bytes@ == oid_bytes(*id),
        bytes@.len() == 20,
{
    id.as_bytes().to_vec()
}

/// `git2::Object::as_tree`: the object as a tree, none if it is no tree.
/// Nothing is claimed of the result.
#[verifier::external_body]
fn git_as_tree<'a, 'r>(object: &'a Object<'r>) -> (tree: Option<&'a Tree<'r>>) {
    object.as_tree()
}

/// `git2::Repository::revwalk`: a new walk over the history. Nothing is
/// claimed of the result.
#[verifier::external_body]
fn git_revwalk<'r>(repo: &'r Repository) -> (r: Result<Revwalk<'r>, Error>) {
    repo.revwalk()
}

/// `git2::Revwalk::push`: makes the commit of that id the start of the
/// walk. Nothing is claimed of the result.
#[verifier::external_body]
fn git_walk_push(walk: &mut Revwalk, tip: Oid) -> (r: Result<(), Error>) {
    walk.push(tip)
}

/// `git2::Revwalk::simplify_first_parent`: restricts the walk to first
/// parents. Nothing is claimed of the result.
#[verifier::external_body]
fn git_walk_first_parents(walk: &mut Revwalk) -> (r: Result<(), Error>) {
    walk.simplify_first_parent()
}

/// `git2::Revwalk::set_sorting` with `git2::Sort::TIME`: orders the walk by
/// commit time. Nothing is claimed of the result.
#[verifier::external_body]
fn git_walk_by_time(walk: &mut Revwalk) -> (r: Result<(), Error>) {
    walk.set_sorting(git2::Sort::TIME)
}

/// `git2::Revwalk::next`: the id of the next commit on the walk, `None` at
/// its end. Nothing is claimed of the result.
#[verifier::external_body]
fn git_walk_next(walk: &mut Revwalk) -> (r: Option<Result<Oid, Error>>) {
    walk.next()
}

/// `git2::Repository::find_commit`: the commit of that id. Nothing is claimed
/// of the result.
#[verifier::external_body]
fn git_find_commit<'r>(repo: &'r Repository, id: Oid) -> (r: Result<Commit<'r>, Error>) {
    repo.find_commit(id)
}

/// `git2::Commit::parent_ids`: the ids of the parents of the commit, in
/// order. They depend on the commit alone; the contract names their bytes
/// [`commit_parents`].
#[verifier::external_body]
fn git_parent_ids(commit: &Commit) -> (ids: Vec<Oid>)
    ensures
        ids@.len() == commit_parents(*commit).len(),
        forall|i: int|
            0 <= i < ids@.len() ==> oid_bytes(#[trigger] ids@[i]) == commit_parents(*commit)[i],
{
    commit.parent_ids().collect()
}

/// `git2::Repository::diff_tree_to_tree` without options: the difference
/// between two trees. Nothing is claimed of the result.
#[verifier::external_body]
fn git_diff_trees<'r>(repo: &'r Repository, old: Option<&Tree>, new: Option<&Tree>) -> (r: Result<
    Diff<'r>,
    Error,
>) {
    repo.diff_tree_to_tree(old, new, None)
}

/// `git2::Diff::deltas`: the number of entries that differ. Nothing is
/// claimed of the result.
#[verifier::external_body]
fn git_diff_size(diff: &Diff) -> (n: usize) {
    diff.deltas().count()
}

/// The text that `git2::Error` displays. Nothing is claimed of the result.
#[verifier::external_body]
fn git_error_text(error: &Error) -> (text: String) {
    error.to_string()
}

/// The failure of `step` with what `git2` reported.
fn failure(step: GitStep, error: &Error) -> (f: GitFailure)
    ensures
        f.step == step,
{
    GitFailure { step, message: git_error_text(error) }
}

/// The id of an object as plain bytes.
fn object_id(object: &Object) -> (id: ObjectId)
    ensures
        id@.len() == 20,
{
    let oid = git_object_id(object);
    ObjectId { bytes: git_oid_bytes(&oid) }
}

/// The ids of the parents of a commit as plain bytes, in order.
fn parent_ids(commit: &Commit) -> (ids: Vec<ObjectId>)
    ensures
        id_views(ids@) == commit_parents(*commit),
        forall|i: int| 0 <= i < ids.len() ==> (#[trigger] ids[i])@.len() == 20,
{
    let oids = git_parent_ids(commit);
    let mut ids: Vec<ObjectId> = Vec::new();
    let mut i: usize = 0;
    while i < oids.len()
        invariant
            i <= oids.len(),
            ids.len() == i,
            oids@.len() == commit_parents(*commit).len(),
            forall|k: int|
                0 <= k < oids@.len() ==> oid_bytes(#[trigger] oids@[k]) == commit_parents(
                    *commit,
                )[k],
            forall|k: int| 0 <= k < ids.len() ==> (#[trigger] ids[k])@ == commit_parents(
                *commit,
            )[k],
            forall|k: int| 0 <= k < ids.len() ==> (#[trigger] ids[k])@.len() == 20,
        decreases oids.len() - i,
    {
        ids.push(ObjectId { bytes: git_oid_bytes(&oids[i]) });
        i += 1;
    }
    assert(id_views(ids@) =~= commit_parents(*commit));
    ids
}

/// Opens the repository at `path`, or says why it cannot be opened.
pub fn open_repository(path: &str) -> (r: Result<Repository, String>) {
    match git_open(path) {
        Ok(repo) => Ok(repo),
        Err(error) => Err(git_error_text(&error)),
    }
}

/// The id of the commit that HEAD points to.
pub fn head_commit(git_repo: &Repository) -> (r: Result<ObjectId, GitFailure>)
    ensures
        match r {
            Ok(id) => id@.len() == 20,
            Err(f) => f.step == GitStep::ResolveHead || f.step == GitStep::PeelHeadToCommit,
        },
{
    match git_head(git_repo) {
        Err(error) => Err(failure(GitStep::ResolveHead, &error)),
        Ok(head) => match git_peel(&head, PeelTarget::Commit) {
            Err(error) => Err(failure(GitStep::PeelHeadToCommit, &error)),
            Ok(object) => Ok(object_id(&object)),
        },
    }
}

/// Where a branch is looked for next: among the local branches first,
/// among the remote-tracking branches after the local lookup failed, and
/// nowhere after that.
pub fn lookup_after(failed: Option<BranchKind>) -> (next: Option<BranchKind>)
    ensures
        next == match failed {
            None => Some(BranchKind::Local),
            Some(BranchKind::Local) => Some(BranchKind::Remote),
            Some(BranchKind::Remote) => None,
        },
{
    match failed {
        None => Some(BranchKind::Local),
        Some(BranchKind::Local) => Some(BranchKind::Remote),
        Some(BranchKind::Remote) => None,
    }
}

/// Looks a branch up by name, in the places and the order that
/// [`lookup_after`] gives: the first lookup that succeeds gives the branch,
/// so a local branch wins over a remote-tracking one of the same name, and
/// there is no branch only if every lookup failed.
pub fn find_branch<'r>(git_repo: &'r Repository, branch_name: &str) -> (r: Option<Branch<'r>>) {
    let mut failed: Option<BranchKind> = None;
    let mut lookups: u8 = 0;
    while lookups < 2
        invariant
            lookups <= 2,
            failed == if lookups == 0 {
                None::<BranchKind>
            } else if lookups == 1 {
                Some(BranchKind::Local)
            } else {
                Some(BranchKind::Remote)
            },
        decreases 2 - lookups,
    {
        match lookup_after(failed) {
            None => {
                return None;
            },
            Some(kind) => match git_find_branch(git_repo, branch_name, kind) {
                Ok(branch) => {
                    return Some(branch);
                },
                Err(_) => {
                    failed = Some(kind);
                },
            },
        }
        lookups += 1;
    }
    None
}

/// Whether the tip of `branch` is the commit `head`.
pub fn consolidated_by_same_commit(head: &ObjectId, branch: &Branch) -> (r: Result<
    bool,
    GitFailure,
>)
    ensures
        r matches Err(f) ==> f.step == GitStep::PeelBranchToCommit,
{
    match git_peel(git_branch_reference(branch), PeelTarget::Commit) {
        Err(error) => Err(failure(GitStep::PeelBranchToCommit, &error)),
        Ok(tip) => {
            let tip_id = object_id(&tip);
            Ok(head.same(&tip_id))
        },
    }
}

/// Whether a commit on the first-parent history of `branch` has `head` among
/// its parents. The history is walked from the tip, most recent commit first,
/// and the walk ends at the first such commit; it visits at most `usize::MAX`
/// commits.
pub fn consolidated_by_merge(git_repo: &Repository, head: &ObjectId, branch: &Branch) -> (r: Result<
    bool,
    GitFailure,
>)
    ensures
        r matches Err(f) ==> f.step == GitStep::PeelBranchToCommit || f.step == GitStep::CreateWalk
            || f.step == GitStep::StartWalk || f.step == GitStep::FindCommit,
{
    let tip = match git_peel(git_branch_reference(branch), PeelTarget::Commit) {
        Err(error) => { return Err(failure(GitStep::PeelBranchToCommit, &error)); },
        Ok(tip) => tip,
    };
    let mut walk = match git_revwalk(git_repo) {
        Err(error) => { return Err(failure(GitStep::CreateWalk, &error)); },
        Ok(walk) => walk,
    };
    match git_walk_push(&mut walk, git_object_id(&tip)) {
        Err(error) => { return Err(failure(GitStep::StartWalk, &error)); },
        Ok(_) => {},
    }
    // A walk that cannot be narrowed or ordered is walked as it is.
    let _ = git_walk_first_parents(&mut walk);
    let _ = git_walk_by_time(&mut walk);

    let mut visited: usize = 0;
    while visited < usize::MAX
        invariant
            visited <= usize::MAX,
        decreases usize::MAX - visited,
    {
        let commit = match git_walk_next(&mut walk) {
            None => { return Ok(false); },
            Some(Err(error)) => { return Err(failure(GitStep::FindCommit, &error)); },
            Some(Ok(id)) => match git_find_commit(git_repo, id) {
                Err(error) => { return Err(failure(GitStep::FindCommit, &error)); },
                Ok(commit) => commit,
            },
        };
        let parents = parent_ids(&commit);
        if has_parent(&parents, head) {
            return Ok(true);
        }
        visited += 1;
    }
    Ok(false)
}

/// Whether a diff with `entries` differing entries shows equal content.
pub fn no_difference(entries: usize) -> (r: bool)
    ensures
        r == (entries == 0),
{
    entries == 0
}

/// Whether the tree of HEAD and the tree of `branch` hold the same content.
pub fn consolidated_by_equal_content(git_repo: &Repository, branch: &Branch) -> (r: Result<
    bool,
    GitFailure,
>)
    ensures
        r matches Err(f) ==> f.step == GitStep::ResolveHead || f.step == GitStep::PeelHeadToTree
            || f.step == GitStep::PeelBranchToTree || f.step == GitStep::DiffTrees,
{
    let head = match git_head(git_repo) {
        Err(error) => { return Err(failure(GitStep::ResolveHead, &error)); },
        Ok(head) => head,
    };
    let head_tree = match git_peel(&head, PeelTarget::Tree) {
        Err(error) => { return Err(failure(GitStep::PeelHeadToTree, &error)); },
        Ok(tree) => tree,
    };
    let branch_tree = match git_peel(git_branch_reference(branch), PeelTarget::Tree) {
        Err(error) => { return Err(failure(GitStep::PeelBranchToTree, &error)); },
        Ok(tree) => tree,
    };
    match git_diff_trees(git_repo, git_as_tree(&head_tree), git_as_tree(&branch_tree)) {
        Err(error) => Err(failure(GitStep::DiffTrees, &error)),
        Ok(diff) => Ok(no_difference(git_diff_size(&diff))),
    }
}

/// The deltas that can be settled from the repository alone.
pub open spec fn settled_in_process(delta: Delta) -> bool {
    delta == Delta::BranchNotFound || delta == Delta::ConsolidatedBySameCommit || delta
        == Delta::ConsolidatedByMergeCommit || delta == Delta::ConsolidatedByEqualContent
}

/// The answer that counts for a check, given how asking it went: the check
/// holds only if it could be asked and was answered with yes. A check that
/// could not be asked, because HEAD cannot be read, and one whose answer
/// could not be read from the repository count as not holding.
pub fn answer_of(asked: Option<Result<bool, GitFailure>>) -> (holds: bool)
    ensures
        holds == match asked {
            Some(Ok(answer)) => answer,
            _ => false,
        },
{
    match asked {
        Some(Ok(answer)) => answer,
        _ => false,
    }
}

/// Classifies the branch `branch_name` against `head` as far as the
/// repository itself can tell: looks the branch up and asks the checks in
/// their order until one holds, each answer counted as [`answer_of`] says.
/// Nothing that the repository holds makes the classification fail: the
/// classifier comes back settled, or waiting for the answer to
/// `Check::FastForward`, which the repository alone does not give. `head`
/// is the commit that HEAD points to, none if HEAD cannot be read.
pub fn classify_in_process(git_repo: &Repository, head: Option<&ObjectId>, branch_name: &str) -> (state:
    Classifier)
    ensures
        state == Classifier::Asking(Check::FastForward) || exists|delta: Delta|
            settled_in_process(delta) && state == Classifier::Settled(delta),
{
    let start = Classifier::start();
    let branch = match find_branch(git_repo, branch_name) {
        None => {
            let state = start.resolved(false);
            assert(settled_in_process(Delta::BranchNotFound));
            return state;
        },
        Some(branch) => branch,
    };
    let mut state = start.resolved(true);
    let mut asked: u8 = 0;
    while asked < 3
        invariant
            asked <= 3,
            match state {
                Classifier::Asking(check) => check.rank() == asked,
                Classifier::Settled(delta) => settled_in_process(delta),
                Classifier::Lookup => false,
            },
        decreases 3 - asked,
    {
        match state.pending() {
            None => {
                return state;
            },
            Some(check) => {
                let outcome = match check {
                    Check::SameCommit => match head {
                        Some(head) => Some(consolidated_by_same_commit(head, &branch)),
                        None => None,
                    },
                    Check::MergeCommit => match head {
                        Some(head) => Some(consolidated_by_merge(git_repo, head, &branch)),
                        None => None,
                    },
                    Check::EqualContent => Some(consolidated_by_equal_content(git_repo, &branch)),
                    Check::FastForward => {
                        return state;
                    },
                };
                state = state.answered(answer_of(outcome));
            },
        }
        asked += 1;
    }
    state
}

} // verus!
