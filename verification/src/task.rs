//! The work on one repository from the ignore list to its place in the
//! model, and the assembly of the model from the finished tasks.
use crate::gitrepo::{classify_in_process, head_commit, open_repository, ObjectId};
use crate::model::{branch_views, deltas_of, BranchDelta, Filter, Repo, RepoBranchDeltas};
use crate::scan::{Reply, Request, Scan, ScanView, StageView};
use crate::text::text_views;
use git2::Repository;
use std::sync::Arc;
use vstd::prelude::*;
use vstd::string::*;

verus! {

/// Upper bound on the number of worker threads of a scan. Beyond it a scan
/// of many repositories gets slower again.
pub const MAX_NUMBER_OF_THREADS: usize = 18;

/// `num_cpus::get`: the number of logical cores of this machine. The number
/// differs from machine to machine; the contract claims only that it is at
/// least one, as the function documents.
#[verifier::external_body]
fn available_cores() -> (n: usize)
    ensures
        n >= 1,
{
    num_cpus::get()
}

/// The number of workers on a machine with `available` logical cores: as
/// many as there are cores, but no more than [`MAX_NUMBER_OF_THREADS`].
pub fn worker_count_for(available: usize) -> (n: usize)
    ensures
        n == if available <= MAX_NUMBER_OF_THREADS {
            available
        } else {
            MAX_NUMBER_OF_THREADS
        },
{
    if available <= MAX_NUMBER_OF_THREADS {
        available
    } else {
        MAX_NUMBER_OF_THREADS
    }
}

/// The number of workers on this machine: as many as it has logical
/// cores, so at least one, but no more than [`MAX_NUMBER_OF_THREADS`].
pub fn worker_count() -> (n: usize)
    ensures
        1 <= n <= MAX_NUMBER_OF_THREADS,
{
    worker_count_for(available_cores())
}

/// Whether `rel_path` is on the ignore list.
pub fn is_ignored(ignore_list: &Vec<String>, rel_path: &String) -> (ignored: bool)
    ensures
        ignored == text_views(ignore_list@).contains(rel_path@),
{
    let mut i: usize = 0;
    while i < ignore_list.len()
        invariant
            i <= ignore_list.len(),
            forall|k: int| 0 <= k < i ==> text_views(ignore_list@)[k] != rel_path@,
        decreases ignore_list.len() - i,
    {
        if ignore_list[i] == *rel_path {
            assert(text_views(ignore_list@)[i as int] == rel_path@);
            return true;
        }
        i += 1;
    }
    false
}

/// Where the task of one repository stands.
#[derive(Clone, Copy, Debug, PartialEq, Eq, Structural)]
pub enum TaskState {
    /// Nothing has happened yet.
    Pending,
    /// The repository is on the ignore list. It is not scanned.
    Ignored,
    /// The repository is being opened.
    Opening,
    /// The repository could not be opened. It is left out of the model.
    OpenFailed,
    /// The branches are being classified.
    Classifying,
    /// The filter did not retain the repository.
    FilteredOut,
    /// The repository is part of the model.
    Included,
}

/// What happens to a task.
#[derive(Clone, Copy, Debug, PartialEq, Eq, Structural)]
pub enum TaskEvent {
    /// The ignore list was consulted; the repository is on it, or not.
    Consulted { ignored: bool },
    /// The attempt to open the repository ended; it succeeded, or not.
    Opened { success: bool },
    /// All branches are classified; the filter retains the repository, or not.
    Classified { retained: bool },
}

impl TaskState {
    /// No event changes this state.
    pub open spec fn spec_is_terminal(self) -> bool {
        self == TaskState::Ignored || self == TaskState::OpenFailed || self
            == TaskState::FilteredOut || self == TaskState::Included
    }

    /// Whether no event changes this state.
    #[verifier::when_used_as_spec(spec_is_terminal)]
    pub fn is_terminal(self) -> (r: bool)
        ensures
            r == self.spec_is_terminal(),
    {
        match self {
            TaskState::Ignored | TaskState::OpenFailed | TaskState::FilteredOut
            | TaskState::Included => true,
            _ => false,
        }
    }

    /// The state after `event`. An event that does not belong to the state
    /// leaves it as it is.
    pub open spec fn spec_on(self, event: TaskEvent) -> TaskState {
        match (self, event) {
            (TaskState::Pending, TaskEvent::Consulted { ignored }) => if ignored {
                TaskState::Ignored
            } else {
                TaskState::Opening
            },
            (TaskState::Opening, TaskEvent::Opened { success }) => if success {
                TaskState::Classifying
            } else {
                TaskState::OpenFailed
            },
            (TaskState::Classifying, TaskEvent::Classified { retained }) => if retained {
                TaskState::Included
            } else {
                TaskState::FilteredOut
            },
            _ => self,
        }
    }

    /// The state after `event`.
    #[verifier::when_used_as_spec(spec_on)]
    pub fn on(self, event: TaskEvent) -> (next: TaskState)
        ensures
            next == self.spec_on(event),
    {
        match (self, event) {
            (TaskState::Pending, TaskEvent::Consulted { ignored }) => if ignored {
                TaskState::Ignored
            } else {
                TaskState::Opening
            },
            (TaskState::Opening, TaskEvent::Opened { success }) => if success {
                TaskState::Classifying
            } else {
                TaskState::OpenFailed
            },
            (TaskState::Classifying, TaskEvent::Classified { retained }) => if retained {
                TaskState::Included
            } else {
                TaskState::FilteredOut
            },
            _ => self,
        }
    }

    /// The state after a sequence of events.
    pub open spec fn after(self, events: Seq<TaskEvent>) -> TaskState
        decreases events.len(),
    {
        if events.len() == 0 {
            self
        } else {
            self.spec_on(events[0]).after(events.subrange(1, events.len() as int))
        }
    }

    /// The repository is being scanned.
    pub open spec fn spec_is_scanning(self) -> bool {
        self == TaskState::Opening || self == TaskState::Classifying
    }

    /// Whether the repository is being scanned, so that its worker shows its
    /// path; in any other state the worker shows that it is idle.
    #[verifier::when_used_as_spec(spec_is_scanning)]
    pub fn is_scanning(self) -> (r: bool)
        ensures
            r == self.spec_is_scanning(),
    {
        match self {
            TaskState::Opening | TaskState::Classifying => true,
            _ => false,
        }
    }
}

/// What the worker of a task shows while the task is in `state`: the path
/// of the repository while it is scanned, and that it is idle otherwise.
pub fn worker_message(state: TaskState, rel_path: &str) -> (text: String)
    ensures
        text@ == if state.spec_is_scanning() {
            "Scanning "@ + rel_path@
        } else {
            "Idle"@
        },
{
    if state.is_scanning() {
        let mut text = String::from_str("Scanning ");
        text.append(rel_path);
        text
    } else {
        String::from_str("Idle")
    }
}

/// The line that reports a repository that is left out: what failed, the
/// path of the repository, and the error.
pub fn failure_line(context: &str, rel_path: &str, error: &str) -> (text: String)
    ensures
        text@ == context@ + ": "@ + rel_path@ + ": "@ + error@,
{
    let mut text = String::from_str(context);
    text.append(": ");
    text.append(rel_path);
    text.append(": ");
    text.append(error);
    text
}

/// A terminal state is final: whatever happens afterwards, the task stays
/// in it.
pub proof fn lemma_terminal_is_final(state: TaskState, events: Seq<TaskEvent>)
    requires
        state.spec_is_terminal(),
    ensures
        state.after(events) == state,
    decreases events.len(),
{
    if events.len() > 0 {
        lemma_terminal_is_final(state, events.subrange(1, events.len() as int));
    }
}

/// A repository that is on the ignore list is never part of the model,
/// whatever its branches are like: its task ends as `Ignored` at the first
/// event, and nothing that happens afterwards changes that.
pub proof fn lemma_ignored_is_never_included(later: Seq<TaskEvent>)
    ensures
        TaskState::Pending.after(seq![TaskEvent::Consulted { ignored: true }] + later)
            == TaskState::Ignored,
{
    let all = seq![TaskEvent::Consulted { ignored: true }] + later;
    assert(all.subrange(1, all.len() as int) =~= later);
    lemma_terminal_is_final(TaskState::Ignored, later);
}

/// A task ends as `Included` only if the repository was not ignored, was
/// opened, and was retained by the filter, in this order.
pub proof fn lemma_included_only_one_way(events: Seq<TaskEvent>)
    requires
        events.len() == 3,
        TaskState::Pending.after(events) == TaskState::Included,
    ensures
        events[0] == (TaskEvent::Consulted { ignored: false }),
        events[1] == (TaskEvent::Opened { success: true }),
        events[2] == (TaskEvent::Classified { retained: true }),
{
    reveal_with_fuel(TaskState::after, 4);
    let rest1 = events.subrange(1, 3);
    let rest2 = rest1.subrange(1, 2);
    let rest3 = rest2.subrange(1, 1);
    assert(rest1[0] == events[1]);
    assert(rest2[0] == events[2]);
    assert(rest3.len() == 0);
}

/// A repository that was opened, with the scan of its branches.
pub struct RepoScan {
    /// The open repository.
    pub git_repo: Repository,
    /// The commit that HEAD points to; none if HEAD cannot be read.
    pub head: Option<ObjectId>,
    /// Requests, replies and results so far.
    pub scan: Scan,
}

impl RepoScan {
    /// Opens the repository at `abs_path` and reads its HEAD, to scan
    /// `branches`. Nothing is asked of a branch yet. A repository that
    /// cannot be opened gives the reason; one whose HEAD cannot be read is
    /// scanned all the same, and the checks that need HEAD then count as
    /// not holding.
    pub fn begin(abs_path: &str, branches: Vec<String>) -> (r: Result<RepoScan, String>)
        ensures
            r matches Ok(task) ==> task.scan@ == (ScanView {
                branches: text_views(branches@),
                finished: Seq::empty(),
                stage: StageView::Inspecting,
            }) && task.scan@.wf() && (task.head matches Some(head) ==> head@.len() == 20),
    {
        let git_repo = match open_repository(abs_path) {
            Err(message) => {
                return Err(message);
            },
            Ok(git_repo) => git_repo,
        };
        let head = match head_commit(&git_repo) {
            Err(_) => None,
            Ok(head) => Some(head),
        };
        Ok(RepoScan { git_repo, head, scan: Scan::new(branches) })
    }

    /// Answers from the repository every request that it can answer, and
    /// returns the first one that it cannot: a question of ancestry or a
    /// distance, or nothing once every branch has its result. Whatever the
    /// repository holds, this succeeds.
    pub fn next_request(&mut self) -> (request: Option<Request>)
        ensures
            final(self).scan@.branches == old(self).scan@.branches,
            old(self).scan@.finished.is_prefix_of(final(self).scan@.finished),
            old(self).scan@.wf() ==> final(self).scan@.wf(),
            old(self).scan@.next_request() != Some(Request::Inspect) ==> final(self).scan@ == old(
                self,
            ).scan@,
            request == final(self).scan@.next_request(),
            request != Some(Request::Inspect),
    {
        while !self.scan.is_done()
            invariant
                self.scan@.branches == old(self).scan@.branches,
                old(self).scan@.finished.is_prefix_of(self.scan@.finished),
                old(self).scan@.wf() ==> self.scan@.wf(),
                old(self).scan@.next_request() != Some(Request::Inspect) ==> self.scan@ == old(
                    self,
                ).scan@,
            decreases self.scan@.branches.len() - self.scan@.finished.len(),
        {
            match self.scan.next_request() {
                Some(Request::Inspect) => {},
                other => {
                    return other;
                },
            }
            let state = match self.scan.current_branch() {
                None => {
                    return None;
                },
                Some(name) => classify_in_process(
                    &self.git_repo,
                    self.head.as_ref(),
                    name.as_str(),
                ),
            };
            self.scan.advance(Reply::Inspected(state));
            match self.scan.next_request() {
                Some(Request::Inspect) => {},
                other => {
                    return other;
                },
            }
        }
        None
    }

    /// Takes the reply to the request that [`RepoScan::next_request`] returned.
    pub fn reply(&mut self, reply: Reply)
        ensures
            final(self).scan@ == old(self).scan@.advance(reply@),
            old(self).scan@.wf() ==> final(self).scan@.wf(),
    {
        self.scan.advance(reply);
    }

    /// The results of all branches, once every branch has its result: one
    /// for each branch, in the order of the branches.
    pub fn into_deltas(self) -> (r: Option<Vec<BranchDelta>>)
        ensures
            match r {
                Some(deltas) => self.scan@.done() && branch_views(deltas@) == self.scan@.finished
                    && (self.scan@.wf() ==> deltas@.len() == self.scan@.branches.len()),
                None => !self.scan@.done(),
            },
    {
        if self.scan.is_done() {
            Some(self.scan.finished)
        } else {
            None
        }
    }
}

/// The result of a repository whose branches are classified: the repository
/// with its branch results if the filter retains it, nothing otherwise.
pub fn conclude(repo: Arc<Repo>, deltas: Vec<BranchDelta>, filter: &Filter) -> (r: Option<
    RepoBranchDeltas,
>)
    ensures
        match r {
            Some(result) => filter.spec_retains(deltas_of(deltas@)) && result.repo == repo
                && result.deltas == deltas,
            None => !filter.spec_retains(deltas_of(deltas@)),
        },
{
    if filter.retains(&deltas) {
        Some(RepoBranchDeltas { repo, deltas })
    } else {
        None
    }
}

/// The task of one repository: where it stands, and what it has given.
pub struct Task {
    /// The repository.
    pub repo: Arc<Repo>,
    /// Where the task stands.
    pub state: TaskState,
    /// Why the repository could not be opened, if it could not.
    pub failure: Option<String>,
    /// The result for the model, if the repository is part of it.
    pub result: Option<RepoBranchDeltas>,
}

impl Task {
    /// A task has a result exactly if it ended as `Included`, and the
    /// result is that of its repository.
    pub open spec fn wf(&self) -> bool {
        &&& self.result is Some <==> self.state == TaskState::Included
        &&& self.result matches Some(result) ==> result.repo == self.repo
        &&& self.failure is Some ==> self.state == TaskState::OpenFailed
    }

    /// The task of `repo`, with nothing done yet.
    pub fn new(repo: Arc<Repo>) -> (task: Task)
        ensures
            task.repo == repo,
            task.state == TaskState::Pending,
            task.failure is None,
            task.result is None,
            task.wf(),
    {
        Task { repo, state: TaskState::Pending, failure: None, result: None }
    }

    /// Consults the ignore list, and opens the repository if it is not on
    /// it. A repository that is on the list is not opened; the task ends as
    /// `Ignored`. One that cannot be opened ends the task as `OpenFailed`,
    /// with the reason kept. Otherwise the scan of `branches` can begin.
    /// A task that is not pending stays as it is.
    pub fn begin(&mut self, ignore_list: &Vec<String>, branches: Vec<String>) -> (r: Option<
        RepoScan,
    >)
        ensures
            final(self).repo == old(self).repo,
            final(self).result == old(self).result,
            old(self).wf() ==> final(self).wf(),
            old(self).state != TaskState::Pending ==> final(self).state == old(self).state && r
                is None,
            old(self).state == TaskState::Pending && text_views(ignore_list@).contains(
                old(self).repo.rel_path@,
            ) ==> final(self).state == TaskState::Ignored && r is None,
            old(self).state == TaskState::Pending && !text_views(ignore_list@).contains(
                old(self).repo.rel_path@,
            ) ==> match r {
                Some(task) => final(self).state == TaskState::Classifying && task.scan@
                    == (ScanView {
                    branches: text_views(branches@),
                    finished: Seq::empty(),
                    stage: StageView::Inspecting,
                }) && task.scan@.wf(),
                None => final(self).state == TaskState::OpenFailed && final(self).failure is Some,
            },
    {
        if self.state != TaskState::Pending {
            return None;
        }
        let ignored = is_ignored(ignore_list, &self.repo.rel_path);
        self.state = self.state.on(TaskEvent::Consulted { ignored });
        if ignored {
            return None;
        }
        match RepoScan::begin(self.repo.abs_path.as_str(), branches) {
            Ok(scan) => {
                self.state = self.state.on(TaskEvent::Opened { success: true });
                Some(scan)
            },
            Err(message) => {
                self.state = self.state.on(TaskEvent::Opened { success: false });
                self.failure = Some(message);
                None
            },
        }
    }

    /// Ends a task whose branches are classified: with `deltas` as its
    /// result if `filter` retains the repository, without a result if not.
    /// A task that is not classifying stays as it is.
    pub fn classified(&mut self, deltas: Vec<BranchDelta>, filter: &Filter)
        ensures
            final(self).repo == old(self).repo,
            final(self).failure == old(self).failure,
            old(self).wf() ==> final(self).wf(),
            old(self).state != TaskState::Classifying ==> *final(self) == *old(self),
            old(self).state == TaskState::Classifying ==> {
                if filter.spec_retains(deltas_of(deltas@)) {
                    final(self).state == TaskState::Included && final(self).result == Some(
                        RepoBranchDeltas { repo: old(self).repo, deltas },
                    )
                } else {
                    final(self).state == TaskState::FilteredOut && final(self).result is None
                }
            },
    {
        if self.state != TaskState::Classifying {
            return ;
        }
        let result = conclude(self.repo.clone(), deltas, filter);
        self.state = self.state.on(TaskEvent::Classified { retained: result.is_some() });
        self.result = result;
    }

    /// What the worker of the task shows.
    pub fn message(&self) -> (text: String)
        ensures
            text@ == if self.state.spec_is_scanning() {
                "Scanning "@ + self.repo.rel_path@
            } else {
                "Idle"@
            },
    {
        worker_message(self.state, self.repo.rel_path.as_str())
    }

    /// What the task gives to the model.
    pub fn into_result(self) -> (r: Option<RepoBranchDeltas>)
        ensures
            r == self.result,
    {
        self.result
    }
}

/// Only a task that ended as `Included` gives a result to the model. The
/// task of an ignored repository, of one that could not be opened and of
/// one that the filter did not retain give none.
pub proof fn lemma_only_included_gives_result(task: Task)
    requires
        task.wf(),
    ensures
        task.result is Some <==> task.state == TaskState::Included,
        task.state == TaskState::Ignored ==> task.result is None,
        task.state == TaskState::OpenFailed ==> task.result is None,
        task.state == TaskState::FilteredOut ==> task.result is None,
{
}

/// The results that are there, in their order.
pub open spec fn present(results: Seq<Option<RepoBranchDeltas>>) -> Seq<RepoBranchDeltas>
    decreases results.len(),
{
    if results.len() == 0 {
        Seq::empty()
    } else {
        match results.last() {
            Some(result) => present(results.drop_last()).push(result),
            None => present(results.drop_last()),
        }
    }
}

/// Assembles the model from the results of all tasks: the results of the
/// repositories that were retained, in the order of the tasks.
pub fn collect_model(results: Vec<Option<RepoBranchDeltas>>) -> (model: Vec<RepoBranchDeltas>)
    ensures
        model@ == present(results@),
{
    let mut results = results;
    let ghost all = results@;
    let mut model: Vec<RepoBranchDeltas> = Vec::new();
    let mut i: usize = 0;
    while i < results.len()
        invariant
            i <= results.len(),
            results@.len() == all.len(),
            forall|k: int| i <= k < all.len() ==> results@[k] == all[k],
            model@ == present(all.subrange(0, i as int)),
        decreases results.len() - i,
    {
        let mut slot: Option<RepoBranchDeltas> = None;
        std::mem::swap(&mut slot, &mut results[i]);
        proof {
            assert(all.subrange(0, i + 1).drop_last() =~= all.subrange(0, i as int));
            assert(all.subrange(0, i + 1).last() == all[i as int]);
        }
        match slot {
            Some(result) => {
                model.push(result);
            },
            None => {},
        }
        i += 1;
    }
    assert(all.subrange(0, i as int) =~= all);
    model
}

/// Scanning no repository gives an empty model, and the model never holds
/// more results than there were tasks.
pub proof fn lemma_model_size(results: Seq<Option<RepoBranchDeltas>>)
    ensures
        present(results).len() <= results.len(),
        results.len() == 0 ==> present(results) == Seq::<RepoBranchDeltas>::empty(),
    decreases results.len(),
{
    if results.len() > 0 {
        lemma_model_size(results.drop_last());
    }
}

/// The model holds exactly the results of the tasks that gave one: every
/// entry of the model is the result of a task, and a task without a result,
/// such as that of an ignored repository, adds nothing.
pub proof fn lemma_model_holds_results(results: Seq<Option<RepoBranchDeltas>>)
    ensures
        forall|result: RepoBranchDeltas|
            present(results).contains(result) <==> results.contains(Some(result)),
    decreases results.len(),
{
    if results.len() > 0 {
        let shorter = results.drop_last();
        lemma_model_holds_results(shorter);
        assert forall|result: RepoBranchDeltas|
            present(results).contains(result) <==> results.contains(Some(result)) by {
            if present(results).contains(result) {
                let i = choose|i: int|
                    0 <= i < present(results).len() && present(results)[i] == result;
                if results.last() == Some(result) {
                    assert(results[results.len() - 1] == Some(result));
                } else {
                    if results.last() is Some {
                        assert(present(results) == present(shorter).push(results.last().unwrap()));
                        assert(i < present(shorter).len());
                        assert(present(shorter)[i] == result);
                    }
                    assert(present(shorter).contains(result));
                    let j = choose|j: int| 0 <= j < shorter.len() && shorter[j] == Some(result);
                    assert(results[j] == Some(result));
                }
            }
            if results.contains(Some(result)) {
                let j = choose|j: int| 0 <= j < results.len() && results[j] == Some(result);
                if j == results.len() - 1 {
                    let model = present(results);
                    assert(model[model.len() - 1] == result);
                } else {
                    assert(shorter[j] == Some(result));
                    assert(present(shorter).contains(result));
                    let i = choose|i: int|
                        0 <= i < present(shorter).len() && present(shorter)[i] == result;
                    assert(present(results)[i] == result);
                }
            }
        }
    }
}

} // verus!
