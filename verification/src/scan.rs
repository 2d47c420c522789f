//! The scan of one repository as a sequence of requests and replies.
//!
//! Some of what a scan needs is only to be had by running a program beside
//! the repository. A [`Scan`] therefore does no work itself: it says which
//! query it needs next, takes the reply, and keeps the results of the
//! branches that are finished, in the order in which the branches were given.
use crate::classify::{delta_of, BranchFacts, Check, Classifier};
use crate::model::{branch_views, distance_view, BranchDelta, BranchDeltaView, Delta};
use crate::text::text_views;
use vstd::prelude::*;

verus! {

/// What a scan needs next for the branch it is working on.
#[derive(Clone, Copy, Debug, PartialEq, Eq, Structural)]
pub enum Request {
    /// Look the branch up and ask the checks that the repository answers.
    Inspect,
    /// Answer whether HEAD is an ancestor of the branch tip.
    Ancestry,
    /// Count the commits between the merge base and HEAD.
    HeadDistance,
    /// Count the commits between the merge base and the branch tip.
    TargetDistance,
}

/// The answer to a [`Request`].
#[derive(Debug)]
pub enum Reply {
    /// Where the classifier stands after the inspection.
    Inspected(Classifier),
    /// Whether HEAD is an ancestor of the branch tip.
    Ancestor(bool),
    /// A commit count, or the reason it could not be had.
    Measured(Result<u32, String>),
}

/// The mathematical value of a [`Reply`].
pub enum ReplyView {
    Inspected(Classifier),
    Ancestor(bool),
    Measured(Result<u32, Seq<char>>),
}

impl View for Reply {
    type V = ReplyView;

    open spec fn view(&self) -> ReplyView {
        match *self {
            Reply::Inspected(state) => ReplyView::Inspected(state),
            Reply::Ancestor(holds) => ReplyView::Ancestor(holds),
            Reply::Measured(distance) => ReplyView::Measured(distance_view(distance)),
        }
    }
}

/// How far the work on the current branch has come.
#[derive(Debug)]
pub enum Stage {
    /// Nothing is known of the branch.
    Inspecting,
    /// The branch exists and is not consolidated; whether it can be
    /// fast-forwarded is open.
    AwaitingAncestry,
    /// The delta is known, no distance yet.
    MeasuringHead(Delta),
    /// The delta and the distance to HEAD are known.
    MeasuringTarget(Delta, Result<u32, String>),
}

/// The mathematical value of a [`Stage`].
pub enum StageView {
    Inspecting,
    AwaitingAncestry,
    MeasuringHead(Delta),
    MeasuringTarget(Delta, Result<u32, Seq<char>>),
}

impl View for Stage {
    type V = StageView;

    open spec fn view(&self) -> StageView {
        match *self {
            Stage::Inspecting => StageView::Inspecting,
            Stage::AwaitingAncestry => StageView::AwaitingAncestry,
            Stage::MeasuringHead(delta) => StageView::MeasuringHead(delta),
            Stage::MeasuringTarget(delta, distance) => StageView::MeasuringTarget(
                delta,
                distance_view(distance),
            ),
        }
    }
}

/// The scan of one repository: the branches asked for, the results of those
/// that are finished, and the stage of the one being worked on.
#[derive(Debug)]
pub struct Scan {
    pub branches: Vec<String>,
    pub finished: Vec<BranchDelta>,
    pub stage: Stage,
}

/// The mathematical value of a [`Scan`].
pub struct ScanView {
    pub branches: Seq<Seq<char>>,
    pub finished: Seq<BranchDeltaView>,
    pub stage: StageView,
}

impl View for Scan {
    type V = ScanView;

    open spec fn view(&self) -> ScanView {
        ScanView {
            branches: text_views(self.branches@),
            finished: branch_views(self.finished@),
            stage: self.stage@,
        }
    }
}

/// The result for a branch that does not exist.
pub open spec fn not_found_view(name: Seq<char>) -> BranchDeltaView {
    BranchDeltaView {
        branch_name: name,
        delta: Delta::BranchNotFound,
        distance_head_to_merge_base: Ok(0u32),
        distance_target_to_merge_base: Ok(0u32),
    }
}

/// A result for a branch that was not found carries zero distances.
pub open spec fn zero_if_missing(result: BranchDeltaView) -> bool {
    result.delta == Delta::BranchNotFound ==> result.distance_head_to_merge_base == Ok::<
        u32,
        Seq<char>,
    >(0u32) && result.distance_target_to_merge_base == Ok::<u32, Seq<char>>(0u32)
}

impl ScanView {
    /// Every branch has its result.
    pub open spec fn done(self) -> bool {
        self.finished.len() >= self.branches.len()
    }

    /// The name of the branch being worked on.
    pub open spec fn current(self) -> Seq<char>
        recommends
            !self.done(),
    {
        self.branches[self.finished.len() as int]
    }

    /// The results so far belong to the first branches, one each and in
    /// their order, and a branch that was not found has zero distances
    /// and is never measured.
    pub open spec fn wf(self) -> bool {
        &&& self.finished.len() <= self.branches.len()
        &&& forall|i: int|
            0 <= i < self.finished.len() ==> (#[trigger] self.finished[i]).branch_name
                == self.branches[i]
        &&& forall|i: int|
            0 <= i < self.finished.len() ==> zero_if_missing(#[trigger] self.finished[i])
        &&& self.done() ==> self.stage == StageView::Inspecting
        &&& match self.stage {
            StageView::MeasuringHead(delta) => delta != Delta::BranchNotFound,
            StageView::MeasuringTarget(delta, _) => delta != Delta::BranchNotFound,
            _ => true,
        }
    }

    /// The query the scan needs next; none once every branch has its result.
    pub open spec fn next_request(self) -> Option<Request> {
        if self.done() {
            None
        } else {
            Some(
                match self.stage {
                    StageView::Inspecting => Request::Inspect,
                    StageView::AwaitingAncestry => Request::Ancestry,
                    StageView::MeasuringHead(_) => Request::HeadDistance,
                    StageView::MeasuringTarget(_, _) => Request::TargetDistance,
                },
            )
        }
    }

    /// The scan with the current branch finished as `result`.
    pub open spec fn finish_branch(self, result: BranchDeltaView) -> ScanView {
        ScanView {
            branches: self.branches,
            finished: self.finished.push(result),
            stage: StageView::Inspecting,
        }
    }

    /// The scan at another stage of the current branch.
    pub open spec fn at_stage(self, stage: StageView) -> ScanView {
        ScanView { branches: self.branches, finished: self.finished, stage }
    }

    /// The scan after `reply`.
    ///
    /// A reply counts only if it answers the request that is open; any other
    /// leaves the scan as it is. An inspection counts once it has settled the
    /// delta or has come to the question of ancestry. A branch that was not
    /// found is finished at once, with both distances zero; any other delta
    /// is followed by the two distances, HEAD's first.
    pub open spec fn advance(self, reply: ReplyView) -> ScanView {
        if self.done() {
            self
        } else {
            match (self.stage, reply) {
                (StageView::Inspecting, ReplyView::Inspected(Classifier::Settled(delta))) => {
                    if delta == Delta::BranchNotFound {
                        self.finish_branch(not_found_view(self.current()))
                    } else {
                        self.at_stage(StageView::MeasuringHead(delta))
                    }
                },
                (
                    StageView::Inspecting,
                    ReplyView::Inspected(Classifier::Asking(Check::FastForward)),
                ) => self.at_stage(StageView::AwaitingAncestry),
                (StageView::AwaitingAncestry, ReplyView::Ancestor(holds)) => self.at_stage(
                    StageView::MeasuringHead(
                        if holds {
                            Delta::NotConsolidatedButFastForwardable
                        } else {
                            Delta::NotConsolidated
                        },
                    ),
                ),
                (StageView::MeasuringHead(delta), ReplyView::Measured(distance)) => self.at_stage(
                    StageView::MeasuringTarget(delta, distance),
                ),
                (
                    StageView::MeasuringTarget(delta, head_distance),
                    ReplyView::Measured(distance),
                ) => self.finish_branch(
                    BranchDeltaView {
                        branch_name: self.current(),
                        delta,
                        distance_head_to_merge_base: head_distance,
                        distance_target_to_merge_base: distance,
                    },
                ),
                _ => self,
            }
        }
    }
}

impl Scan {
    /// A scan of `branches` with nothing done yet.
    pub fn new(branches: Vec<String>) -> (scan: Scan)
        ensures
            scan@ == (ScanView {
                branches: text_views(branches@),
                finished: Seq::<BranchDeltaView>::empty(),
                stage: StageView::Inspecting,
            }),
            scan@.wf(),
    {
        let scan = Scan { branches, finished: Vec::new(), stage: Stage::Inspecting };
        assert(branch_views(scan.finished@) =~= Seq::<BranchDeltaView>::empty());
        scan
    }

    /// Whether every branch has its result.
    pub fn is_done(&self) -> (done: bool)
        ensures
            done == self@.done(),
    {
        self.finished.len() >= self.branches.len()
    }

    /// The name of the branch being worked on; none once every branch has
    /// its result.
    pub fn current_branch(&self) -> (name: Option<&String>)
        ensures
            match name {
                Some(name) => !self@.done() && name@ == self@.current(),
                None => self@.done(),
            },
    {
        if self.finished.len() < self.branches.len() {
            Some(&self.branches[self.finished.len()])
        } else {
            None
        }
    }

    /// The query the scan needs next; none once every branch has its result.
    pub fn next_request(&self) -> (request: Option<Request>)
        ensures
            request == self@.next_request(),
    {
        if self.is_done() {
            None
        } else {
            Some(
                match self.stage {
                    Stage::Inspecting => Request::Inspect,
                    Stage::AwaitingAncestry => Request::Ancestry,
                    Stage::MeasuringHead(_) => Request::HeadDistance,
                    Stage::MeasuringTarget(_, _) => Request::TargetDistance,
                },
            )
        }
    }

    /// Finishes the current branch with `result`.
    fn finish_branch(&mut self, result: BranchDelta)
        ensures
            final(self)@ == old(self)@.finish_branch(result@),
    {
        self.finished.push(result);
        self.stage = Stage::Inspecting;
        assert(branch_views(self.finished@) =~= branch_views(old(self).finished@).push(result@));
    }

    /// Takes the reply to the open request.
    pub fn advance(&mut self, reply: Reply)
        ensures
            final(self)@ == old(self)@.advance(reply@),
            old(self)@.wf() ==> final(self)@.wf(),
    {
        proof {
            if self@.wf() {
                lemma_advance_keeps_wf(self@, reply@);
            }
        }
        if self.finished.len() >= self.branches.len() {
            return ;
        }
        let name = self.branches[self.finished.len()].clone();
        let mut stage = Stage::Inspecting;
        std::mem::swap(&mut stage, &mut self.stage);
        match (stage, reply) {
            (Stage::Inspecting, Reply::Inspected(Classifier::Settled(delta))) => {
                if delta == Delta::BranchNotFound {
                    self.finish_branch(BranchDelta::not_found(name));
                } else {
                    self.stage = Stage::MeasuringHead(delta);
                }
            },
            (Stage::Inspecting, Reply::Inspected(Classifier::Asking(Check::FastForward))) => {
                self.stage = Stage::AwaitingAncestry;
            },
            (Stage::AwaitingAncestry, Reply::Ancestor(holds)) => {
                self.stage = Stage::MeasuringHead(
                    if holds {
                        Delta::NotConsolidatedButFastForwardable
                    } else {
                        Delta::NotConsolidated
                    },
                );
            },
            (Stage::MeasuringHead(delta), Reply::Measured(distance)) => {
                self.stage = Stage::MeasuringTarget(delta, distance);
            },
            (Stage::MeasuringTarget(delta, head_distance), Reply::Measured(distance)) => {
                self.finish_branch(
                    BranchDelta {
                        branch_name: name,
                        delta,
                        distance_head_to_merge_base: head_distance,
                        distance_target_to_merge_base: distance,
                    },
                );
            },
            (stage, _) => {
                self.stage = stage;
            },
        }
    }
}

/// A reply never disturbs the results: they stay one for each of the first
/// branches, under the branch's name, and those of branches that were not
/// found keep their zero distances.
pub proof fn lemma_advance_keeps_wf(scan: ScanView, reply: ReplyView)
    requires
        scan.wf(),
    ensures
        scan.advance(reply).wf(),
        scan.advance(reply).branches == scan.branches,
        scan.finished.is_prefix_of(scan.advance(reply).finished),
{
}

/// What is true of one branch of a repository: the facts that decide its
/// delta, and what the two distance queries give.
pub struct BranchWorld {
    pub facts: BranchFacts,
    pub head_distance: Result<u32, Seq<char>>,
    pub target_distance: Result<u32, Seq<char>>,
}

/// Where the classifier stands once the checks that the repository answers
/// have been asked, each answered truthfully.
pub open spec fn inspection(facts: BranchFacts) -> Classifier {
    Classifier::Lookup.spec_resolved(facts.found).spec_answered(facts.same_commit).spec_answered(
        facts.merged,
    ).spec_answered(facts.equal_content)
}

/// The truthful reply to `request` for a branch of which `world` is true.
pub open spec fn truthful_reply(request: Request, world: BranchWorld) -> ReplyView {
    match request {
        Request::Inspect => ReplyView::Inspected(inspection(world.facts)),
        Request::Ancestry => ReplyView::Ancestor(world.facts.fast_forwardable),
        Request::HeadDistance => ReplyView::Measured(world.head_distance),
        Request::TargetDistance => ReplyView::Measured(world.target_distance),
    }
}

/// The result owed to a branch called `name` of which `world` is true: its
/// delta with the two distances, or zero distances if it does not exist.
pub open spec fn expected_result(name: Seq<char>, world: BranchWorld) -> BranchDeltaView {
    if world.facts.found {
        BranchDeltaView {
            branch_name: name,
            delta: delta_of(world.facts),
            distance_head_to_merge_base: world.head_distance,
            distance_target_to_merge_base: world.target_distance,
        }
    } else {
        not_found_view(name)
    }
}

impl ScanView {
    /// The scan after its open request was answered truthfully.
    pub open spec fn step(self, worlds: Seq<BranchWorld>) -> ScanView {
        match self.next_request() {
            None => self,
            Some(request) => self.advance(
                truthful_reply(request, worlds[self.finished.len() as int]),
            ),
        }
    }

    /// The scan after `steps` requests were answered truthfully.
    pub open spec fn run(self, worlds: Seq<BranchWorld>, steps: nat) -> ScanView
        decreases steps,
    {
        if steps == 0 {
            self
        } else {
            self.step(worlds).run(worlds, (steps - 1) as nat)
        }
    }

    /// An upper bound on the number of requests still to come.
    pub open spec fn work(self) -> nat {
        if self.done() {
            0
        } else {
            (4 * (self.branches.len() - self.finished.len()) - match self.stage {
                StageView::Inspecting => 0int,
                StageView::AwaitingAncestry => 1int,
                StageView::MeasuringHead(_) => 2int,
                StageView::MeasuringTarget(_, _) => 3int,
            }) as nat
        }
    }

    /// What the scan holds agrees with `worlds`: each finished branch has
    /// the result owed to it, and what is known of the current branch is true.
    pub open spec fn agrees_with(self, worlds: Seq<BranchWorld>) -> bool {
        &&& self.wf()
        &&& worlds.len() == self.branches.len()
        &&& forall|i: int|
            0 <= i < self.finished.len() ==> #[trigger] self.finished[i] == expected_result(
                self.branches[i],
                worlds[i],
            )
        &&& !self.done() ==> {
            let world = worlds[self.finished.len() as int];
            match self.stage {
                StageView::Inspecting => true,
                StageView::AwaitingAncestry => inspection(world.facts) == Classifier::Asking(
                    Check::FastForward,
                ),
                StageView::MeasuringHead(delta) => world.facts.found && delta == delta_of(
                    world.facts,
                ),
                StageView::MeasuringTarget(delta, distance) => world.facts.found && delta
                    == delta_of(world.facts) && distance == world.head_distance,
            }
        }
    }
}

/// A truthful reply keeps the scan in agreement with the world and brings
/// it nearer to its end.
pub proof fn lemma_step_agrees(scan: ScanView, worlds: Seq<BranchWorld>)
    requires
        scan.agrees_with(worlds),
    ensures
        scan.step(worlds).agrees_with(worlds),
        scan.step(worlds).branches == scan.branches,
        !scan.done() ==> scan.step(worlds).work() < scan.work(),
{
    if !scan.done() {
        let world = worlds[scan.finished.len() as int];
        let next = scan.step(worlds);
        assert forall|i: int| 0 <= i < next.finished.len() implies #[trigger] next.finished[i]
            == expected_result(next.branches[i], worlds[i]) by {
            if i < scan.finished.len() {
                assert(next.finished[i] == scan.finished[i]);
            }
        }
    }
}

/// Answered truthfully throughout, a scan comes to its end within four
/// requests for each branch, and then holds for every branch, in the order
/// in which the branches were given, the result owed to it: the delta that
/// follows from the facts and the two distances as they were measured, or,
/// for a branch that does not exist, `BranchNotFound` with zero distances.
pub proof fn lemma_truthful_scan(scan: ScanView, worlds: Seq<BranchWorld>, steps: nat)
    requires
        scan.agrees_with(worlds),
        steps >= scan.work(),
    ensures
        scan.run(worlds, steps).done(),
        scan.run(worlds, steps).branches == scan.branches,
        scan.run(worlds, steps).finished =~= Seq::new(
            scan.branches.len(),
            |i: int| expected_result(scan.branches[i], worlds[i]),
        ),
    decreases steps,
{
    if steps == 0 {
        assert(scan.done());
    } else {
        lemma_step_agrees(scan, worlds);
        lemma_truthful_scan(scan.step(worlds), worlds, (steps - 1) as nat);
    }
}

/// A scan of `branches` that is answered truthfully from its beginning
/// needs at most four requests for each branch, and then holds for every
/// branch, in the order of `branches`, the result owed to it.
pub proof fn lemma_scan_gives_owed_results(branches: Seq<Seq<char>>, worlds: Seq<BranchWorld>)
    requires
        worlds.len() == branches.len(),
    ensures
        ({
            let fresh = ScanView {
                branches,
                finished: Seq::<BranchDeltaView>::empty(),
                stage: StageView::Inspecting,
            };
            let end = fresh.run(worlds, 4 * branches.len());
            &&& end.done()
            &&& end.finished.len() == branches.len()
            &&& forall|i: int|
                0 <= i < branches.len() ==> #[trigger] end.finished[i] == expected_result(
                    branches[i],
                    worlds[i],
                )
        }),
{
    let fresh = ScanView {
        branches,
        finished: Seq::<BranchDeltaView>::empty(),
        stage: StageView::Inspecting,
    };
    lemma_truthful_scan(fresh, worlds, 4 * branches.len());
}

/// Whether `reply` answers `request`: an inspection that has settled the
/// delta or has come to the question of ancestry answers the request to
/// inspect, a yes or no answers the question of ancestry, and a distance
/// or the reason why there is none answers the request for a distance.
pub open spec fn answers(reply: ReplyView, request: Request) -> bool {
    match (request, reply) {
        (Request::Inspect, ReplyView::Inspected(Classifier::Settled(_))) => true,
        (Request::Inspect, ReplyView::Inspected(Classifier::Asking(Check::FastForward))) => true,
        (Request::Ancestry, ReplyView::Ancestor(_)) => true,
        (Request::HeadDistance, ReplyView::Measured(_)) => true,
        (Request::TargetDistance, ReplyView::Measured(_)) => true,
        _ => false,
    }
}

/// Every reply that answers the open request brings the scan nearer to its
/// end, whatever the answer is: a failed query and a check that does not
/// hold do so as well as any other. So a scan whose requests are answered
/// comes to its end, with one result for each branch.
pub proof fn lemma_answer_brings_nearer(scan: ScanView, reply: ReplyView)
    requires
        scan.wf(),
        scan.next_request() matches Some(request) && answers(reply, request),
    ensures
        scan.advance(reply).wf(),
        scan.advance(reply).work() < scan.work(),
        scan.advance(reply).done() ==> scan.advance(reply).finished.len() == scan.branches.len(),
{
}

/// A scan never asks for a distance of a branch that does not exist: after
/// the inspection such a branch is finished, with both distances zero.
pub proof fn lemma_missing_branch_is_not_measured(scan: ScanView, world: BranchWorld)
    requires
        scan.wf(),
        !scan.done(),
        scan.stage == StageView::Inspecting,
        !world.facts.found,
    ensures
        scan.advance(truthful_reply(Request::Inspect, world)) == scan.finish_branch(
            not_found_view(scan.current()),
        ),
        scan.advance(truthful_reply(Request::Inspect, world)).next_request() != Some(
            Request::HeadDistance,
        ),
        scan.advance(truthful_reply(Request::Inspect, world)).next_request() != Some(
            Request::TargetDistance,
        ),
{
}

} // verus!
