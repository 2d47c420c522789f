use oper_delta::classify::{Check, Classifier};
use oper_delta::model::{BranchDelta, Delta};
use oper_delta::scan::{Reply, Request, Scan, Stage};

fn names(list: &[&str]) -> Vec<String> {
    list.iter().map(|s| s.to_string()).collect()
}

fn assert_branch(b: &BranchDelta, name: &str, delta: Delta, head: Result<u32, &str>, target: Result<u32, &str>) {
    assert_eq!(b.branch_name, name);
    assert_eq!(b.delta, delta);
    assert_eq!(b.distance_head_to_merge_base, head.map_err(|e| e.to_string()));
    assert_eq!(b.distance_target_to_merge_base, target.map_err(|e| e.to_string()));
}

#[test]
fn head_at_branch_tip_gives_same_commit_with_zero_distances() {
    let mut scan = Scan::new(names(&["release"]));
    assert_eq!(scan.next_request(), Some(Request::Inspect));
    scan.advance(Reply::Inspected(Classifier::Settled(Delta::ConsolidatedBySameCommit)));
    assert_eq!(scan.next_request(), Some(Request::HeadDistance));
    scan.advance(Reply::Measured(Ok(0)));
    assert_eq!(scan.next_request(), Some(Request::TargetDistance));
    scan.advance(Reply::Measured(Ok(0)));
    assert_eq!(scan.next_request(), None);
    assert!(scan.is_done());
    assert_eq!(scan.finished.len(), 1);
    assert_branch(&scan.finished[0], "release", Delta::ConsolidatedBySameCommit, Ok(0), Ok(0));
}

#[test]
fn ancestor_head_three_commits_away_is_fast_forwardable() {
    let mut scan = Scan::new(names(&["release"]));
    scan.advance(Reply::Inspected(Classifier::Asking(Check::FastForward)));
    assert_eq!(scan.next_request(), Some(Request::Ancestry));
    scan.advance(Reply::Ancestor(true));
    assert_eq!(scan.next_request(), Some(Request::HeadDistance));
    scan.advance(Reply::Measured(Ok(3)));
    scan.advance(Reply::Measured(Ok(0)));
    assert!(scan.is_done());
    assert_branch(
        &scan.finished[0],
        "release",
        Delta::NotConsolidatedButFastForwardable,
        Ok(3),
        Ok(0),
    );
}

#[test]
fn missing_branch_is_finished_without_any_query() {
    let mut scan = Scan::new(names(&["nope"]));
    assert_eq!(scan.next_request(), Some(Request::Inspect));
    scan.advance(Reply::Inspected(Classifier::Settled(Delta::BranchNotFound)));
    assert_eq!(scan.next_request(), None);
    assert!(scan.is_done());
    assert_branch(&scan.finished[0], "nope", Delta::BranchNotFound, Ok(0), Ok(0));
}

#[test]
fn head_that_is_no_ancestor_is_not_consolidated() {
    let mut scan = Scan::new(names(&["release"]));
    scan.advance(Reply::Inspected(Classifier::Asking(Check::FastForward)));
    scan.advance(Reply::Ancestor(false));
    scan.advance(Reply::Measured(Ok(7)));
    scan.advance(Reply::Measured(Ok(12)));
    assert_branch(&scan.finished[0], "release", Delta::NotConsolidated, Ok(7), Ok(12));
}

#[test]
fn failed_distance_query_is_kept_as_text() {
    let mut scan = Scan::new(names(&["release"]));
    scan.advance(Reply::Inspected(Classifier::Settled(Delta::ConsolidatedByMergeCommit)));
    scan.advance(Reply::Measured(Err("no git".to_string())));
    scan.advance(Reply::Measured(Ok(4)));
    assert_branch(&scan.finished[0], "release", Delta::ConsolidatedByMergeCommit, Err("no git"), Ok(4));
}

#[test]
fn results_follow_the_order_of_the_branches() {
    let mut scan = Scan::new(names(&["b", "a", "c"]));
    assert_eq!(scan.current_branch().map(|s| s.as_str()), Some("b"));
    scan.advance(Reply::Inspected(Classifier::Settled(Delta::BranchNotFound)));
    assert_eq!(scan.current_branch().map(|s| s.as_str()), Some("a"));
    scan.advance(Reply::Inspected(Classifier::Settled(Delta::ConsolidatedByEqualContent)));
    scan.advance(Reply::Measured(Ok(1)));
    assert_eq!(scan.current_branch().map(|s| s.as_str()), Some("a"));
    scan.advance(Reply::Measured(Ok(2)));
    assert_eq!(scan.current_branch().map(|s| s.as_str()), Some("c"));
    scan.advance(Reply::Inspected(Classifier::Asking(Check::FastForward)));
    scan.advance(Reply::Ancestor(true));
    scan.advance(Reply::Measured(Ok(5)));
    scan.advance(Reply::Measured(Ok(6)));
    assert!(scan.is_done());
    assert_eq!(scan.current_branch(), None);
    assert_eq!(scan.finished.len(), 3);
    assert_branch(&scan.finished[0], "b", Delta::BranchNotFound, Ok(0), Ok(0));
    assert_branch(&scan.finished[1], "a", Delta::ConsolidatedByEqualContent, Ok(1), Ok(2));
    assert_branch(&scan.finished[2], "c", Delta::NotConsolidatedButFastForwardable, Ok(5), Ok(6));
}

#[test]
fn reply_that_answers_no_open_request_changes_nothing() {
    let mut scan = Scan::new(names(&["release"]));
    scan.advance(Reply::Ancestor(true));
    scan.advance(Reply::Measured(Ok(1)));
    assert_eq!(scan.next_request(), Some(Request::Inspect));
    assert!(matches!(scan.stage, Stage::Inspecting));
    scan.advance(Reply::Inspected(Classifier::Lookup));
    scan.advance(Reply::Inspected(Classifier::Asking(Check::SameCommit)));
    scan.advance(Reply::Inspected(Classifier::Asking(Check::MergeCommit)));
    scan.advance(Reply::Inspected(Classifier::Asking(Check::EqualContent)));
    assert_eq!(scan.next_request(), Some(Request::Inspect));
    scan.advance(Reply::Inspected(Classifier::Asking(Check::FastForward)));
    scan.advance(Reply::Measured(Ok(1)));
    scan.advance(Reply::Inspected(Classifier::Settled(Delta::NotConsolidated)));
    assert_eq!(scan.next_request(), Some(Request::Ancestry));
    scan.advance(Reply::Ancestor(false));
    scan.advance(Reply::Ancestor(true));
    assert_eq!(scan.next_request(), Some(Request::HeadDistance));
    assert!(matches!(scan.stage, Stage::MeasuringHead(Delta::NotConsolidated)));
    assert_eq!(scan.finished.len(), 0);
}

#[test]
fn scan_of_no_branch_is_done_at_once() {
    let mut scan = Scan::new(vec![]);
    assert!(scan.is_done());
    assert_eq!(scan.next_request(), None);
    assert_eq!(scan.current_branch(), None);
    scan.advance(Reply::Inspected(Classifier::Settled(Delta::BranchNotFound)));
    scan.advance(Reply::Measured(Ok(1)));
    assert_eq!(scan.finished.len(), 0);
    assert!(scan.is_done());
}

#[test]
fn finished_scan_takes_no_more_replies() {
    let mut scan = Scan::new(names(&["nope"]));
    scan.advance(Reply::Inspected(Classifier::Settled(Delta::BranchNotFound)));
    scan.advance(Reply::Inspected(Classifier::Settled(Delta::ConsolidatedBySameCommit)));
    scan.advance(Reply::Measured(Ok(1)));
    scan.advance(Reply::Measured(Ok(1)));
    assert_eq!(scan.finished.len(), 1);
    assert_eq!(scan.finished[0].delta, Delta::BranchNotFound);
}
