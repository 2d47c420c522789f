use git2::{Oid, Repository, Signature, Time};
use oper_delta::model::{BranchDelta, Delta, Filter, Repo, RepoBranchDeltas};
use oper_delta::scan::{Reply, Request};
use oper_delta::task::{
    collect_model, conclude, failure_line, is_ignored, worker_count, worker_count_for,
    worker_message, RepoScan, Task, TaskEvent, TaskState, MAX_NUMBER_OF_THREADS,
};
use std::sync::Arc;
use std::time::{SystemTime, UNIX_EPOCH};

fn fresh_path(name: &str) -> String {
    let nanos = SystemTime::now().duration_since(UNIX_EPOCH).unwrap().as_nanos();
    format!("/tmp/oper_delta_tests/task_{}_{}", name, nanos)
}

fn commit(repo: &Repository, update_ref: Option<&str>, parents: &[Oid], content: &str, seconds: i64) -> Oid {
    let blob = repo.blob(content.as_bytes()).unwrap();
    let mut builder = repo.treebuilder(None).unwrap();
    builder.insert("file.txt", blob, 0o100644).unwrap();
    let tree = repo.find_tree(builder.write().unwrap()).unwrap();
    let sig = Signature::new("tester", "tester@example.com", &Time::new(seconds, 0)).unwrap();
    let parent_commits: Vec<git2::Commit> =
        parents.iter().map(|id| repo.find_commit(*id).unwrap()).collect();
    let parent_refs: Vec<&git2::Commit> = parent_commits.iter().collect();
    repo.commit(update_ref, &sig, &sig, "commit", &tree, &parent_refs).unwrap()
}

fn branch(name: &str, delta: Delta) -> BranchDelta {
    BranchDelta {
        branch_name: name.to_string(),
        delta,
        distance_head_to_merge_base: Ok(1),
        distance_target_to_merge_base: Ok(2),
    }
}

fn repo(rel_path: &str) -> Arc<Repo> {
    Arc::new(Repo {
        abs_path: format!("/work/{}", rel_path),
        rel_path: rel_path.to_string(),
        description: rel_path.to_string(),
    })
}

fn names(list: &[&str]) -> Vec<String> {
    list.iter().map(|s| s.to_string()).collect()
}

#[test]
fn at_most_eighteen_workers() {
    assert_eq!(MAX_NUMBER_OF_THREADS, 18);
    assert_eq!(worker_count_for(0), 0);
    assert_eq!(worker_count_for(1), 1);
    assert_eq!(worker_count_for(17), 17);
    assert_eq!(worker_count_for(18), 18);
    assert_eq!(worker_count_for(19), 18);
    assert_eq!(worker_count_for(36), 18);
    assert_eq!(worker_count_for(usize::MAX), 18);
    let n = worker_count();
    assert!(n >= 1 && n <= 18);
}

#[test]
fn ignore_list_is_matched_by_whole_paths() {
    let list = names(&["lib/a", "lib/b", ""]);
    assert!(is_ignored(&list, &"lib/a".to_string()));
    assert!(is_ignored(&list, &"lib/b".to_string()));
    assert!(is_ignored(&list, &"".to_string()));
    assert!(!is_ignored(&list, &"lib".to_string()));
    assert!(!is_ignored(&list, &"lib/a/".to_string()));
    assert!(!is_ignored(&list, &"LIB/A".to_string()));
    assert!(!is_ignored(&vec![], &"lib/a".to_string()));
}

#[test]
fn ignored_repository_ends_as_ignored_whatever_follows() {
    let mut state = TaskState::Pending.on(TaskEvent::Consulted { ignored: true });
    assert_eq!(state, TaskState::Ignored);
    assert!(state.is_terminal());
    for event in [
        TaskEvent::Consulted { ignored: false },
        TaskEvent::Opened { success: true },
        TaskEvent::Classified { retained: true },
    ] {
        state = state.on(event);
        assert_eq!(state, TaskState::Ignored);
    }
}

#[test]
fn task_runs_from_pending_to_a_terminal_state() {
    let opening = TaskState::Pending.on(TaskEvent::Consulted { ignored: false });
    assert_eq!(opening, TaskState::Opening);
    assert!(!opening.is_terminal());
    assert_eq!(opening.on(TaskEvent::Opened { success: false }), TaskState::OpenFailed);
    let classifying = opening.on(TaskEvent::Opened { success: true });
    assert_eq!(classifying, TaskState::Classifying);
    assert_eq!(classifying.on(TaskEvent::Classified { retained: false }), TaskState::FilteredOut);
    assert_eq!(classifying.on(TaskEvent::Classified { retained: true }), TaskState::Included);
    for terminal in
        [TaskState::Ignored, TaskState::OpenFailed, TaskState::FilteredOut, TaskState::Included]
    {
        assert!(terminal.is_terminal());
        assert!(!terminal.is_scanning());
        assert_eq!(terminal.on(TaskEvent::Opened { success: true }), terminal);
        assert_eq!(terminal.on(TaskEvent::Classified { retained: true }), terminal);
        assert_eq!(terminal.on(TaskEvent::Consulted { ignored: false }), terminal);
    }
}

#[test]
fn events_out_of_turn_change_nothing() {
    assert_eq!(TaskState::Pending.on(TaskEvent::Opened { success: true }), TaskState::Pending);
    assert_eq!(TaskState::Pending.on(TaskEvent::Classified { retained: true }), TaskState::Pending);
    assert_eq!(TaskState::Opening.on(TaskEvent::Consulted { ignored: true }), TaskState::Opening);
    assert_eq!(TaskState::Opening.on(TaskEvent::Classified { retained: true }), TaskState::Opening);
    assert_eq!(
        TaskState::Classifying.on(TaskEvent::Opened { success: false }),
        TaskState::Classifying
    );
}

#[test]
fn worker_shows_the_path_while_scanning() {
    assert_eq!(worker_message(TaskState::Opening, "lib/a"), "Scanning lib/a");
    assert_eq!(worker_message(TaskState::Classifying, "lib/a"), "Scanning lib/a");
    assert_eq!(worker_message(TaskState::Pending, "lib/a"), "Idle");
    assert_eq!(worker_message(TaskState::Ignored, "lib/a"), "Idle");
    assert_eq!(worker_message(TaskState::OpenFailed, "lib/a"), "Idle");
    assert_eq!(worker_message(TaskState::FilteredOut, "lib/a"), "Idle");
    assert_eq!(worker_message(TaskState::Included, "lib/a"), "Idle");
    assert!(TaskState::Opening.is_scanning());
    assert!(TaskState::Classifying.is_scanning());
    assert!(!TaskState::Pending.is_scanning());
}

#[test]
fn dropped_repository_is_reported_in_one_line() {
    assert_eq!(
        failure_line("Failed to open", "lib/a", "repository not found"),
        "Failed to open: lib/a: repository not found"
    );
}

#[test]
fn conclusion_follows_the_filter() {
    let deltas = vec![branch("release", Delta::NotConsolidated)];
    let kept = conclude(repo("lib/a"), deltas, &Filter::everything()).unwrap();
    assert_eq!(kept.repo.rel_path, "lib/a");
    assert_eq!(kept.deltas.len(), 1);
    assert_eq!(kept.deltas[0].branch_name, "release");
    assert_eq!(kept.deltas[0].delta, Delta::NotConsolidated);
    assert_eq!(kept.deltas[0].distance_head_to_merge_base, Ok(1));
    assert_eq!(kept.deltas[0].distance_target_to_merge_base, Ok(2));

    let mut filter = Filter::everything();
    filter.include_non_consolidated = false;
    assert!(conclude(repo("lib/a"), vec![branch("release", Delta::NotConsolidated)], &filter)
        .is_none());
}

#[test]
fn model_of_no_repository_is_empty() {
    assert_eq!(collect_model(vec![]).len(), 0);
    assert_eq!(collect_model(vec![None, None]).len(), 0);
}

#[test]
fn model_keeps_results_in_the_order_of_the_tasks() {
    let result = |path: &str| {
        Some(RepoBranchDeltas { repo: repo(path), deltas: vec![branch("release", Delta::NotConsolidated)] })
    };
    let model = collect_model(vec![result("c"), None, result("a"), None, None, result("b")]);
    let paths: Vec<&str> = model.iter().map(|r| r.repo.rel_path.as_str()).collect();
    assert_eq!(paths, vec!["c", "a", "b"]);
    assert_eq!(model[1].deltas[0].branch_name, "release");
}

#[test]
fn repository_that_cannot_be_opened_fails_at_the_beginning() {
    match RepoScan::begin(&fresh_path("missing"), names(&["release"])) {
        Err(message) => assert!(!message.is_empty()),
        Ok(_) => panic!("expected a failure to open"),
    }
}

#[test]
fn repository_without_head_is_scanned_all_the_same() {
    let path = fresh_path("unborn");
    let git_repo = Repository::init(&path).unwrap();
    let first = commit(&git_repo, None, &[], "one", 1000);
    git_repo.reference("refs/heads/release", first, true, "test").unwrap();
    let mut task = RepoScan::begin(&path, names(&["nope", "release"])).unwrap();
    assert!(task.head.is_none());
    assert_eq!(task.next_request(), Some(Request::Ancestry));
    assert_eq!(task.scan.current_branch().map(|s| s.as_str()), Some("release"));
    task.reply(Reply::Ancestor(false));
    assert_eq!(task.next_request(), Some(Request::HeadDistance));
    task.reply(Reply::Measured(Err("Parsing git output failed:  fatal".to_string())));
    assert_eq!(task.next_request(), Some(Request::TargetDistance));
    task.reply(Reply::Measured(Ok(1)));
    assert_eq!(task.next_request(), None);
    let deltas = task.into_deltas().unwrap();
    assert_eq!(deltas.len(), 2);
    assert_eq!(deltas[0].delta, Delta::BranchNotFound);
    assert_eq!(deltas[1].delta, Delta::NotConsolidated);
    assert_eq!(
        deltas[1].distance_head_to_merge_base,
        Err("Parsing git output failed:  fatal".to_string())
    );
    assert_eq!(deltas[1].distance_target_to_merge_base, Ok(1));
}

#[test]
fn branch_whose_tip_cannot_be_read_still_gets_its_delta() {
    let path = fresh_path("blob_branch");
    let git_repo = Repository::init(&path).unwrap();
    commit(&git_repo, Some("HEAD"), &[], "one", 1000);
    let blob = git_repo.blob(b"not a commit").unwrap();
    git_repo.reference("refs/remotes/origin/blobby", blob, true, "test").unwrap();
    let mut task = RepoScan::begin(&path, names(&["origin/blobby"])).unwrap();
    assert_eq!(task.next_request(), Some(Request::Ancestry));
    task.reply(Reply::Ancestor(false));
    task.reply(Reply::Measured(Err("failed".to_string())));
    task.reply(Reply::Measured(Err("failed".to_string())));
    assert_eq!(task.next_request(), None);
    let deltas = task.into_deltas().unwrap();
    assert_eq!(deltas.len(), 1);
    assert_eq!(deltas[0].branch_name, "origin/blobby");
    assert_eq!(deltas[0].delta, Delta::NotConsolidated);
}

#[test]
fn scan_of_a_repository_asks_only_for_what_git_must_answer() {
    let path = fresh_path("scan");
    let git_repo = Repository::init(&path).unwrap();
    let head = commit(&git_repo, Some("HEAD"), &[], "work", 1000);
    let unrelated = commit(&git_repo, None, &[], "other", 2000);
    git_repo.reference("refs/heads/release", head, true, "test").unwrap();
    git_repo.reference("refs/heads/other", unrelated, true, "test").unwrap();

    let mut task = RepoScan::begin(&path, names(&["nope", "release", "gone", "other"])).unwrap();
    assert_eq!(task.head.as_ref().unwrap().bytes, head.as_bytes().to_vec());

    // "nope" is finished without a query; "release" points to HEAD.
    assert_eq!(task.next_request(), Some(Request::HeadDistance));
    assert_eq!(task.scan.current_branch().map(|s| s.as_str()), Some("release"));
    assert_eq!(task.next_request(), Some(Request::HeadDistance));
    task.reply(Reply::Measured(Ok(0)));
    assert_eq!(task.next_request(), Some(Request::TargetDistance));
    task.reply(Reply::Measured(Ok(0)));

    // "gone" is finished without a query; "other" is unrelated to HEAD.
    assert_eq!(task.next_request(), Some(Request::Ancestry));
    assert_eq!(task.scan.current_branch().map(|s| s.as_str()), Some("other"));
    task.reply(Reply::Ancestor(false));
    assert_eq!(task.next_request(), Some(Request::HeadDistance));
    task.reply(Reply::Measured(Ok(1)));
    assert_eq!(task.next_request(), Some(Request::TargetDistance));
    task.reply(Reply::Measured(Err("failed".to_string())));
    assert_eq!(task.next_request(), None);

    let deltas = task.into_deltas().unwrap();
    let found: Vec<(&str, Delta)> =
        deltas.iter().map(|b| (b.branch_name.as_str(), b.delta)).collect();
    assert_eq!(
        found,
        vec![
            ("nope", Delta::BranchNotFound),
            ("release", Delta::ConsolidatedBySameCommit),
            ("gone", Delta::BranchNotFound),
            ("other", Delta::NotConsolidated),
        ]
    );
    assert_eq!(deltas[0].distance_head_to_merge_base, Ok(0));
    assert_eq!(deltas[0].distance_target_to_merge_base, Ok(0));
    assert_eq!(deltas[1].distance_head_to_merge_base, Ok(0));
    assert_eq!(deltas[3].distance_head_to_merge_base, Ok(1));
    assert_eq!(deltas[3].distance_target_to_merge_base, Err("failed".to_string()));
}

#[test]
fn unfinished_scan_has_no_deltas() {
    let path = fresh_path("unfinished");
    let git_repo = Repository::init(&path).unwrap();
    let head = commit(&git_repo, Some("HEAD"), &[], "work", 1000);
    git_repo.reference("refs/heads/release", head, true, "test").unwrap();
    let mut task = RepoScan::begin(&path, names(&["release"])).unwrap();
    assert_eq!(task.next_request(), Some(Request::HeadDistance));
    assert!(task.into_deltas().is_none());
}

#[test]
fn scan_of_only_missing_branches_needs_no_query() {
    let path = fresh_path("all_missing");
    let git_repo = Repository::init(&path).unwrap();
    commit(&git_repo, Some("HEAD"), &[], "work", 1000);
    let mut task = RepoScan::begin(&path, names(&["x", "y"])).unwrap();
    assert_eq!(task.next_request(), None);
    let deltas = task.into_deltas().unwrap();
    assert_eq!(deltas.len(), 2);
    assert!(deltas.iter().all(|b| b.delta == Delta::BranchNotFound));
    let mut only_missing = Filter::everything();
    only_missing.include_consolidated_by_same_commit = false;
    only_missing.include_consolidated_by_merge_commit = false;
    only_missing.include_consolidated_by_equal_content = false;
    only_missing.include_non_consolidated = false;
    only_missing.include_non_consolidated_but_ff_able = false;
    assert!(conclude(repo("lib/a"), deltas, &only_missing).is_some());
}

fn repo_at(abs_path: &str, rel_path: &str) -> Arc<Repo> {
    Arc::new(Repo {
        abs_path: abs_path.to_string(),
        rel_path: rel_path.to_string(),
        description: rel_path.to_string(),
    })
}

#[test]
fn ignored_repository_is_never_opened_and_gives_no_result() {
    let path = fresh_path("ignored");
    let git_repo = Repository::init(&path).unwrap();
    let head = commit(&git_repo, Some("HEAD"), &[], "work", 1000);
    git_repo.reference("refs/heads/release", head, true, "test").unwrap();

    let mut task = Task::new(repo_at(&path, "lib/a"));
    assert_eq!(task.state, TaskState::Pending);
    assert_eq!(task.message(), "Idle");
    let scan = task.begin(&names(&["lib/b", "lib/a"]), names(&["release"]));
    assert!(scan.is_none());
    assert_eq!(task.state, TaskState::Ignored);
    assert!(task.failure.is_none());
    task.classified(vec![branch("release", Delta::ConsolidatedBySameCommit)], &Filter::everything());
    assert_eq!(task.state, TaskState::Ignored);
    assert!(task.begin(&vec![], names(&["release"])).is_none());
    assert_eq!(task.state, TaskState::Ignored);
    assert_eq!(task.message(), "Idle");
    assert!(task.into_result().is_none());
}

#[test]
fn repository_that_cannot_be_opened_is_left_out_with_a_reason() {
    let mut task = Task::new(repo_at(&fresh_path("absent"), "lib/a"));
    let scan = task.begin(&names(&["lib/b"]), names(&["release"]));
    assert!(scan.is_none());
    assert_eq!(task.state, TaskState::OpenFailed);
    assert!(!task.failure.clone().unwrap().is_empty());
    assert_eq!(task.message(), "Idle");
    assert!(task.into_result().is_none());
}

#[test]
fn repository_without_head_is_classified_by_its_task() {
    let path = fresh_path("task_unborn");
    Repository::init(&path).unwrap();
    let mut task = Task::new(repo_at(&path, "lib/a"));
    let mut scan = task.begin(&vec![], names(&["release"])).unwrap();
    assert_eq!(task.state, TaskState::Classifying);
    assert_eq!(task.message(), "Scanning lib/a");
    assert!(scan.head.is_none());
    assert_eq!(scan.next_request(), None);
    let deltas = scan.into_deltas().unwrap();
    assert_eq!(deltas.len(), 1);
    assert_eq!(deltas[0].delta, Delta::BranchNotFound);
    task.classified(deltas, &Filter::everything());
    assert_eq!(task.state, TaskState::Included);
}

#[test]
fn retained_repository_becomes_part_of_the_model() {
    let path = fresh_path("retained");
    let git_repo = Repository::init(&path).unwrap();
    let head = commit(&git_repo, Some("HEAD"), &[], "work", 1000);
    git_repo.reference("refs/heads/release", head, true, "test").unwrap();

    let mut task = Task::new(repo_at(&path, "lib/a"));
    let mut scan = task.begin(&names(&["lib/b"]), names(&["release"])).unwrap();
    assert_eq!(task.state, TaskState::Classifying);
    assert_eq!(task.message(), "Scanning lib/a");
    assert_eq!(scan.next_request(), Some(Request::HeadDistance));
    scan.reply(Reply::Measured(Ok(0)));
    assert_eq!(scan.next_request(), Some(Request::TargetDistance));
    scan.reply(Reply::Measured(Ok(0)));
    assert_eq!(scan.next_request(), None);
    task.classified(scan.into_deltas().unwrap(), &Filter::everything());
    assert_eq!(task.state, TaskState::Included);
    assert_eq!(task.message(), "Idle");
    let result = task.into_result().unwrap();
    assert_eq!(result.repo.rel_path, "lib/a");
    assert_eq!(result.deltas.len(), 1);
    assert_eq!(result.deltas[0].branch_name, "release");
    assert_eq!(result.deltas[0].delta, Delta::ConsolidatedBySameCommit);
    assert_eq!(result.deltas[0].distance_head_to_merge_base, Ok(0));
    assert_eq!(result.deltas[0].distance_target_to_merge_base, Ok(0));
}

#[test]
fn filtered_repository_gives_no_result() {
    let path = fresh_path("filtered");
    let git_repo = Repository::init(&path).unwrap();
    commit(&git_repo, Some("HEAD"), &[], "work", 1000);
    let mut task = Task::new(repo_at(&path, "lib/a"));
    let mut scan = task.begin(&vec![], names(&["nope"])).unwrap();
    assert_eq!(scan.next_request(), None);
    let mut filter = Filter::everything();
    filter.include_branch_not_found = false;
    task.classified(scan.into_deltas().unwrap(), &filter);
    assert_eq!(task.state, TaskState::FilteredOut);
    assert!(task.into_result().is_none());
}
