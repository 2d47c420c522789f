use oper_delta::filter::{all_delta, any_delta};
use oper_delta::model::{BranchDelta, Delta, Filter};

fn branch(name: &str, delta: Delta) -> BranchDelta {
    BranchDelta {
        branch_name: name.to_string(),
        delta,
        distance_head_to_merge_base: Ok(0),
        distance_target_to_merge_base: Ok(0),
    }
}

fn nothing() -> Filter {
    Filter {
        include_consolidated_by_same_commit: false,
        include_consolidated_by_merge_commit: false,
        include_consolidated_by_equal_content: false,
        include_non_consolidated: false,
        include_non_consolidated_but_ff_able: false,
        include_branch_not_found: false,
        repo_ignore_list: None,
    }
}

const ALL: [Delta; 6] = [
    Delta::ConsolidatedBySameCommit,
    Delta::ConsolidatedByMergeCommit,
    Delta::ConsolidatedByEqualContent,
    Delta::NotConsolidatedButFastForwardable,
    Delta::NotConsolidated,
    Delta::BranchNotFound,
];

#[test]
fn all_toggles_on_retains_everything() {
    let filter = Filter::everything();
    assert!(filter.repo_ignore_list.is_none());
    for a in ALL {
        assert!(filter.retains(&vec![branch("a", a)]));
        for b in ALL {
            assert!(filter.retains(&vec![branch("a", a), branch("b", b)]));
        }
    }
    assert!(filter.retains(&vec![]));
}

#[test]
fn only_branch_not_found_needs_every_branch_missing() {
    let mut filter = nothing();
    filter.include_branch_not_found = true;
    assert!(filter.retains(&vec![branch("a", Delta::BranchNotFound)]));
    assert!(filter.retains(&vec![
        branch("a", Delta::BranchNotFound),
        branch("b", Delta::BranchNotFound)
    ]));
    for d in ALL {
        if d != Delta::BranchNotFound {
            assert!(!filter.retains(&vec![branch("a", Delta::BranchNotFound), branch("b", d)]));
            assert!(!filter.retains(&vec![branch("b", d), branch("a", Delta::BranchNotFound)]));
            assert!(!filter.retains(&vec![branch("b", d)]));
        }
    }
}

#[test]
fn single_toggle_needs_one_branch_with_its_delta() {
    let mut filter = nothing();
    filter.include_consolidated_by_merge_commit = true;
    assert!(filter.retains(&vec![
        branch("a", Delta::NotConsolidated),
        branch("b", Delta::ConsolidatedByMergeCommit)
    ]));
    assert!(!filter.retains(&vec![
        branch("a", Delta::NotConsolidated),
        branch("b", Delta::ConsolidatedBySameCommit)
    ]));
    assert!(!filter.retains(&vec![]));

    let mut filter = nothing();
    filter.include_non_consolidated_but_ff_able = true;
    assert!(filter.retains(&vec![branch("a", Delta::NotConsolidatedButFastForwardable)]));
    assert!(!filter.retains(&vec![branch("a", Delta::NotConsolidated)]));

    let mut filter = nothing();
    filter.include_non_consolidated = true;
    assert!(filter.retains(&vec![branch("a", Delta::NotConsolidated)]));
    assert!(!filter.retains(&vec![branch("a", Delta::NotConsolidatedButFastForwardable)]));

    let mut filter = nothing();
    filter.include_consolidated_by_same_commit = true;
    assert!(filter.retains(&vec![branch("a", Delta::ConsolidatedBySameCommit)]));
    assert!(!filter.retains(&vec![branch("a", Delta::ConsolidatedByEqualContent)]));

    let mut filter = nothing();
    filter.include_consolidated_by_equal_content = true;
    assert!(filter.retains(&vec![branch("a", Delta::ConsolidatedByEqualContent)]));
    assert!(!filter.retains(&vec![branch("a", Delta::ConsolidatedBySameCommit)]));
}

#[test]
fn no_toggle_retains_nothing() {
    let filter = nothing();
    for d in ALL {
        assert!(!filter.retains(&vec![branch("a", d)]));
    }
    assert!(!filter.retains(&vec![]));
}

#[test]
fn hidden_delta_is_judged_by_other_branches() {
    let mut filter = Filter::everything();
    filter.include_branch_not_found = false;
    assert!(!filter.retains(&vec![branch("a", Delta::BranchNotFound)]));
    assert!(filter.retains(&vec![
        branch("a", Delta::BranchNotFound),
        branch("b", Delta::NotConsolidated)
    ]));
}

#[test]
fn any_and_all_over_deltas() {
    let deltas = vec![branch("a", Delta::BranchNotFound), branch("b", Delta::NotConsolidated)];
    assert!(any_delta(&deltas, Delta::NotConsolidated));
    assert!(!any_delta(&deltas, Delta::ConsolidatedBySameCommit));
    assert!(!all_delta(&deltas, Delta::BranchNotFound));
    assert!(all_delta(&deltas[..1].to_vec(), Delta::BranchNotFound));
    assert!(all_delta(&vec![], Delta::NotConsolidated));
    assert!(!any_delta(&vec![], Delta::NotConsolidated));
}
