use oper_delta::classify::{classify, BranchFacts, Check, Classifier};
use oper_delta::model::Delta;

fn facts(found: bool, same: bool, merged: bool, equal: bool, ff: bool) -> BranchFacts {
    BranchFacts { found, same_commit: same, merged, equal_content: equal, fast_forwardable: ff }
}

#[test]
fn missing_branch_is_not_found_whatever_else_holds() {
    assert_eq!(classify(facts(false, true, true, true, true)), Delta::BranchNotFound);
    assert_eq!(classify(facts(false, false, false, false, false)), Delta::BranchNotFound);
}

#[test]
fn same_commit_has_highest_priority() {
    assert_eq!(classify(facts(true, true, true, true, true)), Delta::ConsolidatedBySameCommit);
    assert_eq!(classify(facts(true, true, false, false, false)), Delta::ConsolidatedBySameCommit);
}

#[test]
fn merge_wins_over_fast_forward() {
    assert_eq!(classify(facts(true, false, true, false, true)), Delta::ConsolidatedByMergeCommit);
    assert_eq!(classify(facts(true, false, true, true, false)), Delta::ConsolidatedByMergeCommit);
}

#[test]
fn equal_content_without_common_history() {
    assert_eq!(classify(facts(true, false, false, true, false)), Delta::ConsolidatedByEqualContent);
    assert_eq!(classify(facts(true, false, false, true, true)), Delta::ConsolidatedByEqualContent);
}

#[test]
fn ancestor_alone_is_fast_forwardable() {
    assert_eq!(
        classify(facts(true, false, false, false, true)),
        Delta::NotConsolidatedButFastForwardable
    );
}

#[test]
fn nothing_holds_is_not_consolidated() {
    assert_eq!(classify(facts(true, false, false, false, false)), Delta::NotConsolidated);
}

#[test]
fn every_state_gets_exactly_one_delta() {
    let all = [
        Delta::ConsolidatedBySameCommit,
        Delta::ConsolidatedByMergeCommit,
        Delta::ConsolidatedByEqualContent,
        Delta::NotConsolidatedButFastForwardable,
        Delta::NotConsolidated,
        Delta::BranchNotFound,
    ];
    let mut seen = [0usize; 6];
    for bits in 0..32u32 {
        let f = facts(bits & 1 != 0, bits & 2 != 0, bits & 4 != 0, bits & 8 != 0, bits & 16 != 0);
        let delta = classify(f);
        let matching = all.iter().filter(|d| **d == delta).count();
        assert_eq!(matching, 1);
        let index = all.iter().position(|d| *d == delta).unwrap();
        seen[index] += 1;
    }
    assert_eq!(seen, [8, 4, 2, 1, 1, 16]);
}

#[test]
fn classifier_asks_checks_in_order() {
    let mut state = Classifier::start();
    assert_eq!(state, Classifier::Lookup);
    assert_eq!(state.pending(), None);
    state = state.resolved(true);
    assert_eq!(state.pending(), Some(Check::SameCommit));
    state = state.answered(false);
    assert_eq!(state.pending(), Some(Check::MergeCommit));
    state = state.answered(false);
    assert_eq!(state.pending(), Some(Check::EqualContent));
    state = state.answered(false);
    assert_eq!(state.pending(), Some(Check::FastForward));
    assert_eq!(state.verdict(), None);
    state = state.answered(false);
    assert_eq!(state.pending(), None);
    assert_eq!(state.verdict(), Some(Delta::NotConsolidated));
}

#[test]
fn classifier_stops_at_first_check_that_holds() {
    let state = Classifier::start().resolved(true).answered(false).answered(true);
    assert_eq!(state, Classifier::Settled(Delta::ConsolidatedByMergeCommit));
    assert_eq!(state.answered(true), state);
    assert_eq!(state.resolved(false), state);
}

#[test]
fn classifier_ignores_answers_before_lookup() {
    assert_eq!(Classifier::Lookup.answered(true), Classifier::Lookup);
    assert_eq!(
        Classifier::Lookup.resolved(false),
        Classifier::Settled(Delta::BranchNotFound)
    );
}

#[test]
fn check_deltas_and_order() {
    assert_eq!(Check::SameCommit.delta(), Delta::ConsolidatedBySameCommit);
    assert_eq!(Check::MergeCommit.delta(), Delta::ConsolidatedByMergeCommit);
    assert_eq!(Check::EqualContent.delta(), Delta::ConsolidatedByEqualContent);
    assert_eq!(Check::FastForward.delta(), Delta::NotConsolidatedButFastForwardable);
    assert_eq!(Check::SameCommit.following(), Some(Check::MergeCommit));
    assert_eq!(Check::MergeCommit.following(), Some(Check::EqualContent));
    assert_eq!(Check::EqualContent.following(), Some(Check::FastForward));
    assert_eq!(Check::FastForward.following(), None);
    let f = facts(true, false, true, false, true);
    assert!(!f.holds(Check::SameCommit));
    assert!(f.holds(Check::MergeCommit));
    assert!(!f.holds(Check::EqualContent));
    assert!(f.holds(Check::FastForward));
}
