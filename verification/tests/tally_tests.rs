use vote_runoff::action::Action;
use vote_runoff::tally::{ProducerId, SubmitError, VoteManager, Weights, WEIGHT_MAX};

fn weights(left: u64, right: u64, down: u64, up: u64) -> Weights {
    Weights { left, right, down, up }
}

#[test]
fn empty_submission_set_yields_default() {
    let votes = VoteManager::new(Action::Up);
    assert_eq!(votes.resolve(), Action::Up);
    let votes = VoteManager::new(Action::Down);
    assert_eq!(votes.resolve(), Action::Down);
}

#[test]
fn all_zero_ballots_yield_default() {
    let mut votes = VoteManager::new(Action::Up);
    votes.submit(ProducerId::Hurdle, Weights::zero()).unwrap();
    votes.submit(ProducerId::Archery, Weights::zero()).unwrap();
    votes.submit(ProducerId::Roller, Weights::zero()).unwrap();
    votes.submit(ProducerId::Diving, Weights::zero()).unwrap();
    assert_eq!(votes.resolve(), Action::Up);
}

#[test]
fn single_focused_ballot_wins_outright() {
    let mut votes = VoteManager::new(Action::Up);
    votes.submit(ProducerId::Diving, weights(0, 0, 7, 0)).unwrap();
    assert_eq!(votes.resolve(), Action::Down);
}

#[test]
fn resolve_is_deterministic_and_does_not_mutate() {
    let mut votes = VoteManager::new(Action::Up);
    votes.submit(ProducerId::Hurdle, weights(1, 0, 0, 0)).unwrap();
    votes.submit(ProducerId::Archery, weights(0, 0, 2, 1)).unwrap();
    let first = votes.resolve();
    let second = votes.resolve();
    assert_eq!(first, second);
}

#[test]
fn zero_ballot_does_not_change_outcome() {
    let mut votes = VoteManager::new(Action::Up);
    votes.submit(ProducerId::Hurdle, weights(1, 0, 0, 0)).unwrap();
    votes.submit(ProducerId::Archery, weights(0, 3, 0, 1)).unwrap();
    let without = votes.resolve();
    votes.submit(ProducerId::Roller, Weights::zero()).unwrap();
    let with = votes.resolve();
    assert_eq!(without, with);
}

#[test]
fn two_way_split_picks_first_in_enumeration_order() {
    // Both actions reach exactly half of the two participants; the scan in
    // fixed enumeration order returns the earlier one.
    let mut votes = VoteManager::new(Action::Up);
    votes.submit(ProducerId::Hurdle, weights(1, 0, 0, 0)).unwrap();
    votes.submit(ProducerId::Archery, weights(0, 1, 0, 0)).unwrap();
    assert_eq!(votes.resolve(), Action::Left);
}

#[test]
fn three_way_split_eliminates_lowest_index_first() {
    // Three single-action ballots tie at a third each: no majority, the
    // tie-break eliminates the earliest action, and the next scan hands the
    // win to the earliest surviving action.
    let mut votes = VoteManager::new(Action::Up);
    votes.submit(ProducerId::Hurdle, weights(1, 0, 0, 0)).unwrap();
    votes.submit(ProducerId::Archery, weights(0, 1, 0, 0)).unwrap();
    votes.submit(ProducerId::Roller, weights(0, 0, 1, 0)).unwrap();
    assert_eq!(votes.resolve(), Action::Right);
}

#[test]
fn lone_ballot_majority_from_normalization() {
    // One ballot of {left: 2, right: 1} normalizes to two thirds for left,
    // which meets the threshold of half of one participant.
    let mut votes = VoteManager::new(Action::Up);
    votes.submit(ProducerId::Hurdle, weights(2, 1, 0, 0)).unwrap();
    assert_eq!(votes.resolve(), Action::Left);
}

#[test]
fn resubmission_replaces_earlier_ballot() {
    let mut votes = VoteManager::new(Action::Up);
    votes.submit(ProducerId::Hurdle, weights(5, 0, 0, 0)).unwrap();
    votes.submit(ProducerId::Hurdle, weights(0, 0, 0, 4)).unwrap();
    assert_eq!(votes.resolve(), Action::Up);
}

#[test]
fn oversized_weight_is_rejected_and_state_kept() {
    let mut votes = VoteManager::new(Action::Up);
    votes.submit(ProducerId::Hurdle, weights(1, 0, 0, 0)).unwrap();
    let r = votes.submit(ProducerId::Hurdle, weights(0, WEIGHT_MAX + 1, 0, 0));
    assert_eq!(r, Err(SubmitError::WeightTooLarge));
    assert_eq!(votes.resolve(), Action::Left);
}

#[test]
fn largest_accepted_weight_is_kept() {
    let mut votes = VoteManager::new(Action::Up);
    votes.submit(ProducerId::Hurdle, weights(0, 0, WEIGHT_MAX, 0)).unwrap();
    assert_eq!(votes.resolve(), Action::Down);
}

#[test]
fn clear_forgets_every_ballot() {
    let mut votes = VoteManager::new(Action::Up);
    votes.submit(ProducerId::Hurdle, weights(1, 0, 0, 0)).unwrap();
    votes.submit(ProducerId::Archery, weights(9, 0, 0, 0)).unwrap();
    votes.clear();
    assert_eq!(votes.resolve(), Action::Up);
}

#[test]
fn fragmented_field_resolves_by_elimination() {
    // Three producers split across actions with different strengths: no
    // action reaches half of three participants at first, so the weakest
    // aggregate is eliminated and its supporter's mass moves on.
    let mut votes = VoteManager::new(Action::Up);
    votes.submit(ProducerId::Hurdle, weights(2, 1, 0, 0)).unwrap();
    votes.submit(ProducerId::Archery, weights(0, 2, 1, 0)).unwrap();
    votes.submit(ProducerId::Roller, weights(0, 0, 0, 1)).unwrap();
    // Round one: left 2/3, right 1, down 1/3, up 1 against a threshold of
    // 3/2; down is weakest and goes. Round two: left 2/3, right 4/3, up 1;
    // still no majority, left goes. Round three: the hurdle ballot is now
    // pure right, so right holds 2 of the 3/2 threshold and wins.
    assert_eq!(votes.resolve(), Action::Right);
}
