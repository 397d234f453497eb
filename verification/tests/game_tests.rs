use vote_runoff::action::Action;
use vote_runoff::game::{Game, GameInfo, Vec2d};
use vote_runoff::heuristics::{archery_vote, is_game_over, next_fence};

#[test]
fn action_labels_are_the_fixed_tokens() {
    assert_eq!(Action::Up.label(), "UP");
    assert_eq!(Action::Down.label(), "DOWN");
    assert_eq!(Action::Left.label(), "LEFT");
    assert_eq!(Action::Right.label(), "RIGHT");
}

#[test]
fn action_indices_follow_enumeration_order() {
    assert_eq!(Action::Left.index(), 0);
    assert_eq!(Action::Right.index(), 1);
    assert_eq!(Action::Down.index(), 2);
    assert_eq!(Action::Up.index(), 3);
}

#[test]
fn magnitude_squared_is_exact() {
    assert_eq!(Vec2d { x: 3, y: 4 }.mag_sq(), 25);
    assert_eq!(Vec2d { x: 0, y: 0 }.mag_sq(), 0);
    assert_eq!(Vec2d { x: -5, y: 2 }.mag_sq(), 29);
    assert_eq!(Vec2d { x: i32::MIN, y: i32::MIN }.mag_sq(), 2u64.pow(63));
}

#[test]
fn next_fence_finds_first_hurdle_after_position() {
    let track: Vec<char> = ".#...#....".chars().collect();
    assert_eq!(next_fence(&track, 0), 1);
    assert_eq!(next_fence(&track, 1), 5);
    assert_eq!(next_fence(&track, 5), usize::MAX);
    assert_eq!(next_fence(&track, 42), usize::MAX);
}

#[test]
fn game_over_detection_matches_prefix_rule() {
    let over: Vec<char> = "GAME_OVER".chars().collect();
    assert!(is_game_over(&over));
    // The check only compares as far as the two strings overlap, so an empty
    // track and a strict prefix both count as finished.
    let empty: Vec<char> = Vec::new();
    assert!(is_game_over(&empty));
    let prefix: Vec<char> = "GAME".chars().collect();
    assert!(is_game_over(&prefix));
    let running: Vec<char> = ".....#...".chars().collect();
    assert!(!is_game_over(&running));
}

#[test]
fn archery_ranks_moves_by_distance() {
    // At (3, 0) with wind 2: up lands at (3, 2) for 13, down at (3, -2) for
    // 13, left at (5, 0) for 25, right at (1, 0) for 1. Ascending order is
    // right, up, down (tie kept in candidate order), left.
    let w = archery_vote(Vec2d { x: 3, y: 0 }, 2);
    assert_eq!(w.right, 0);
    assert_eq!(w.up, 1);
    assert_eq!(w.down, 2);
    assert_eq!(w.left, 3);
}

#[test]
fn archery_with_no_wind_keeps_candidate_order() {
    // Every move lands equally far, so the ranks follow the candidate order
    // up, down, left, right.
    let w = archery_vote(Vec2d { x: 1, y: 1 }, 0);
    assert_eq!(w.up, 0);
    assert_eq!(w.down, 1);
    assert_eq!(w.left, 2);
    assert_eq!(w.right, 3);
}

#[test]
fn blank_turninfo_holds_the_four_minigames() {
    let game = Game { player_idx: 0, nb_game: 4 };
    let info = game.blank_turninfo();
    assert_eq!(info.players.len(), 3);
    for p in info.players.iter() {
        assert_eq!(p.final_score, 0);
        for s in p.scores.iter() {
            assert_eq!(s.gold, 0);
            assert_eq!(s.silver, 0);
            assert_eq!(s.bronze, 0);
        }
    }
    assert!(matches!(&info.games[0], GameInfo::HurdleRace { gpu, .. } if gpu.is_empty()));
    assert!(matches!(&info.games[1], GameInfo::Archery { gpu, .. } if gpu.is_empty()));
    assert!(
        matches!(&info.games[2], GameInfo::Roller { gpu, turns_left, .. } if gpu.is_empty() && *turns_left == 0)
    );
    assert!(matches!(&info.games[3], GameInfo::Diving { gpu, .. } if gpu.is_empty()));
}
