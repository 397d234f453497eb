use vstd::prelude::*;

use crate::game::Vec2d;
use crate::tally::{weights_ok, Weights};

verus! {

/// The index of the first hurdle (`'#'`) strictly after the player's
/// position, or `usize::MAX` when no hurdle is left on the track.
pub fn next_fence(gpu: &Vec<char>, pos: usize) -> (r: usize)
    ensures
        r != usize::MAX ==> pos < r < gpu@.len() && gpu@[r as int] == '#',
        r != usize::MAX ==> forall|i: int| pos < i < r ==> gpu@[i] != '#',
        r == usize::MAX ==> forall|i: int| pos < i < gpu@.len() ==> gpu@[i] != '#',
{
    if pos >= gpu.len() {
        return usize::MAX;
    }
    let mut i: usize = pos + 1;
    while i < gpu.len()
        invariant
            pos < i <= gpu@.len(),
            forall|j: int| pos < j < i ==> gpu@[j] != '#',
        decreases gpu@.len() - i,
    {
        if gpu[i] == '#' {
            // The track is never `usize::MAX` characters long, so an index
            // into it is distinguishable from the no-hurdle marker.
            assert(i != usize::MAX);
            return i;
        }
        i = i + 1;
    }
    usize::MAX
}

/// The character at position `i` of the end-of-game marker `GAME_OVER`.
pub open spec fn game_over_char(i: int) -> char {
    if i == 0 {
        'G'
    } else if i == 1 {
        'A'
    } else if i == 2 {
        'M'
    } else if i == 3 {
        'E'
    } else if i == 4 {
        '_'
    } else if i == 5 {
        'O'
    } else if i == 6 {
        'V'
    } else if i == 7 {
        'E'
    } else {
        'R'
    }
}

/// A track is finished when it agrees with the end-of-game marker as far as
/// the two overlap (in particular, an empty track counts as finished).
pub open spec fn finished_track(gpu: Seq<char>) -> bool {
    forall|i: int| 0 <= i < gpu.len() && i < 9 ==> gpu[i] == game_over_char(i)
}

/// Whether the minigame's track already reads `GAME_OVER`.
pub fn is_game_over(gpu: &Vec<char>) -> (r: bool)
    ensures
        r == finished_track(gpu@),
{
    let n: usize = if gpu.len() < 9 {
        gpu.len()
    } else {
        9
    };
    let mut i: usize = 0;
    while i < n
        invariant
            0 <= i <= n,
            n <= gpu@.len(),
            n == if gpu@.len() < 9 {
                gpu@.len() as int
            } else {
                9int
            },
            forall|j: int| 0 <= j < i ==> gpu@[j] == game_over_char(j),
        decreases n - i,
    {
        let expected: char = match i {
            0 => 'G',
            1 => 'A',
            2 => 'M',
            3 => 'E',
            4 => '_',
            5 => 'O',
            6 => 'V',
            7 => 'E',
            _ => 'R',
        };
        if gpu[i] != expected {
            proof {
                assert(gpu@[i as int] != game_over_char(i as int));
                assert(!finished_track(gpu@));
            }
            return false;
        }
        i = i + 1;
    }
    true
}

/// The archer's position after one of the four candidate moves, listed in
/// the order they are ranked: up, down, left, right.
pub open spec fn move_pos(pos: Vec2d<i32>, wind: i32, mv: int) -> (int, int) {
    if mv == 0 {
        (pos.x as int, pos.y + wind)
    } else if mv == 1 {
        (pos.x as int, pos.y - wind)
    } else if mv == 2 {
        (pos.x + wind, pos.y as int)
    } else {
        (pos.x - wind, pos.y as int)
    }
}

/// The squared distance to the target after a candidate move.
pub open spec fn move_dist_sq(pos: Vec2d<i32>, wind: i32, mv: int) -> int {
    let p: (int, int) = move_pos(pos, wind, mv);
    p.0 * p.0 + p.1 * p.1
}

/// The rank of a candidate move when the four moves are ordered by ascending
/// squared distance, ties kept in candidate order: the number of moves that
/// land strictly nearer, plus the earlier candidates that land equally near.
pub open spec fn move_rank(pos: Vec2d<i32>, wind: i32, mv: int) -> int {
    let d0: int = move_dist_sq(pos, wind, 0);
    let d1: int = move_dist_sq(pos, wind, 1);
    let d2: int = move_dist_sq(pos, wind, 2);
    let d3: int = move_dist_sq(pos, wind, 3);
    let dm: int = move_dist_sq(pos, wind, mv);
    (if d0 < dm || (0 < mv && d0 == dm) {
        1int
    } else {
        0int
    }) + (if d1 < dm || (1 < mv && d1 == dm) {
        1int
    } else {
        0int
    }) + (if d2 < dm || (2 < mv && d2 == dm) {
        1int
    } else {
        0int
    }) + (if d3 < dm || (3 < mv && d3 == dm) {
        1int
    } else {
        0int
    })
}

/// The archery ballot: each move weighted by its rank in ascending distance
/// order, so the move drifting farthest from the target carries the largest
/// weight and the nearest one carries none.
pub fn archery_vote(pos: Vec2d<i32>, wind: i32) -> (r: Weights)
    ensures
        r.up == move_rank(pos, wind, 0),
        r.down == move_rank(pos, wind, 1),
        r.left == move_rank(pos, wind, 2),
        r.right == move_rank(pos, wind, 3),
        weights_ok(r),
{
    let x: i128 = pos.x as i128;
    let y: i128 = pos.y as i128;
    let w: i128 = wind as i128;
    proof {
        lemma_archery_square_bounds(x as int, y + w);
        lemma_archery_square_bounds(x as int, y - w);
        lemma_archery_square_bounds(x + w, y as int);
        lemma_archery_square_bounds(x - w, y as int);
    }
    let d0: i128 = x * x + (y + w) * (y + w);
    let d1: i128 = x * x + (y - w) * (y - w);
    let d2: i128 = (x + w) * (x + w) + y * y;
    let d3: i128 = (x - w) * (x - w) + y * y;
    let r0: u64 = (if d1 < d0 {
        1u64
    } else {
        0u64
    }) + (if d2 < d0 {
        1u64
    } else {
        0u64
    }) + (if d3 < d0 {
        1u64
    } else {
        0u64
    });
    let r1: u64 = (if d0 <= d1 {
        1u64
    } else {
        0u64
    }) + (if d2 < d1 {
        1u64
    } else {
        0u64
    }) + (if d3 < d1 {
        1u64
    } else {
        0u64
    });
    let r2: u64 = (if d0 <= d2 {
        1u64
    } else {
        0u64
    }) + (if d1 <= d2 {
        1u64
    } else {
        0u64
    }) + (if d3 < d2 {
        1u64
    } else {
        0u64
    });
    let r3: u64 = (if d0 <= d3 {
        1u64
    } else {
        0u64
    }) + (if d1 <= d3 {
        1u64
    } else {
        0u64
    }) + (if d2 <= d3 {
        1u64
    } else {
        0u64
    });
    Weights { left: r2, right: r3, down: r1, up: r0 }
}

/// Squared coordinates of one move stay well inside 128 bits: each term is
/// the square of at most a 33-bit value.
proof fn lemma_archery_square_bounds(x: int, y: int)
    by (nonlinear_arith)
    requires
        -0x1_0000_0000 <= x <= 0x1_0000_0000,
        -0x1_0000_0000 <= y <= 0x1_0000_0000,
    ensures
        0 <= x * x <= 0x1_0000_0000_0000_0000,
        0 <= y * y <= 0x1_0000_0000_0000_0000,
{
}

} // verus!
