use vstd::prelude::*;

verus! {

/// Medal count of one player in one minigame.
#[derive(Clone, Copy, Debug, PartialEq, Eq, Structural)]
pub struct Score {
    pub gold: usize,
    pub silver: usize,
    pub bronze: usize,
}

/// One player's overall standing: the final score and the per-minigame medal
/// counts.
#[derive(Clone, Copy, Debug)]
pub struct PlayerInfo {
    pub final_score: usize,
    pub scores: [Score; 4],
}

/// One player's state in the hurdle race.
#[derive(Clone, Copy, Debug, PartialEq, Eq, Structural)]
pub struct HurdleRacePlayer {
    pub pos: usize,
    pub stunt: usize,
}

/// One player's state in the diving minigame.
#[derive(Clone, Copy, Debug, PartialEq, Eq, Structural)]
pub struct DivingPlayer {
    pub points: usize,
    pub combo: usize,
}

/// One player's state in the roller minigame.
#[derive(Clone, Copy, Debug, PartialEq, Eq, Structural)]
pub struct RollerPlayer {
    pub pos: usize,
    pub stunt: usize,
    pub risk: usize,
}

/// A two-dimensional vector.
#[derive(Clone, Copy, Debug, PartialEq, Eq, Structural)]
pub struct Vec2d<T> {
    pub x: T,
    pub y: T,
}

impl Vec2d<i32> {
    /// The squared magnitude. Two magnitudes compare the same way their
    /// squares do, so every comparison of distances is made on this exact
    /// integer.
    pub fn mag_sq(&self) -> (r: u64)
        ensures
            r == self.x * self.x + self.y * self.y,
    {
        let x: i128 = self.x as i128;
        let y: i128 = self.y as i128;
        proof {
            lemma_square_bound(x as int, 0x8000_0000);
            lemma_square_bound(y as int, 0x8000_0000);
        }
        (x * x + y * y) as u64
    }
}

/// Squares of bounded values are non-negative and bounded.
proof fn lemma_square_bound(x: int, b: int)
    by (nonlinear_arith)
    requires
        -b <= x <= b,
        0 <= b,
    ensures
        0 <= x * x <= b * b,
{
}

/// The observable state of one minigame, as read off the input stream each
/// turn.
#[derive(Clone, Debug)]
pub enum GameInfo {
    Unused,
    Diving { gpu: Vec<char>, players: [DivingPlayer; 3] },
    HurdleRace { gpu: Vec<char>, players: [HurdleRacePlayer; 3] },
    Archery { gpu: Vec<usize>, players: [Vec2d<i32>; 3] },
    Roller { gpu: Vec<char>, players: [RollerPlayer; 3], turns_left: usize },
}

/// The full observable state of one turn.
#[derive(Clone, Debug)]
pub struct TurnInfo {
    pub players: [PlayerInfo; 3],
    pub games: [GameInfo; 4],
}

/// A player's standing with no score recorded yet.
pub open spec fn blank_player(p: PlayerInfo) -> bool {
    p.final_score == 0 && forall|j: int|
        0 <= j < 4 ==> p.scores@[j] == (Score { gold: 0, silver: 0, bronze: 0 })
}

/// The static parameters of a match: this player's index and the number of
/// minigames.
#[derive(Clone, Copy, Debug)]
pub struct Game {
    pub player_idx: usize,
    pub nb_game: usize,
}

impl Game {
    /// A turn state with every field still blank, holding the four minigame
    /// variants in their fixed positions: hurdle race, archery, roller,
    /// diving.
    pub fn blank_turninfo(&self) -> (r: TurnInfo)
        ensures
            forall|i: int| 0 <= i < 3 ==> blank_player(#[trigger] r.players@[i]),
            r.games@[0] matches GameInfo::HurdleRace { gpu, players } && gpu@.len() == 0 && (forall|
                i: int,
            |
                0 <= i < 3 ==> players@[i] == (HurdleRacePlayer { pos: 0, stunt: 0 })),
            r.games@[1] matches GameInfo::Archery { gpu, players } && gpu@.len() == 0 && (forall|
                i: int,
            |
                0 <= i < 3 ==> players@[i] == (Vec2d { x: 0i32, y: 0i32 })),
            r.games@[2] matches GameInfo::Roller { gpu, players, turns_left } && gpu@.len() == 0
                && turns_left == 0 && (forall|i: int|
                0 <= i < 3 ==> players@[i] == (RollerPlayer { pos: 0, stunt: 0, risk: 0 })),
            r.games@[3] matches GameInfo::Diving { gpu, players } && gpu@.len() == 0 && (forall|
                i: int,
            |
                0 <= i < 3 ==> players@[i] == (DivingPlayer { points: 0, combo: 0 })),
    {
        let blank = PlayerInfo {
            final_score: 0,
            scores: [
                Score { gold: 0, silver: 0, bronze: 0 },
                Score { gold: 0, silver: 0, bronze: 0 },
                Score { gold: 0, silver: 0, bronze: 0 },
                Score { gold: 0, silver: 0, bronze: 0 },
            ],
        };
        TurnInfo {
            players: [blank, blank, blank],
            games: [
                GameInfo::HurdleRace {
                    gpu: Vec::new(),
                    players: [
                        HurdleRacePlayer { pos: 0, stunt: 0 },
                        HurdleRacePlayer { pos: 0, stunt: 0 },
                        HurdleRacePlayer { pos: 0, stunt: 0 },
                    ],
                },
                GameInfo::Archery {
                    gpu: Vec::new(),
                    players: [
                        Vec2d { x: 0, y: 0 },
                        Vec2d { x: 0, y: 0 },
                        Vec2d { x: 0, y: 0 },
                    ],
                },
                GameInfo::Roller {
                    gpu: Vec::new(),
                    players: [
                        RollerPlayer { pos: 0, stunt: 0, risk: 0 },
                        RollerPlayer { pos: 0, stunt: 0, risk: 0 },
                        RollerPlayer { pos: 0, stunt: 0, risk: 0 },
                    ],
                    turns_left: 0,
                },
                GameInfo::Diving {
                    gpu: Vec::new(),
                    players: [
                        DivingPlayer { points: 0, combo: 0 },
                        DivingPlayer { points: 0, combo: 0 },
                        DivingPlayer { points: 0, combo: 0 },
                    ],
                },
            ],
        }
    }
}

} // verus!
