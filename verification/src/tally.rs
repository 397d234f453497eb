use vstd::prelude::*;

use crate::action::Action;

verus! {

/// Largest weight a single ballot entry may carry.
///
/// Weights are integers: a ballot is only read after being normalized by its
/// own total, so any ballot of rational weights can be scaled to an integer
/// one without changing its meaning. Bounding each entry by `2^24` keeps
/// every intermediate product of the exact runoff arithmetic (numerators over
/// a common product of at most four ballot totals) well inside 128 bits.
pub const WEIGHT_MAX: u64 = 0x100_0000;

/// One producer's relative preference strength for each action in the
/// current turn: four non-negative weights, one per action, where zero means
/// "no opinion" and the all-zero vector is a valid abstention.
#[derive(Clone, Copy, Debug, PartialEq, Eq, Structural)]
pub struct Weights {
    pub left: u64,
    pub right: u64,
    pub down: u64,
    pub up: u64,
}

/// The weight a vector gives to the action at position `a` of the fixed
/// enumeration order.
pub open spec fn wt(w: Weights, a: int) -> int {
    if a == 0 {
        w.left as int
    } else if a == 1 {
        w.right as int
    } else if a == 2 {
        w.down as int
    } else {
        w.up as int
    }
}

/// A weight vector the aggregator accepts: every entry within `WEIGHT_MAX`.
pub open spec fn weights_ok(w: Weights) -> bool {
    w.left <= WEIGHT_MAX && w.right <= WEIGHT_MAX && w.down <= WEIGHT_MAX && w.up <= WEIGHT_MAX
}

impl Weights {
    /// The all-zero vector: a pure abstention.
    pub fn zero() -> (r: Weights)
        ensures
            r == (Weights { left: 0u64, right: 0u64, down: 0u64, up: 0u64 }),
    {
        Weights { left: 0, right: 0, down: 0, up: 0 }
    }

    /// Whether every entry is within the accepted range.
    pub fn within_limit(&self) -> (r: bool)
        ensures
            r == weights_ok(*self),
    {
        self.left <= WEIGHT_MAX && self.right <= WEIGHT_MAX && self.down <= WEIGHT_MAX
            && self.up <= WEIGHT_MAX
    }
}

/// Identity of a ballot producer: one of the four minigame subsystems. Each
/// producer holds at most one ballot per turn; a later submission from the
/// same producer replaces the earlier one.
#[derive(Clone, Copy, Debug, PartialEq, Eq, Structural)]
pub enum ProducerId {
    Hurdle,
    Archery,
    Roller,
    Diving,
}

/// Why a submission was rejected.
#[derive(Clone, Copy, Debug, PartialEq, Eq, Structural)]
pub enum SubmitError {
    /// Some entry of the weight vector exceeds `WEIGHT_MAX`.
    WeightTooLarge,
}

/// An eliminated-action mask: `true` marks an action that an earlier runoff
/// round has removed from contention, which zeroes its entry in every ballot.
#[derive(Clone, Copy, Debug, PartialEq, Eq, Structural)]
pub struct Mask {
    pub left: bool,
    pub right: bool,
    pub down: bool,
    pub up: bool,
}

/// Whether the mask eliminates the action at position `a`.
pub open spec fn masked(m: Mask, a: int) -> bool {
    if a == 0 {
        m.left
    } else if a == 1 {
        m.right
    } else if a == 2 {
        m.down
    } else {
        m.up
    }
}

/// The mask that additionally eliminates the action at position `a`.
pub open spec fn mask_set(m: Mask, a: int) -> Mask {
    Mask {
        left: m.left || a == 0,
        right: m.right || a == 1,
        down: m.down || a == 2,
        up: m.up || a == 3,
    }
}

/// Pointwise order on masks: `m1` eliminates no action that `m2` keeps.
pub open spec fn mask_le(m1: Mask, m2: Mask) -> bool {
    (m1.left ==> m2.left) && (m1.right ==> m2.right) && (m1.down ==> m2.down) && (m1.up
        ==> m2.up)
}

/// The weight a slot contributes to the action at position `a` once the mask
/// is applied: zero for an empty slot and for an eliminated action.
pub open spec fn live_wt(s: Option<Weights>, m: Mask, a: int) -> int {
    match s {
        Option::Some(w) => if masked(m, a) {
            0
        } else {
            wt(w, a)
        },
        Option::None => 0,
    }
}

/// The total live mass of one slot under the mask. A slot participates in a
/// round exactly when this total is non-zero.
pub open spec fn slot_total(s: Option<Weights>, m: Mask) -> int {
    live_wt(s, m, 0) + live_wt(s, m, 1) + live_wt(s, m, 2) + live_wt(s, m, 3)
}

/// The slot's factor in the common denominator of the aggregate scores: its
/// live total when it participates, and the neutral factor `1` otherwise.
pub open spec fn dfac(s: Option<Weights>, m: Mask) -> int {
    let t: int = slot_total(s, m);
    if t > 0 {
        t
    } else {
        1
    }
}

/// A slot that contributes nothing to any round: empty, or an all-zero
/// vector.
pub open spec fn abstains(s: Option<Weights>) -> bool {
    match s {
        Option::Some(w) => w.left == 0 && w.right == 0 && w.down == 0 && w.up == 0,
        Option::None => true,
    }
}

/// The exact figures one runoff round compares: all integers, with the
/// aggregate scores and the majority threshold expressed over the round's
/// common denominator.
struct RoundScores {
    /// The total live mass over all ballots.
    grand: u64,
    /// `participants * den`: twice a score reaching it is a majority.
    threshold: u128,
    /// The score numerators, in the fixed enumeration order.
    num0: u128,
    num1: u128,
    num2: u128,
    num3: u128,
}

/// Collects one ballot per producer and resolves the collected submissions
/// into a single action by iterative weighted instant-runoff.
///
/// All arithmetic is exact: every aggregate score of a round is a rational
/// with the common denominator `den` (the product of the participating
/// ballots' live totals), and only the integer numerators are ever compared.
pub struct VoteManager {
    pub hurdle: Option<Weights>,
    pub archery: Option<Weights>,
    pub roller: Option<Weights>,
    pub diving: Option<Weights>,
    /// The action returned when no producer expressed any preference.
    pub default_action: Action,
}

impl VoteManager {
    /// The ballot currently held for a producer.
    pub open spec fn slot(self, p: ProducerId) -> Option<Weights> {
        match p {
            ProducerId::Hurdle => self.hurdle,
            ProducerId::Archery => self.archery,
            ProducerId::Roller => self.roller,
            ProducerId::Diving => self.diving,
        }
    }

    /// Every held ballot is within the accepted weight range. `submit`
    /// enforces this, so any state built through the public operations
    /// satisfies it.
    pub open spec fn wf(self) -> bool {
        &&& (self.hurdle matches Option::Some(w) ==> weights_ok(w))
        &&& (self.archery matches Option::Some(w) ==> weights_ok(w))
        &&& (self.roller matches Option::Some(w) ==> weights_ok(w))
        &&& (self.diving matches Option::Some(w) ==> weights_ok(w))
    }

    /// The state after recording or replacing one producer's ballot.
    pub open spec fn spec_submit(self, p: ProducerId, w: Weights) -> VoteManager {
        match p {
            ProducerId::Hurdle => VoteManager { hurdle: Option::Some(w), ..self },
            ProducerId::Archery => VoteManager { archery: Option::Some(w), ..self },
            ProducerId::Roller => VoteManager { roller: Option::Some(w), ..self },
            ProducerId::Diving => VoteManager { diving: Option::Some(w), ..self },
        }
    }

    /// The total live mass of the round: the sum of all live entries of all
    /// ballots. Zero means every producer abstains (or everything they voted
    /// for has been eliminated) and the round resolves to the default.
    pub open spec fn grand_total(self, m: Mask) -> int {
        slot_total(self.hurdle, m) + slot_total(self.archery, m) + slot_total(self.roller, m)
            + slot_total(self.diving, m)
    }

    /// The number of participating (non-abstaining) ballots of the round.
    pub open spec fn participants(self, m: Mask) -> int {
        (if slot_total(self.hurdle, m) > 0 {
            1int
        } else {
            0int
        }) + (if slot_total(self.archery, m) > 0 {
            1int
        } else {
            0int
        }) + (if slot_total(self.roller, m) > 0 {
            1int
        } else {
            0int
        }) + (if slot_total(self.diving, m) > 0 {
            1int
        } else {
            0int
        })
    }

    /// The common denominator of the round's aggregate scores: the product of
    /// the participating ballots' live totals (abstaining slots contribute
    /// the neutral factor `1`).
    pub open spec fn den(self, m: Mask) -> int {
        dfac(self.hurdle, m) * ((dfac(self.archery, m) * dfac(self.roller, m)) * dfac(
            self.diving,
            m,
        ))
    }

    /// The numerator, over the common denominator `den`, of the aggregate
    /// score of the action at position `a`: each participating ballot
    /// contributes its live weight for `a` divided by its own live total, so
    /// its numerator term is that weight times the other slots' factors.
    /// An abstaining slot's live weights are all zero, so its term vanishes.
    pub open spec fn score_num(self, m: Mask, a: int) -> int {
        live_wt(self.hurdle, m, a) * ((dfac(self.archery, m) * dfac(self.roller, m)) * dfac(
            self.diving,
            m,
        )) + live_wt(self.archery, m, a) * ((dfac(self.hurdle, m) * dfac(self.roller, m)) * dfac(
            self.diving,
            m,
        )) + live_wt(self.roller, m, a) * ((dfac(self.hurdle, m) * dfac(self.archery, m)) * dfac(
            self.diving,
            m,
        )) + live_wt(self.diving, m, a) * ((dfac(self.hurdle, m) * dfac(self.archery, m)) * dfac(
            self.roller,
            m,
        ))
    }

    /// Whether the action at position `a` holds at least half of the
    /// participating ballots' mass: `score >= participants / 2`, compared
    /// exactly over the common denominator.
    pub open spec fn has_majority(self, m: Mask, a: int) -> bool {
        2 * self.score_num(m, a) >= self.participants(m) * self.den(m)
    }

    /// The first action, in the fixed enumeration order, that reaches the
    /// majority threshold; `-1` when none does.
    pub open spec fn first_majority(self, m: Mask) -> int {
        if self.has_majority(m, 0) {
            0int
        } else if self.has_majority(m, 1) {
            1int
        } else if self.has_majority(m, 2) {
            2int
        } else if self.has_majority(m, 3) {
            3int
        } else {
            -1int
        }
    }

    /// The action the round eliminates: the strictly smallest non-zero
    /// aggregate score, ties broken toward the lowest position (the earlier
    /// action is eliminated first); `-1` when every score is zero.
    pub open spec fn elim_pick(self, m: Mask) -> int {
        let n0: int = self.score_num(m, 0);
        let n1: int = self.score_num(m, 1);
        let n2: int = self.score_num(m, 2);
        let n3: int = self.score_num(m, 3);
        let b0: int = if n0 > 0 {
            0int
        } else {
            -1int
        };
        let b1: int = if n1 > 0 && (b0 < 0 || n1 < n0) {
            1int
        } else {
            b0
        };
        let b2: int = if n2 > 0 && (b1 < 0 || n2 < (if b1 == 0 {
            n0
        } else {
            n1
        })) {
            2int
        } else {
            b1
        };
        if n3 > 0 && (b2 < 0 || n3 < (if b2 == 0 {
            n0
        } else if b2 == 1 {
            n1
        } else {
            n2
        })) {
            3int
        } else {
            b2
        }
    }

    /// One elimination round and its successors. `fuel` bounds the recursion;
    /// four rounds always suffice, because each recursion eliminates one of
    /// the four actions and a round with a single live action either has no
    /// mass left or hands that action the whole mass of every participant.
    pub open spec fn round(self, m: Mask, fuel: nat) -> Action
        decreases fuel,
    {
        if fuel == 0 {
            self.default_action
        } else if self.grand_total(m) <= 0 {
            self.default_action
        } else if self.first_majority(m) >= 0 {
            Action::from_ordinal(self.first_majority(m))
        } else if self.elim_pick(m) >= 0 {
            self.round(mask_set(m, self.elim_pick(m)), (fuel - 1) as nat)
        } else {
            self.default_action
        }
    }

    /// The action the current submission set resolves to.
    pub open spec fn decision(self) -> Action {
        self.round(Mask { left: false, right: false, down: false, up: false }, 4)
    }

    /// An empty submission set that resolves to `default_action` until a
    /// producer expresses a preference.
    pub fn new(default_action: Action) -> (r: VoteManager)
        ensures
            r.wf(),
            r.hurdle is None,
            r.archery is None,
            r.roller is None,
            r.diving is None,
            r.default_action == default_action,
    {
        VoteManager {
            hurdle: None,
            archery: None,
            roller: None,
            diving: None,
            default_action,
        }
    }

    /// Empties the submission set for the next turn; the configured default
    /// action is kept.
    pub fn clear(&mut self)
        ensures
            final(self).hurdle is None,
            final(self).archery is None,
            final(self).roller is None,
            final(self).diving is None,
            final(self).default_action == old(self).default_action,
            final(self).wf(),
    {
        self.hurdle = None;
        self.archery = None;
        self.roller = None;
        self.diving = None;
    }

    /// Records or replaces the producer's weight vector for the current turn.
    /// A vector with an entry beyond `WEIGHT_MAX` is rejected and the
    /// submission set is left unchanged.
    pub fn submit(&mut self, producer: ProducerId, w: Weights) -> (r: Result<(), SubmitError>)
        ensures
            r is Ok <==> weights_ok(w),
            r is Ok ==> *final(self) == old(self).spec_submit(producer, w),
            r is Err ==> *final(self) == *old(self) && r == Result::<(), SubmitError>::Err(
                SubmitError::WeightTooLarge,
            ),
            old(self).wf() ==> final(self).wf(),
    {
        if !w.within_limit() {
            return Err(SubmitError::WeightTooLarge);
        }
        match producer {
            ProducerId::Hurdle => self.hurdle = Some(w),
            ProducerId::Archery => self.archery = Some(w),
            ProducerId::Roller => self.roller = Some(w),
            ProducerId::Diving => self.diving = Some(w),
        }
        Ok(())
    }

    /// Computes the winning action for the current submission set: at most
    /// four rounds of normalize, majority check and elimination. Does not
    /// mutate the submission set, so the result is a function of the held
    /// ballots and the configured default alone: calling it twice without an
    /// intervening `submit` or `clear` yields the same action both times,
    /// tied scores included, since every tie-break is a fixed documented rule.
    pub fn resolve(&self) -> (r: Action)
        requires
            self.wf(),
        ensures
            r == self.decision(),
    {
        self.resolve_round(Mask { left: false, right: false, down: false, up: false }, 4)
    }

    /// The exact figures of one round: the grand total, and the majority
    /// threshold and aggregate-score numerators over the round's common
    /// denominator.
    #[verifier::rlimit(100)]
    fn round_scores(&self, m: Mask) -> (r: RoundScores)
        requires
            self.wf(),
        ensures
            r.grand == self.grand_total(m),
            r.threshold == self.participants(m) * self.den(m),
            r.num0 == self.score_num(m, 0),
            r.num1 == self.score_num(m, 1),
            r.num2 == self.score_num(m, 2),
            r.num3 == self.score_num(m, 3),
            r.num0 <= DEN_BOUND && r.num1 <= DEN_BOUND && r.num2 <= DEN_BOUND && r.num3
                <= DEN_BOUND,
    {
        let (h0, h1, h2, h3) = live_of(&self.hurdle, m);
        let (a0, a1, a2, a3) = live_of(&self.archery, m);
        let (r0, r1, r2, r3) = live_of(&self.roller, m);
        let (d0, d1, d2, d3) = live_of(&self.diving, m);
        let th: u64 = h0 + h1 + h2 + h3;
        let ta: u64 = a0 + a1 + a2 + a3;
        let tr: u64 = r0 + r1 + r2 + r3;
        let td: u64 = d0 + d1 + d2 + d3;
        let grand: u64 = th + ta + tr + td;
        let n: u64 = (if th > 0 {
            1u64
        } else {
            0u64
        }) + (if ta > 0 {
            1u64
        } else {
            0u64
        }) + (if tr > 0 {
            1u64
        } else {
            0u64
        }) + (if td > 0 {
            1u64
        } else {
            0u64
        });
        let fh: u128 = if th > 0 {
            th as u128
        } else {
            1
        };
        let fa: u128 = if ta > 0 {
            ta as u128
        } else {
            1
        };
        let fr: u128 = if tr > 0 {
            tr as u128
        } else {
            1
        };
        let fd: u128 = if td > 0 {
            td as u128
        } else {
            1
        };
        proof {
            assert(th == slot_total(self.hurdle, m));
            assert(ta == slot_total(self.archery, m));
            assert(tr == slot_total(self.roller, m));
            assert(td == slot_total(self.diving, m));
            assert(fh == dfac(self.hurdle, m));
            assert(fa == dfac(self.archery, m));
            assert(fr == dfac(self.roller, m));
            assert(fd == dfac(self.diving, m));
            lemma_mul_le(fa as int, fr as int, FAC_BOUND as int, FAC_BOUND as int);
            lemma_mul_le(fh as int, fr as int, FAC_BOUND as int, FAC_BOUND as int);
            lemma_mul_le(fh as int, fa as int, FAC_BOUND as int, FAC_BOUND as int);
            lemma_mul_le((fa * fr) as int, fd as int, FAC_BOUND_2 as int, FAC_BOUND as int);
            lemma_mul_le((fh * fr) as int, fd as int, FAC_BOUND_2 as int, FAC_BOUND as int);
            lemma_mul_le((fh * fa) as int, fd as int, FAC_BOUND_2 as int, FAC_BOUND as int);
            lemma_mul_le((fh * fa) as int, fr as int, FAC_BOUND_2 as int, FAC_BOUND as int);
        }
        // The slot's factor in the common denominator, and for each slot the
        // product of the three other factors.
        let ph: u128 = (fa * fr) * fd;
        let pa: u128 = (fh * fr) * fd;
        let pr: u128 = (fh * fa) * fd;
        let pd: u128 = (fh * fa) * fr;
        proof {
            lemma_mul_le(fh as int, ph as int, FAC_BOUND as int, FAC_BOUND_3 as int);
        }
        let den: u128 = fh * ph;
        proof {
            assert(den == self.den(m));
        }
        let num0: u128 = score_terms(h0, a0, r0, d0, ph, pa, pr, pd);
        let num1: u128 = score_terms(h1, a1, r1, d1, ph, pa, pr, pd);
        let num2: u128 = score_terms(h2, a2, r2, d2, ph, pa, pr, pd);
        let num3: u128 = score_terms(h3, a3, r3, d3, ph, pa, pr, pd);
        proof {
            assert(num0 == self.score_num(m, 0));
            assert(num1 == self.score_num(m, 1));
            assert(num2 == self.score_num(m, 2));
            assert(num3 == self.score_num(m, 3));
            lemma_mul_le(n as int, den as int, 4, DEN_BOUND as int);
        }
        let threshold: u128 = (n as u128) * den;
        RoundScores { grand, threshold, num0, num1, num2, num3 }
    }

    /// One elimination round of `resolve`, mirroring `round` exactly.
    fn resolve_round(&self, m: Mask, fuel: u8) -> (r: Action)
        requires
            self.wf(),
        ensures
            r == self.round(m, fuel as nat),
        decreases fuel,
    {
        if fuel == 0 {
            return self.default_action;
        }
        let s = self.round_scores(m);
        if s.grand == 0 {
            return self.default_action;
        }
        let threshold: u128 = s.threshold;
        let num0: u128 = s.num0;
        let num1: u128 = s.num1;
        let num2: u128 = s.num2;
        let num3: u128 = s.num3;
        if 2 * num0 >= threshold {
            return Action::Left;
        }
        if 2 * num1 >= threshold {
            return Action::Right;
        }
        if 2 * num2 >= threshold {
            return Action::Down;
        }
        if 2 * num3 >= threshold {
            return Action::Up;
        }
        // No majority: eliminate the lowest non-zero score, earliest action
        // first on a tie.
        let b0: i8 = if num0 > 0 {
            0
        } else {
            -1
        };
        let b1: i8 = if num1 > 0 && (b0 < 0 || num1 < num0) {
            1
        } else {
            b0
        };
        let b2: i8 = if num2 > 0 && (b1 < 0 || num2 < (if b1 == 0 {
            num0
        } else {
            num1
        })) {
            2
        } else {
            b1
        };
        let b3: i8 = if num3 > 0 && (b2 < 0 || num3 < (if b2 == 0 {
            num0
        } else if b2 == 1 {
            num1
        } else {
            num2
        })) {
            3
        } else {
            b2
        };
        if b3 == 0 {
            self.resolve_round(Mask { left: true, ..m }, fuel - 1)
        } else if b3 == 1 {
            self.resolve_round(Mask { right: true, ..m }, fuel - 1)
        } else if b3 == 2 {
            self.resolve_round(Mask { down: true, ..m }, fuel - 1)
        } else if b3 == 3 {
            self.resolve_round(Mask { up: true, ..m }, fuel - 1)
        } else {
            self.default_action
        }
    }
}

/// Upper bound on a denominator factor: a live total of four entries, each
/// at most `WEIGHT_MAX`.
pub const FAC_BOUND: u128 = 0x400_0000;

/// Upper bound on the product of two denominator factors.
pub const FAC_BOUND_2: u128 = FAC_BOUND * FAC_BOUND;

/// Upper bound on the product of three denominator factors.
pub const FAC_BOUND_3: u128 = FAC_BOUND_2 * FAC_BOUND;

/// Upper bound on the common denominator: four factors of at most
/// `FAC_BOUND`.
pub const DEN_BOUND: u128 = FAC_BOUND_3 * FAC_BOUND;

/// Bounded multiplication: products of bounded non-negative factors stay
/// non-negative and bounded.
proof fn lemma_mul_le(x: int, y: int, bx: int, by: int)
    by (nonlinear_arith)
    requires
        0 <= x <= bx,
        0 <= y <= by,
    ensures
        0 <= x * y <= bx * by,
{
}

/// The four live weights of one slot under the mask, in the fixed
/// enumeration order.
fn live_of(s: &Option<Weights>, m: Mask) -> (r: (u64, u64, u64, u64))
    ensures
        r.0 == live_wt(*s, m, 0),
        r.1 == live_wt(*s, m, 1),
        r.2 == live_wt(*s, m, 2),
        r.3 == live_wt(*s, m, 3),
{
    match s {
        None => (0, 0, 0, 0),
        Some(w) => (
            if m.left {
                0
            } else {
                w.left
            },
            if m.right {
                0
            } else {
                w.right
            },
            if m.down {
                0
            } else {
                w.down
            },
            if m.up {
                0
            } else {
                w.up
            },
        ),
    }
}

/// One aggregate-score numerator: each slot's live weight for the action
/// times the product of the other slots' denominator factors.
fn score_terms(lh: u64, la: u64, lr: u64, ld: u64, ph: u128, pa: u128, pr: u128, pd: u128) -> (r:
    u128)
    requires
        lh <= WEIGHT_MAX,
        la <= WEIGHT_MAX,
        lr <= WEIGHT_MAX,
        ld <= WEIGHT_MAX,
        ph <= FAC_BOUND_3,
        pa <= FAC_BOUND_3,
        pr <= FAC_BOUND_3,
        pd <= FAC_BOUND_3,
    ensures
        r == lh * ph + la * pa + lr * pr + ld * pd,
        r <= DEN_BOUND,
{
    proof {
        lemma_mul_le(lh as int, ph as int, WEIGHT_MAX as int, FAC_BOUND_3 as int);
        lemma_mul_le(la as int, pa as int, WEIGHT_MAX as int, FAC_BOUND_3 as int);
        lemma_mul_le(lr as int, pr as int, WEIGHT_MAX as int, FAC_BOUND_3 as int);
        lemma_mul_le(ld as int, pd as int, WEIGHT_MAX as int, FAC_BOUND_3 as int);
    }
    (lh as u128) * ph + (la as u128) * pa + (lr as u128) * pr + (ld as u128) * pd
}

} // verus!
