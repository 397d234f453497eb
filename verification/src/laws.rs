use vstd::prelude::*;

use crate::action::Action;
use crate::tally::{
    abstains, dfac, live_wt, mask_le, mask_set, masked, slot_total, wt, Mask, ProducerId,
    VoteManager, Weights,
};

verus! {

/// Two slots the aggregator cannot tell apart: the same ballot, or two
/// ballots that both contribute nothing (an empty slot and an all-zero
/// vector behave alike in every round).
pub open spec fn same_or_both_abstain(s1: Option<Weights>, s2: Option<Weights>) -> bool {
    s1 == s2 || (abstains(s1) && abstains(s2))
}

/// Default on total abstention: with an empty submission set, or one composed
/// solely of all-zero vectors, the resolution is the configured default
/// action.
pub proof fn lemma_default_on_total_abstention(v: VoteManager)
    requires
        abstains(v.hurdle),
        abstains(v.archery),
        abstains(v.roller),
        abstains(v.diving),
    ensures
        v.decision() == v.default_action,
{
    let m0 = Mask { left: false, right: false, down: false, up: false };
    assert(slot_total(v.hurdle, m0) == 0);
    assert(slot_total(v.archery, m0) == 0);
    assert(slot_total(v.roller, m0) == 0);
    assert(slot_total(v.diving, m0) == 0);
    assert(v.grand_total(m0) == 0);
}

/// Majority short-circuit: when a single producer holds the only ballot and
/// that ballot backs exactly one action, resolution returns that action (its
/// whole normalized mass, 1, meets the threshold of half of one participant).
pub proof fn lemma_majority_short_circuit(v: VoteManager, p: ProducerId, w: Weights, a: int)
    requires
        0 <= a < 4,
        v.slot(p) == Option::<Weights>::Some(w),
        wt(w, a) > 0,
        forall|b: int| 0 <= b < 4 && b != a ==> wt(w, b) == 0,
        forall|q: ProducerId| q != p ==> v.slot(q) is None,
    ensures
        v.decision() == Action::from_ordinal(a),
{
    let m0 = Mask { left: false, right: false, down: false, up: false };
    assert(wt(w, 0) >= 0 && wt(w, 1) >= 0 && wt(w, 2) >= 0 && wt(w, 3) >= 0);
    assert(v.slot(ProducerId::Hurdle) == v.hurdle);
    assert(v.slot(ProducerId::Archery) == v.archery);
    assert(v.slot(ProducerId::Roller) == v.roller);
    assert(v.slot(ProducerId::Diving) == v.diving);
    let t: int = slot_total(v.slot(p), m0);
    assert(t == wt(w, 0) + wt(w, 1) + wt(w, 2) + wt(w, 3));
    assert(t == wt(w, a)) by {
        if a != 0 {
            assert(wt(w, 0) == 0);
        }
        if a != 1 {
            assert(wt(w, 1) == 0);
        }
        if a != 2 {
            assert(wt(w, 2) == 0);
        }
        if a != 3 {
            assert(wt(w, 3) == 0);
        }
    }
    match p {
        ProducerId::Hurdle => {
            assert(v.archery is None && v.roller is None && v.diving is None);
            lemma_single_slot_majority_figures(v, m0, t);
            assert(forall|c: int| 0 <= c < 4 ==> v.score_num(m0, c) == wt(w, c));
        },
        ProducerId::Archery => {
            assert(v.hurdle is None && v.roller is None && v.diving is None);
            lemma_single_slot_majority_figures(v, m0, t);
            assert(forall|c: int| 0 <= c < 4 ==> v.score_num(m0, c) == wt(w, c));
        },
        ProducerId::Roller => {
            assert(v.hurdle is None && v.archery is None && v.diving is None);
            lemma_single_slot_majority_figures(v, m0, t);
            assert(forall|c: int| 0 <= c < 4 ==> v.score_num(m0, c) == wt(w, c));
        },
        ProducerId::Diving => {
            assert(v.hurdle is None && v.archery is None && v.roller is None);
            lemma_single_slot_majority_figures(v, m0, t);
            assert(forall|c: int| 0 <= c < 4 ==> v.score_num(m0, c) == wt(w, c));
        },
    }
    lemma_mul_identities(t, 1);
    lemma_mul_identities(1, t);
    assert(v.participants(m0) * v.den(m0) == t);
    assert(v.score_num(m0, a) == t);
    assert forall|c: int| 0 <= c < 4 && c != a implies !v.has_majority(m0, c) by {
        assert(v.score_num(m0, c) == 0);
    }
    assert(v.has_majority(m0, a));
    assert(v.first_majority(m0) == a);
    assert(v.decision() == Action::from_ordinal(a));
}

/// The figures of a round in which exactly one slot participates: its own
/// live total is both the common denominator and the threshold, and each
/// score numerator is the slot's own live weight.
proof fn lemma_single_slot_majority_figures(v: VoteManager, m: Mask, t: int)
    requires
        t > 0,
        slot_total(v.hurdle, m) + slot_total(v.archery, m) + slot_total(v.roller, m) + slot_total(
            v.diving,
            m,
        ) == t,
        slot_total(v.hurdle, m) == t || v.hurdle is None,
        slot_total(v.archery, m) == t || v.archery is None,
        slot_total(v.roller, m) == t || v.roller is None,
        slot_total(v.diving, m) == t || v.diving is None,
    ensures
        v.grand_total(m) == t,
        v.participants(m) == 1,
        v.den(m) == t,
        forall|a: int|
            0 <= a < 4 ==> v.score_num(m, a) == live_wt(v.hurdle, m, a) + live_wt(v.archery, m, a)
                + live_wt(v.roller, m, a) + live_wt(v.diving, m, a),
{
    assert forall|a: int| 0 <= a < 4 implies v.score_num(m, a) == live_wt(v.hurdle, m, a)
        + live_wt(v.archery, m, a) + live_wt(v.roller, m, a) + live_wt(v.diving, m, a) by {
        lemma_mul_identities(live_wt(v.hurdle, m, a), t);
        lemma_mul_identities(live_wt(v.archery, m, a), t);
        lemma_mul_identities(live_wt(v.roller, m, a), t);
        lemma_mul_identities(live_wt(v.diving, m, a), t);
        lemma_mul_identities(t, 1);
        lemma_mul_identities(1, t);
    }
    lemma_mul_identities(t, 1);
    lemma_mul_identities(1, t);
}

/// Abstention invariance: replacing any slot by one the aggregator cannot
/// tell apart — in particular, adding an all-zero ballot where there was
/// none — never changes the outcome of resolution.
pub proof fn lemma_abstention_invariance(v1: VoteManager, v2: VoteManager)
    requires
        v1.default_action == v2.default_action,
        same_or_both_abstain(v1.hurdle, v2.hurdle),
        same_or_both_abstain(v1.archery, v2.archery),
        same_or_both_abstain(v1.roller, v2.roller),
        same_or_both_abstain(v1.diving, v2.diving),
    ensures
        v1.decision() == v2.decision(),
{
    let m0 = Mask { left: false, right: false, down: false, up: false };
    lemma_round_respects_abstention(v1, v2, m0, 4);
}

/// Every round treats two submission sets with pairwise indistinguishable
/// slots alike: an abstaining slot contributes zero mass whether it is empty
/// or an explicit all-zero vector.
#[verifier::rlimit(100)]
proof fn lemma_round_respects_abstention(v1: VoteManager, v2: VoteManager, m: Mask, fuel: nat)
    requires
        v1.default_action == v2.default_action,
        same_or_both_abstain(v1.hurdle, v2.hurdle),
        same_or_both_abstain(v1.archery, v2.archery),
        same_or_both_abstain(v1.roller, v2.roller),
        same_or_both_abstain(v1.diving, v2.diving),
    ensures
        v1.round(m, fuel) == v2.round(m, fuel),
    decreases fuel,
{
    if fuel > 0 {
        assert forall|a: int| #[trigger] live_wt(v1.hurdle, m, a) == live_wt(v2.hurdle, m, a) by {}
        assert forall|a: int| #[trigger] live_wt(v1.archery, m, a) == live_wt(v2.archery, m, a) by {}
        assert forall|a: int| #[trigger] live_wt(v1.roller, m, a) == live_wt(v2.roller, m, a) by {}
        assert forall|a: int| #[trigger] live_wt(v1.diving, m, a) == live_wt(v2.diving, m, a) by {}
        assert(slot_total(v1.hurdle, m) == slot_total(v2.hurdle, m));
        assert(slot_total(v1.archery, m) == slot_total(v2.archery, m));
        assert(slot_total(v1.roller, m) == slot_total(v2.roller, m));
        assert(slot_total(v1.diving, m) == slot_total(v2.diving, m));
        assert(v1.grand_total(m) == v2.grand_total(m));
        assert(v1.participants(m) == v2.participants(m));
        assert(v1.den(m) == v2.den(m));
        assert forall|a: int| 0 <= a < 4 implies #[trigger] v1.score_num(m, a) == v2.score_num(
            m,
            a,
        ) by {}
        assert(v1.first_majority(m) == v2.first_majority(m));
        assert(v1.elim_pick(m) == v2.elim_pick(m));
        if v1.grand_total(m) > 0 && v1.first_majority(m) < 0 && v1.elim_pick(m) >= 0 {
            lemma_round_respects_abstention(
                v1,
                v2,
                mask_set(m, v1.elim_pick(m)),
                (fuel - 1) as nat,
            );
        }
    }
}

/// Every aggregate score is non-negative: it is a sum of products of
/// non-negative live weights and denominator factors.
pub proof fn lemma_score_nonneg(v: VoteManager, m: Mask, a: int)
    ensures
        0 <= v.score_num(m, a),
{
    lemma_dfac_bounds(v.hurdle, m);
    lemma_dfac_bounds(v.archery, m);
    lemma_dfac_bounds(v.roller, m);
    lemma_dfac_bounds(v.diving, m);
    lemma_mul_ge_one(dfac(v.archery, m), dfac(v.roller, m));
    lemma_mul_ge_one((dfac(v.archery, m) * dfac(v.roller, m)), dfac(v.diving, m));
    lemma_mul_ge_one(dfac(v.hurdle, m), dfac(v.roller, m));
    lemma_mul_ge_one((dfac(v.hurdle, m) * dfac(v.roller, m)), dfac(v.diving, m));
    lemma_mul_ge_one(dfac(v.hurdle, m), dfac(v.archery, m));
    lemma_mul_ge_one((dfac(v.hurdle, m) * dfac(v.archery, m)), dfac(v.diving, m));
    lemma_mul_ge_one((dfac(v.hurdle, m) * dfac(v.archery, m)), dfac(v.roller, m));
    lemma_mul_nonneg(live_wt(v.hurdle, m, a), (dfac(v.archery, m) * dfac(v.roller, m)) * dfac(
        v.diving,
        m,
    ));
    lemma_mul_nonneg(live_wt(v.archery, m, a), (dfac(v.hurdle, m) * dfac(v.roller, m)) * dfac(
        v.diving,
        m,
    ));
    lemma_mul_nonneg(live_wt(v.roller, m, a), (dfac(v.hurdle, m) * dfac(v.archery, m)) * dfac(
        v.diving,
        m,
    ));
    lemma_mul_nonneg(live_wt(v.diving, m, a), (dfac(v.hurdle, m) * dfac(v.archery, m)) * dfac(
        v.roller,
        m,
    ));
}

/// How many actions a mask eliminates.
pub open spec fn masked_count(m: Mask) -> int {
    (if m.left {
        1int
    } else {
        0int
    }) + (if m.right {
        1int
    } else {
        0int
    }) + (if m.down {
        1int
    } else {
        0int
    }) + (if m.up {
        1int
    } else {
        0int
    })
}

/// Four rounds always suffice: granting the runoff any more never changes
/// the outcome, so the recursion bound in `decision` is never the deciding
/// factor. Each round eliminates one of the four actions, and a round that
/// has eliminated all but one either has no mass left or hands the surviving
/// action every participant's whole mass, a majority.
pub proof fn lemma_four_rounds_suffice(v: VoteManager, fuel: nat)
    requires
        fuel >= 4,
    ensures
        v.round(Mask { left: false, right: false, down: false, up: false }, fuel) == v.decision(),
{
    let m0 = Mask { left: false, right: false, down: false, up: false };
    lemma_round_fuel_insensitive(v, m0, fuel, 4);
}

/// Two fuel budgets that both cover the actions still in contention drive
/// the runoff to the same outcome.
proof fn lemma_round_fuel_insensitive(v: VoteManager, m: Mask, f1: nat, f2: nat)
    requires
        f1 >= 1,
        f2 >= 1,
        f1 + masked_count(m) >= 4,
        f2 + masked_count(m) >= 4,
    ensures
        v.round(m, f1) == v.round(m, f2),
    decreases f1,
{
    if v.grand_total(m) > 0 && v.first_majority(m) < 0 && v.elim_pick(m) >= 0 {
        let e: int = v.elim_pick(m);
        lemma_elim_pick_is_live(v, m);
        let m1 = mask_set(m, e);
        assert(masked_count(m1) == masked_count(m) + 1);
        if f1 == 1 || f2 == 1 {
            // The round had already eliminated three actions, so the new mask
            // covers all four and the next round finds no mass at any fuel.
            assert(masked_count(m1) == 4);
            assert(m1 == (Mask { left: true, right: true, down: true, up: true }));
            assert(v.grand_total(m1) == 0);
            assert(v.round(m1, (f1 - 1) as nat) == v.default_action);
            assert(v.round(m1, (f2 - 1) as nat) == v.default_action);
        } else {
            lemma_round_fuel_insensitive(v, m1, (f1 - 1) as nat, (f2 - 1) as nat);
        }
    }
}

/// The action a round eliminates is one still in contention: it carries a
/// positive aggregate score, so it is unmasked and within range.
proof fn lemma_elim_pick_is_live(v: VoteManager, m: Mask)
    requires
        v.elim_pick(m) >= 0,
    ensures
        0 <= v.elim_pick(m) < 4,
        v.score_num(m, v.elim_pick(m)) > 0,
        !masked(m, v.elim_pick(m)),
{
    let e: int = v.elim_pick(m);
    assert(0 <= e < 4 && v.score_num(m, e) > 0);
    lemma_score_positive_iff_live(v, m, e);
}

/// Each elimination round only grows the eliminated-action mask, so
/// `lemma_score_support_monotone` applies to every pair of successive rounds.
pub proof fn lemma_round_masks_grow(m: Mask, a: int)
    ensures
        mask_le(m, mask_set(m, a)),
{
}

/// Elimination monotonicity: enlarging the eliminated-action mask never hands
/// an action a non-zero aggregate score it did not already have, so across
/// successive rounds — each of which only grows the mask — the set of actions
/// with non-zero aggregate score is non-increasing.
pub proof fn lemma_score_support_monotone(v: VoteManager, m1: Mask, m2: Mask, a: int)
    requires
        0 <= a < 4,
        mask_le(m1, m2),
        v.score_num(m2, a) != 0,
    ensures
        v.score_num(m1, a) != 0,
{
    lemma_score_nonneg(v, m2, a);
    lemma_score_positive_iff_live(v, m2, a);
    lemma_score_positive_iff_live(v, m1, a);
    assert(!masked(m2, a));
    assert(!masked(m1, a));
    assert(live_wt(v.hurdle, m1, a) == live_wt(v.hurdle, m2, a));
    assert(live_wt(v.archery, m1, a) == live_wt(v.archery, m2, a));
    assert(live_wt(v.roller, m1, a) == live_wt(v.roller, m2, a));
    assert(live_wt(v.diving, m1, a) == live_wt(v.diving, m2, a));
}

/// An action's aggregate score is positive exactly when some ballot still
/// carries live weight for it.
proof fn lemma_score_positive_iff_live(v: VoteManager, m: Mask, a: int)
    ensures
        v.score_num(m, a) > 0 <==> (live_wt(v.hurdle, m, a) > 0 || live_wt(v.archery, m, a) > 0
            || live_wt(v.roller, m, a) > 0 || live_wt(v.diving, m, a) > 0),
{
    lemma_dfac_bounds(v.hurdle, m);
    lemma_dfac_bounds(v.archery, m);
    lemma_dfac_bounds(v.roller, m);
    lemma_dfac_bounds(v.diving, m);
    lemma_mul_ge_one(dfac(v.archery, m), dfac(v.roller, m));
    lemma_mul_ge_one((dfac(v.archery, m) * dfac(v.roller, m)), dfac(v.diving, m));
    lemma_mul_ge_one(dfac(v.hurdle, m), dfac(v.roller, m));
    lemma_mul_ge_one((dfac(v.hurdle, m) * dfac(v.roller, m)), dfac(v.diving, m));
    lemma_mul_ge_one(dfac(v.hurdle, m), dfac(v.archery, m));
    lemma_mul_ge_one((dfac(v.hurdle, m) * dfac(v.archery, m)), dfac(v.diving, m));
    lemma_mul_ge_one((dfac(v.hurdle, m) * dfac(v.archery, m)), dfac(v.roller, m));
    lemma_mul_by_ge_one(live_wt(v.hurdle, m, a), (dfac(v.archery, m) * dfac(v.roller, m)) * dfac(
        v.diving,
        m,
    ));
    lemma_mul_by_ge_one(live_wt(v.archery, m, a), (dfac(v.hurdle, m) * dfac(v.roller, m)) * dfac(
        v.diving,
        m,
    ));
    lemma_mul_by_ge_one(live_wt(v.roller, m, a), (dfac(v.hurdle, m) * dfac(v.archery, m)) * dfac(
        v.diving,
        m,
    ));
    lemma_mul_by_ge_one(live_wt(v.diving, m, a), (dfac(v.hurdle, m) * dfac(v.archery, m)) * dfac(
        v.roller,
        m,
    ));
}

/// A denominator factor is at least one.
proof fn lemma_dfac_bounds(s: Option<Weights>, m: Mask)
    ensures
        dfac(s, m) >= 1,
{
}

/// A product of factors that are at least one is at least one.
proof fn lemma_mul_ge_one(x: int, y: int)
    by (nonlinear_arith)
    requires
        x >= 1,
        y >= 1,
    ensures
        x * y >= 1,
{
}

/// A product of non-negative factors is non-negative.
proof fn lemma_mul_nonneg(x: int, y: int)
    by (nonlinear_arith)
    requires
        0 <= x,
        0 <= y,
    ensures
        0 <= x * y,
{
}

/// Scaling a non-negative value by a factor of at least one never shrinks it,
/// and yields zero exactly on zero.
proof fn lemma_mul_by_ge_one(x: int, y: int)
    by (nonlinear_arith)
    requires
        0 <= x,
        y >= 1,
    ensures
        x * y >= x,
        x * y == 0 <==> x == 0,
{
}

/// Multiplying by the neutral factor, and by zero.
proof fn lemma_mul_identities(x: int, y: int)
    by (nonlinear_arith)
    ensures
        x * 1 == x,
        1 * x == x,
        x * 0 == 0,
        0 * x == 0,
        x * y == y * x,
{
}

} // verus!

