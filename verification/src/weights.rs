//! The run-length weight table of the sequence generator.
//!
//! A run length `r` in `[1, 99]` gets weight `decay(r) + bonus(r)`, where
//! `decay` falls geometrically by the ratio `9 / 10` from run length `1`
//! onward and `bonus` favours short runs in three tiers. Weights are held in
//! fixed-point form: every value carries the factor `WEIGHT_SCALE`, so the
//! ratios between entries are what matters. Run length `0` keeps weight `0`
//! and is never drawn.

use vstd::prelude::*;

verus! {

/// Fixed-point scale: a bonus of one unit is `WEIGHT_SCALE` in the table.
pub const WEIGHT_SCALE: u64 = 1000000;

/// Bonus for a run of length `1`, in units of `WEIGHT_SCALE`.
pub const RUN_BONUS_SHORT: u64 = 2000;

/// Bonus for runs of length `2` to `4`, in units of `WEIGHT_SCALE`.
pub const RUN_BONUS_MEDIUM: u64 = 40;

/// Bonus for runs of length `5` to `10`, in units of `WEIGHT_SCALE`.
pub const RUN_BONUS_LONG: u64 = 1;

/// Number of entries of the weight table: run lengths `0` to `99`.
pub const RUN_DOMAIN: usize = 100;

/// Geometric decay: starts at `WEIGHT_SCALE` for run length `1` and loses a
/// tenth (rounded down) with each further step.
pub open spec fn spec_decay(r: int) -> int
    decreases r,
{
    if r <= 1 {
        WEIGHT_SCALE as int
    } else {
        spec_decay(r - 1) * 9 / 10
    }
}

/// The tiered bonus favouring short runs.
pub open spec fn spec_bonus(r: int) -> int {
    if r <= 1 {
        (RUN_BONUS_SHORT * WEIGHT_SCALE) as int
    } else if r <= 4 {
        (RUN_BONUS_MEDIUM * WEIGHT_SCALE) as int
    } else if r <= 10 {
        (RUN_BONUS_LONG * WEIGHT_SCALE) as int
    } else {
        0
    }
}

/// The weight of run length `r`: zero for `r == 0`, decay plus bonus after.
pub open spec fn spec_weight(r: int) -> int {
    if r == 0 {
        0
    } else {
        spec_decay(r) + spec_bonus(r)
    }
}

/// The sum of a sequence of weights.
pub open spec fn seq_sum(s: Seq<u64>) -> int
    decreases s.len(),
{
    if s.len() == 0 {
        0
    } else {
        seq_sum(s.drop_last()) + s.last()
    }
}

proof fn lemma_seq_sum_push(s: Seq<u64>, x: u64)
    ensures
        seq_sum(s.push(x)) == seq_sum(s) + x,
{
    assert(s.push(x).drop_last() =~= s);
}

proof fn lemma_decay_bounds(r: int)
    requires
        r >= 1,
    ensures
        0 <= spec_decay(r) <= WEIGHT_SCALE,
    decreases r,
{
    if r > 1 {
        lemma_decay_bounds(r - 1);
    }
}

proof fn lemma_decay_monotone(r: int)
    requires
        r >= 1,
    ensures
        spec_decay(r + 1) <= spec_decay(r),
{
    lemma_decay_bounds(r);
    assert(spec_decay(r) * 9 / 10 <= spec_decay(r)) by (nonlinear_arith)
        requires
            spec_decay(r) >= 0,
    ;
}

proof fn lemma_decay_ordered(r1: int, r2: int)
    requires
        1 <= r1 <= r2,
    ensures
        spec_decay(r2) <= spec_decay(r1),
    decreases r2 - r1,
{
    if r1 < r2 {
        lemma_decay_ordered(r1, r2 - 1);
        lemma_decay_monotone(r2 - 1);
    }
}

// The decay values are pinned step by step: each assert settles one more
// unfolding of the recurrence from the value before it.
proof fn lemma_decay_eval_1_25()
    ensures
        spec_decay(25) == 79763,
{
    assert(spec_decay(1) == 1000000);
    assert(spec_decay(2) == 900000);
    assert(spec_decay(3) == 810000);
    assert(spec_decay(4) == 729000);
    assert(spec_decay(5) == 656100);
    assert(spec_decay(6) == 590490);
    assert(spec_decay(7) == 531441);
    assert(spec_decay(8) == 478296);
    assert(spec_decay(9) == 430466);
    assert(spec_decay(10) == 387419);
    assert(spec_decay(11) == 348677);
    assert(spec_decay(12) == 313809);
    assert(spec_decay(13) == 282428);
    assert(spec_decay(14) == 254185);
    assert(spec_decay(15) == 228766);
    assert(spec_decay(16) == 205889);
    assert(spec_decay(17) == 185300);
    assert(spec_decay(18) == 166770);
    assert(spec_decay(19) == 150093);
    assert(spec_decay(20) == 135083);
    assert(spec_decay(21) == 121574);
    assert(spec_decay(22) == 109416);
    assert(spec_decay(23) == 98474);
    assert(spec_decay(24) == 88626);
    assert(spec_decay(25) == 79763);
}

proof fn lemma_decay_eval_25_50()
    requires
        spec_decay(25) == 79763,
    ensures
        spec_decay(50) == 5722,
{
    assert(spec_decay(26) == 71786);
    assert(spec_decay(27) == 64607);
    assert(spec_decay(28) == 58146);
    assert(spec_decay(29) == 52331);
    assert(spec_decay(30) == 47097);
    assert(spec_decay(31) == 42387);
    assert(spec_decay(32) == 38148);
    assert(spec_decay(33) == 34333);
    assert(spec_decay(34) == 30899);
    assert(spec_decay(35) == 27809);
    assert(spec_decay(36) == 25028);
    assert(spec_decay(37) == 22525);
    assert(spec_decay(38) == 20272);
    assert(spec_decay(39) == 18244);
    assert(spec_decay(40) == 16419);
    assert(spec_decay(41) == 14777);
    assert(spec_decay(42) == 13299);
    assert(spec_decay(43) == 11969);
    assert(spec_decay(44) == 10772);
    assert(spec_decay(45) == 9694);
    assert(spec_decay(46) == 8724);
    assert(spec_decay(47) == 7851);
    assert(spec_decay(48) == 7065);
    assert(spec_decay(49) == 6358);
    assert(spec_decay(50) == 5722);
}

proof fn lemma_decay_eval_50_75()
    requires
        spec_decay(50) == 5722,
    ensures
        spec_decay(75) == 406,
{
    assert(spec_decay(51) == 5149);
    assert(spec_decay(52) == 4634);
    assert(spec_decay(53) == 4170);
    assert(spec_decay(54) == 3753);
    assert(spec_decay(55) == 3377);
    assert(spec_decay(56) == 3039);
    assert(spec_decay(57) == 2735);
    assert(spec_decay(58) == 2461);
    assert(spec_decay(59) == 2214);
    assert(spec_decay(60) == 1992);
    assert(spec_decay(61) == 1792);
    assert(spec_decay(62) == 1612);
    assert(spec_decay(63) == 1450);
    assert(spec_decay(64) == 1305);
    assert(spec_decay(65) == 1174);
    assert(spec_decay(66) == 1056);
    assert(spec_decay(67) == 950);
    assert(spec_decay(68) == 855);
    assert(spec_decay(69) == 769);
    assert(spec_decay(70) == 692);
    assert(spec_decay(71) == 622);
    assert(spec_decay(72) == 559);
    assert(spec_decay(73) == 503);
    assert(spec_decay(74) == 452);
    assert(spec_decay(75) == 406);
}

proof fn lemma_decay_eval_75_99()
    requires
        spec_decay(75) == 406,
    ensures
        spec_decay(99) == 28,
{
    assert(spec_decay(76) == 365);
    assert(spec_decay(77) == 328);
    assert(spec_decay(78) == 295);
    assert(spec_decay(79) == 265);
    assert(spec_decay(80) == 238);
    assert(spec_decay(81) == 214);
    assert(spec_decay(82) == 192);
    assert(spec_decay(83) == 172);
    assert(spec_decay(84) == 154);
    assert(spec_decay(85) == 138);
    assert(spec_decay(86) == 124);
    assert(spec_decay(87) == 111);
    assert(spec_decay(88) == 99);
    assert(spec_decay(89) == 89);
    assert(spec_decay(90) == 80);
    assert(spec_decay(91) == 72);
    assert(spec_decay(92) == 64);
    assert(spec_decay(93) == 57);
    assert(spec_decay(94) == 51);
    assert(spec_decay(95) == 45);
    assert(spec_decay(96) == 40);
    assert(spec_decay(97) == 36);
    assert(spec_decay(98) == 32);
    assert(spec_decay(99) == 28);
}

/// The decay stays at or above `1` over the whole table, so the weights of
/// run lengths `1` to `99` are all positive.
proof fn lemma_decay_positive(r: int)
    requires
        1 <= r <= 99,
    ensures
        spec_decay(r) >= 1,
{
    lemma_decay_ordered(r, 99);
    lemma_decay_eval_1_25();
    lemma_decay_eval_25_50();
    lemma_decay_eval_50_75();
    lemma_decay_eval_75_99();
}

proof fn lemma_decay_strict(r: int)
    requires
        1 <= r <= 98,
    ensures
        spec_decay(r + 1) < spec_decay(r),
{
    lemma_decay_positive(r);
    assert(spec_decay(r) * 9 / 10 < spec_decay(r)) by (nonlinear_arith)
        requires
            spec_decay(r) >= 1,
    ;
}

/// The shape of the run-length model: run length `1` carries the greatest
/// weight of the whole table, and beyond run length `4` the weights strictly
/// decrease as the run length grows.
pub proof fn lemma_weight_table_shape()
    ensures
        forall|r: int| 2 <= r < RUN_DOMAIN ==> spec_weight(1) > #[trigger] spec_weight(r),
        forall|r: int| 4 <= r < RUN_DOMAIN - 1 ==> #[trigger] spec_weight(r) > spec_weight(r + 1),
{
    assert forall|r: int| 2 <= r < RUN_DOMAIN implies spec_weight(1) > #[trigger] spec_weight(
        r,
    ) by {
        lemma_decay_bounds(r);
    }
    assert forall|r: int| 4 <= r < RUN_DOMAIN - 1 implies #[trigger] spec_weight(r) > spec_weight(
        r + 1,
    ) by {
        if r == 4 || r == 10 {
            lemma_decay_bounds(r);
            lemma_decay_monotone(r);
        } else {
            lemma_decay_strict(r);
        }
    }
}

/// Builds the weight table over run lengths `0` to `99`.
pub fn repetition_weights() -> (w: Vec<u64>)
    ensures
        w@.len() == RUN_DOMAIN,
        forall|r: int| 0 <= r < RUN_DOMAIN ==> w@[r] == spec_weight(r),
        w@[0] == 0,
        0 < seq_sum(w@) <= u64::MAX,
{
    let mut w: Vec<u64> = Vec::new();
    let mut total: u64 = 0;
    let mut g: u64 = WEIGHT_SCALE;
    w.push(0);
    proof {
        lemma_seq_sum_push(Seq::<u64>::empty(), 0);
        assert(w@ =~= Seq::<u64>::empty().push(0));
    }
    let mut r: usize = 1;
    while r < RUN_DOMAIN
        invariant
            1 <= r <= RUN_DOMAIN,
            w@.len() == r,
            g == spec_decay(r as int),
            g <= WEIGHT_SCALE,
            forall|j: int| 0 <= j < r ==> w@[j] == spec_weight(j),
            seq_sum(w@) == total,
            total <= (r - 1) * 2001000000,
            r >= 2 ==> total > 0,
        decreases RUN_DOMAIN - r,
    {
        let bonus: u64 = if r <= 1 {
            RUN_BONUS_SHORT
        } else if r <= 4 {
            RUN_BONUS_MEDIUM
        } else if r <= 10 {
            RUN_BONUS_LONG
        } else {
            0
        };
        let weight: u64 = g + bonus * WEIGHT_SCALE;
        assert(weight == spec_weight(r as int));
        proof {
            lemma_seq_sum_push(w@, weight);
        }
        w.push(weight);
        total = total + weight;
        proof {
            lemma_decay_bounds(r as int);
            assert(g * 9 / 10 <= g) by (nonlinear_arith)
                requires
                    g >= 0,
            ;
        }
        g = g * 9 / 10;
        r += 1;
    }
    assert(w@[0] == spec_weight(0));
    w
}

} // verus!
