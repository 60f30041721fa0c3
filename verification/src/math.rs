//! Conversions between reserve tokens and vault LP tokens.
use crate::precise::{pow256, PreciseNumber, HALF, ONE};
use vstd::arithmetic::div_mod::{
    lemma_div_is_ordered, lemma_div_is_ordered_by_denominator, lemma_div_multiples_vanish_fancy,
};
use vstd::prelude::*;

verus! {

/// `part / whole` with twelve decimals, rounded at half: the quotient's raw value.
pub open spec fn ratio_raw(part: int, whole: int) -> int {
    (part * ONE * ONE + HALF) / (whole * ONE)
}

/// `factor` times a ratio's raw value, rounded at half to an integer.
pub open spec fn scale_by_ratio(factor: int, raw_ratio: int) -> int {
    (factor * raw_ratio + HALF) / (ONE as int)
}

/// `factor * part / whole`, the ratio taken first with twelve decimals; `None` when `whole`
/// is zero or the result does not fit in 64 bits.
pub open spec fn proportional_amount(factor: u64, part: u64, whole: u64) -> Option<u64> {
    if whole == 0 {
        None
    } else {
        let x = scale_by_ratio(factor as int, ratio_raw(part as int, whole as int));
        if x <= u64::MAX {
            Some(x as u64)
        } else {
            None
        }
    }
}

/// The ratio's raw value is at most `part` times `ONE`, and grows with `part`.
proof fn lemma_ratio_raw_bounds(part: int, whole: int)
    requires
        0 <= part,
        1 <= whole,
    ensures
        0 <= ratio_raw(part, whole) <= part * ONE,
{
    let num = part * ONE * ONE + HALF;
    assert(part * ONE * ONE == (part * ONE) * ONE) by (nonlinear_arith);
    assert(num >= 0) by (nonlinear_arith)
        requires
            part >= 0,
            num == part * ONE * ONE + HALF,
    ;
    assert(whole * ONE >= ONE) by (nonlinear_arith)
        requires
            whole >= 1,
    ;
    lemma_div_is_ordered_by_denominator(num, ONE as int, whole * ONE);
    lemma_div_multiples_vanish_fancy(part * ONE, HALF as int, ONE as int);
    assert(ONE * (part * ONE) == part * ONE * ONE) by (nonlinear_arith);
    assert(num / (whole * ONE) >= 0) by (nonlinear_arith)
        requires
            num >= 0,
            whole * ONE >= ONE,
    ;
}

/// `factor * part / whole` as the vault computes it with `spl_math` precise numbers.
fn proportional(factor: u64, part: u64, whole: u64) -> (r: Option<u64>)
    ensures
        r == proportional_amount(factor, part, whole),
{
    let part_p = PreciseNumber::new(part as u128)?;
    let factor_p = PreciseNumber::new(factor as u128)?;
    let whole_p = PreciseNumber::new(whole as u128)?;
    let ghost a: int = part as int;
    let ghost f: int = factor as int;
    let ghost w: int = whole as int;
    proof {
        assert(a * ONE * ONE + HALF < pow256()) by (nonlinear_arith)
            requires
                0 <= a < 18446744073709551616int,
        ;
    }
    let ratio = part_p.checked_div(&whole_p)?;
    proof {
        assert(w >= 1);
        lemma_ratio_raw_bounds(a, w);
        assert((a * ONE) * ONE == a * ONE * ONE) by (nonlinear_arith);
        assert(ratio.raw() == ratio_raw(a, w));
        let q = ratio.raw();
        assert(f * ONE * q <= f * ONE * (a * ONE)) by (nonlinear_arith)
            requires
                0 <= f,
                0 <= q <= a * ONE,
        ;
        assert(f * ONE * (a * ONE) + HALF < pow256()) by (nonlinear_arith)
            requires
                0 <= f < 18446744073709551616int,
                0 <= a < 18446744073709551616int,
        ;
        assert((f * ONE) * q >= 0) by (nonlinear_arith)
            requires
                0 <= f,
                0 <= q,
        ;
    }
    let scaled = factor_p.checked_mul(&ratio)?;
    proof {
        let q = ratio.raw();
        assert((f * ONE) * q == ONE * (f * q)) by (nonlinear_arith);
        lemma_div_multiples_vanish_fancy(f * q, HALF as int, ONE as int);
        assert(scaled.raw() == f * q);
        assert(f * q <= f * (a * ONE)) by (nonlinear_arith)
            requires
                0 <= f,
                0 <= q <= a * ONE,
        ;
        assert(f * q >= 0) by (nonlinear_arith)
            requires
                0 <= f,
                0 <= q,
        ;
        lemma_div_is_ordered(f * q + HALF, f * (a * ONE) + HALF, ONE as int);
        assert(f * (a * ONE) == ONE * (f * a)) by (nonlinear_arith);
        lemma_div_multiples_vanish_fancy(f * a, HALF as int, ONE as int);
        assert(f * a <= u128::MAX) by (nonlinear_arith)
            requires
                0 <= f < 18446744073709551616int,
                0 <= a < 18446744073709551616int,
        ;
    }
    let x = scaled.to_imprecise()?;
    if x <= u64::MAX as u128 {
        Some(x as u64)
    } else {
        None
    }
}

/// The value of the vault: the reserve tokens it holds.
pub fn get_vault_value(reserve_token_amount: u64) -> (r: u64)
    ensures
        r == reserve_token_amount,
{
    reserve_token_amount
}

/// LP tokens to mint for a deposit of `reserve_token_amount`: the LP supply times the
/// deposit's share of the reserve tokens in the vault (taken with twelve decimals), rounded
/// at half; `None` when the vault holds no reserve tokens or the result does not fit.
pub fn calc_deposit_to_vault(reserve_token_amount: u64, lp_token_supply: u64, reserve_tokens_in_vault: u64) -> (r: Option<u64>)
    ensures
        r == proportional_amount(lp_token_supply, reserve_token_amount, reserve_tokens_in_vault),
{
    proportional(lp_token_supply, reserve_token_amount, reserve_tokens_in_vault)
}

/// Reserve tokens to hand out for `lp_token_amount` LP tokens: the reserve tokens in the
/// vault times the LP tokens' share of the supply (taken with twelve decimals), rounded at
/// half; `None` when the supply is zero or the result does not fit.
pub fn calc_withdraw_from_vault(lp_token_amount: u64, lp_token_supply: u64, reserve_tokens_in_vault: u64) -> (r: Option<u64>)
    ensures
        r == proportional_amount(reserve_tokens_in_vault, lp_token_amount, lp_token_supply),
{
    proportional(reserve_tokens_in_vault, lp_token_amount, lp_token_supply)
}

/// A larger part never gives a smaller proportional amount: depositing more never mints
/// fewer LP tokens, and burning more LP tokens never returns fewer reserve tokens.
pub proof fn lemma_proportional_monotone(factor: u64, part1: u64, part2: u64, whole: u64)
    requires
        part1 <= part2,
        whole > 0,
    ensures
        proportional_amount(factor, part2, whole) is Some ==> proportional_amount(factor, part1, whole) is Some,
        proportional_amount(factor, part2, whole) matches Some(y) ==> proportional_amount(factor, part1, whole)->0 <= y,
{
    let ghost f: int = factor as int;
    let a1 = part1 as int;
    let a2 = part2 as int;
    let ghost w: int = whole as int;
    assert(a1 * ONE * ONE + HALF <= a2 * ONE * ONE + HALF) by (nonlinear_arith)
        requires
            0 <= a1 <= a2,
    ;
    assert(w * ONE > 0) by (nonlinear_arith)
        requires
            w > 0,
    ;
    lemma_div_is_ordered(a1 * ONE * ONE + HALF, a2 * ONE * ONE + HALF, w * ONE);
    let q1 = ratio_raw(a1, w);
    let q2 = ratio_raw(a2, w);
    lemma_ratio_raw_bounds(a1, w);
    assert(f * q1 + HALF <= f * q2 + HALF) by (nonlinear_arith)
        requires
            0 <= f,
            q1 <= q2,
    ;
    lemma_div_is_ordered(f * q1 + HALF, f * q2 + HALF, ONE as int);
}

/// The whole of a share is the whole amount: burning the entire LP supply hands out all the
/// reserve tokens in the vault, and depositing as much as the vault holds mints as many LP
/// tokens as exist.
pub proof fn lemma_proportional_whole(factor: u64, whole: u64)
    requires
        whole > 0,
    ensures
        proportional_amount(factor, whole, whole) == Some(factor),
{
    let w = whole as int;
    let k = w * ONE;
    assert(k >= ONE) by (nonlinear_arith)
        requires
            w >= 1,
            k == w * ONE,
    ;
    assert(w * ONE * ONE == k * ONE) by (nonlinear_arith)
        requires
            k == w * ONE,
    ;
    lemma_div_multiples_vanish_fancy(ONE as int, HALF as int, k);
    assert(ratio_raw(w, w) == ONE);
    lemma_div_multiples_vanish_fancy(factor as int, HALF as int, ONE as int);
    assert((factor as int) * ONE == ONE * (factor as int)) by (nonlinear_arith);
}

/// A share of nothing is nothing: depositing nothing mints no LP tokens, and burning none
/// hands out no reserve tokens.
pub proof fn lemma_proportional_zero(factor: u64, whole: u64)
    requires
        whole > 0,
    ensures
        proportional_amount(factor, 0, whole) == Some(0u64),
{
    let w = whole as int;
    assert(w * ONE > HALF) by (nonlinear_arith)
        requires
            w >= 1,
    ;
    lemma_div_multiples_vanish_fancy(0, HALF as int, w * ONE);
    assert((w * ONE) * 0 == 0) by (nonlinear_arith);
    assert(ratio_raw(0, w) == 0);
    assert((factor as int) * 0 == 0) by (nonlinear_arith);
    lemma_div_multiples_vanish_fancy(0, HALF as int, ONE as int);
}

/// Redeeming the LP tokens that a deposit minted hands the deposit back: when `lp` LP tokens
/// were minted for a deposit of `a` reserve tokens into a vault holding `v` with `s` LP tokens
/// out, and `lp` is the exact share (`lp * v == a * s`), then burning them out of the grown
/// supply, against the grown value, returns exactly `a`, as long as the grown value is at
/// most `HALF` (so that the twelve decimals' rounding cannot reach one token).
pub proof fn lemma_deposit_then_withdraw(a: u64, s: u64, v: u64, lp: u64)
    requires
        s > 0,
        v > 0,
        proportional_amount(s, a, v) == Some(lp),
        lp * v == a * s,
        s + lp <= u64::MAX,
        v + a <= HALF,
    ensures
        proportional_amount((v + a) as u64, lp, (s + lp) as u64) == Some(a),
{
    let e = ONE as int;
    let h = HALF as int;
    let t = s + lp;
    let w = v + a;
    let ai = a as int;
    let li = lp as int;
    assert(li * w == ai * t) by (nonlinear_arith)
        requires
            li * v == ai * s,
            w == v + ai,
            t == s + li,
    ;
    let n = li * e * e + h;
    let d = t * e;
    assert(d >= e) by (nonlinear_arith)
        requires
            t >= 1,
            d == t * e,
            e > 0,
    ;
    let r = n / d;
    vstd::arithmetic::div_mod::lemma_fundamental_div_mod(n, d);
    vstd::arithmetic::div_mod::lemma_mod_pos_bound(n, d);
    assert(d * r <= n && n < d * r + d);
    assert(ratio_raw(li, t) == r);
    // upper bound: w * r + h < (a + 1) * e
    assert(w * r < ai * e + h) by (nonlinear_arith)
        requires
            d * r <= n,
            n == li * e * e + h,
            d == t * e,
            li * w == ai * t,
            t >= 1,
            w >= 1,
            w <= h,
            e == 1_000_000_000_000,
            h == 500_000_000_000,
            r >= 0,
    {
        if w * r >= ai * e + h {
            assert(t * e * (w * r) >= t * e * (ai * e + h));
            assert(t * e * (w * r) == w * (d * r));
            assert(w * (d * r) <= w * n);
            assert(w * n == ai * t * e * e + w * h);
            assert(t * e * h > w * h);
        }
    }
    // lower bound: w * r + h >= a * e
    assert(w * r + h >= ai * e) by (nonlinear_arith)
        requires
            n < d * r + d,
            n == li * e * e + h,
            d == t * e,
            li * w == ai * t,
            t >= 1,
            w >= 1,
            w <= h + 1,
            e == 1_000_000_000_000,
            h == 500_000_000_000,
    {
        if w * r + h < ai * e {
            assert(w * (r + 1) <= ai * e);
            assert(t * e * (w * (r + 1)) <= t * e * (ai * e));
            assert(w * n < w * (d * (r + 1)));
            assert(w * (d * (r + 1)) == t * e * (w * (r + 1)));
            assert(w * n == ai * t * e * e + w * h);
        }
    }
    assert(r >= 0) by (nonlinear_arith)
        requires
            n >= 0,
            d > 0,
            r == n / d,
    ;
    assert((w * r + h) / e == ai) by (nonlinear_arith)
        requires
            ai * e <= w * r + h,
            w * r + h < ai * e + e,
            e > 0,
    ;
    assert(scale_by_ratio(w, r) == ai);
}

} // verus!
