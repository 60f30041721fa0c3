//! What the exchange between a market's reserve tokens and its LP tokens is worth: LP tokens
//! are a share of the reserve's whole liquidity, what it holds and what it has lent out.
use crate::markets::{
    collateral_exchange_rate, exchange_collateral_to_liquidity, exchange_liquidity_to_collateral,
    total_liquidity_wads, CollateralExchange, PortReserve, SolendReserve,
};
use crate::rate::WAD;
use vstd::prelude::*;

verus! {

/// `x / d` is the number of whole `d`s in `x`.
proof fn lemma_floor_div(x: int, d: int)
    requires
        0 <= x,
        0 < d,
    ensures
        0 <= x / d,
        (x / d) * d <= x,
        x < (x / d + 1) * d,
{
    vstd::arithmetic::div_mod::lemma_fundamental_div_mod(x, d);
    vstd::arithmetic::div_mod::lemma_mod_pos_bound(x, d);
    vstd::arithmetic::div_mod::lemma_div_pos_is_pos(x, d);
    assert((x / d) * d == d * (x / d)) by (nonlinear_arith);
    assert((x / d + 1) * d == d * (x / d) + d) by (nonlinear_arith);
}

/// With an exact rate `m * WAD² / t`, dividing by it or multiplying by it is the plain
/// proportion between `m` and `t / WAD`.
proof fn lemma_exact_rate(m: int, t: int, c: int)
    requires
        m > 0,
        t > 0,
        c >= 0,
        (m * WAD * WAD) % t == 0,
    ensures
        (m * WAD * WAD) / t > 0,
        (c * WAD) / ((m * WAD * WAD) / t) == (c * t) / (m * WAD),
        (c * ((m * WAD * WAD) / t)) / (WAD as int) == (c * m * WAD) / t,
{
    let w: int = WAD as int;
    let mww: int = m * w * w;
    let r: int = mww / t;
    vstd::arithmetic::div_mod::lemma_fundamental_div_mod(mww, t);
    assert(t * r == mww);
    assert(mww > 0) by (nonlinear_arith)
        requires
            m > 0,
            w > 0,
            mww == m * w * w,
    ;
    assert(r > 0) by (nonlinear_arith)
        requires
            t > 0,
            t * r == mww,
            mww > 0,
    ;
    assert(c * w >= 0 && c * t >= 0 && c * r >= 0 && c * m * w >= 0 && m * w > 0) by (nonlinear_arith)
        requires
            c >= 0,
            t > 0,
            r > 0,
            m > 0,
            w > 0,
    ;
    vstd::arithmetic::div_mod::lemma_div_multiples_vanish_quotient(t, c * w, r);
    vstd::arithmetic::div_mod::lemma_div_multiples_vanish_quotient(w, c * t, m * w);
    assert(t * (c * w) == w * (c * t) && t * r == w * (m * w)) by (nonlinear_arith)
        requires
            t * r == mww,
            mww == m * w * w,
    ;
    vstd::arithmetic::div_mod::lemma_div_multiples_vanish_quotient(t, c * r, w);
    vstd::arithmetic::div_mod::lemma_div_multiples_vanish_quotient(w, c * m * w, t);
    assert(t * (c * r) == w * (c * m * w) && t * w == w * t) by (nonlinear_arith)
        requires
            t * r == mww,
            mww == m * w * w,
    ;
}

/// At the rate `r = m * WAD² / t` rounded down, dividing by the rate gives no less than the
/// proportion `c * t / (m * WAD)`, and multiplying by it no more than `c * m * WAD / t`; the
/// rounding of the rate costs less than one unit of it.
proof fn lemma_rounded_rate(m: int, t: int, c: int)
    requires
        m > 0,
        t > 0,
        c >= 0,
    ensures
        (m * WAD * WAD) / t > 0 ==> (c * WAD) / ((m * WAD * WAD) / t) >= (c * t) / (m * WAD),
        (m * WAD * WAD) / t > 0 ==> ((c * WAD) / ((m * WAD * WAD) / t)) * (m * WAD * WAD - t) <= c * WAD * t,
        (c * ((m * WAD * WAD) / t)) / (WAD as int) <= (c * m * WAD) / t,
        ((c * ((m * WAD * WAD) / t)) / (WAD as int) + 1) * WAD * t > c * (m * WAD * WAD - t),
{
    let w: int = WAD as int;
    let mww: int = m * w * w;
    let r: int = mww / t;
    assert(mww > 0 && m * w > 0 && c * w >= 0 && c * t >= 0 && c * m * w >= 0) by (nonlinear_arith)
        requires
            m > 0,
            w > 0,
            c >= 0,
            t > 0,
            mww == m * w * w,
    ;
    lemma_floor_div(mww, t);
    assert(r * t <= mww && mww < (r + 1) * t);
    assert(c * r >= 0) by (nonlinear_arith)
        requires
            c >= 0,
            r >= 0,
    ;
    if r > 0 {
        let v: int = (c * w) / r;
        let f: int = (c * t) / (m * w);
        lemma_floor_div(c * w, r);
        lemma_floor_div(c * t, m * w);
        assert(f * r <= c * w) by (nonlinear_arith)
            requires
                f * (m * w) <= c * t,
                r * t <= mww,
                mww == m * w * w,
                f >= 0,
                t > 0,
                w > 0,
        ;
        assert(f <= v) by (nonlinear_arith)
            requires
                f * r <= c * w,
                c * w < (v + 1) * r,
                r > 0,
        ;
        assert(v * (mww - t) <= c * w * t) by (nonlinear_arith)
            requires
                v * r <= c * w,
                mww < (r + 1) * t,
                v >= 0,
                t > 0,
        ;
    }
    let u: int = (c * r) / w;
    let g: int = (c * m * w) / t;
    lemma_floor_div(c * r, w);
    lemma_floor_div(c * m * w, t);
    assert(u * t <= c * m * w) by (nonlinear_arith)
        requires
            u * w <= c * r,
            r * t <= mww,
            mww == m * w * w,
            c >= 0,
            t > 0,
            w > 0,
    ;
    assert(u <= g) by (nonlinear_arith)
        requires
            u * t <= c * m * w,
            c * m * w < (g + 1) * t,
            t > 0,
    ;
    assert((u + 1) * w * t > c * (mww - t)) by (nonlinear_arith)
        requires
            c * r < (u + 1) * w,
            mww < (r + 1) * t,
            c >= 0,
            t > 0,
    ;
}

/// The exchange of a reserve without LP tokens or without liquidity is one for one.
proof fn lemma_exchange_one_to_one(available_amount: u64, borrowed_amount_wads: u128, mint_total_supply: u64, amount: u64)
    requires
        mint_total_supply == 0 || total_liquidity_wads(available_amount, borrowed_amount_wads) == 0,
    ensures
        exchange_collateral_to_liquidity(available_amount, borrowed_amount_wads, mint_total_supply, amount) == Some(amount),
        exchange_liquidity_to_collateral(available_amount, borrowed_amount_wads, mint_total_supply, amount) == Some(amount),
{
    assert(collateral_exchange_rate(available_amount, borrowed_amount_wads, mint_total_supply) == WAD);
    vstd::arithmetic::div_mod::lemma_div_by_multiple(amount as int, WAD as int);
    assert(amount * WAD == WAD * amount) by (nonlinear_arith);
}

/// The exchange at an exact rate is the plain proportion between the LP supply and the total
/// liquidity, rounded down.
proof fn lemma_exchange_at_exact_rate(available_amount: u64, borrowed_amount_wads: u128, mint_total_supply: u64, amount: u64)
    requires
        mint_total_supply > 0,
        total_liquidity_wads(available_amount, borrowed_amount_wads) > 0,
        (mint_total_supply * WAD * WAD) % total_liquidity_wads(available_amount, borrowed_amount_wads) == 0,
        (mint_total_supply * WAD * WAD) / total_liquidity_wads(available_amount, borrowed_amount_wads) <= u128::MAX,
    ensures
        exchange_collateral_to_liquidity(available_amount, borrowed_amount_wads, mint_total_supply, amount) == if (amount
            * total_liquidity_wads(available_amount, borrowed_amount_wads)) / (mint_total_supply * WAD) <= u64::MAX {
            Some(((amount * total_liquidity_wads(available_amount, borrowed_amount_wads)) / (mint_total_supply * WAD)) as u64)
        } else {
            None
        },
        exchange_liquidity_to_collateral(available_amount, borrowed_amount_wads, mint_total_supply, amount) == if (amount
            * mint_total_supply * WAD) / total_liquidity_wads(available_amount, borrowed_amount_wads) <= u64::MAX {
            Some(((amount * mint_total_supply * WAD) / total_liquidity_wads(available_amount, borrowed_amount_wads)) as u64)
        } else {
            None
        },
{
    lemma_exact_rate(
        mint_total_supply as int,
        total_liquidity_wads(available_amount, borrowed_amount_wads),
        amount as int,
    );
}

/// Bounds of the exchange at a rounded rate.
proof fn lemma_exchange_bounds(available_amount: u64, borrowed_amount_wads: u128, mint_total_supply: u64, amount: u64)
    requires
        mint_total_supply > 0,
        total_liquidity_wads(available_amount, borrowed_amount_wads) > 0,
    ensures
        exchange_collateral_to_liquidity(available_amount, borrowed_amount_wads, mint_total_supply, amount) matches Some(v)
            ==> v >= (amount * total_liquidity_wads(available_amount, borrowed_amount_wads)) / (mint_total_supply * WAD)
            && v * (mint_total_supply * WAD * WAD - total_liquidity_wads(available_amount, borrowed_amount_wads))
            <= amount * WAD * total_liquidity_wads(available_amount, borrowed_amount_wads),
        exchange_liquidity_to_collateral(available_amount, borrowed_amount_wads, mint_total_supply, amount) matches Some(v)
            ==> v <= (amount * mint_total_supply * WAD) / total_liquidity_wads(available_amount, borrowed_amount_wads)
            && (v + 1) * WAD * total_liquidity_wads(available_amount, borrowed_amount_wads) > amount * (mint_total_supply
            * WAD * WAD - total_liquidity_wads(available_amount, borrowed_amount_wads)),
{
    lemma_rounded_rate(
        mint_total_supply as int,
        total_liquidity_wads(available_amount, borrowed_amount_wads),
        amount as int,
    );
}

/// The share of the whole LP supply in the liquidity is the liquidity itself, in whole tokens.
proof fn lemma_whole_supply_share(available_amount: u64, borrowed_amount_wads: u128, mint_total_supply: u64)
    requires
        mint_total_supply > 0,
        total_liquidity_wads(available_amount, borrowed_amount_wads) > 0,
    ensures
        exchange_collateral_to_liquidity(available_amount, borrowed_amount_wads, mint_total_supply, mint_total_supply) matches Some(
            v,
        ) ==> v >= available_amount + borrowed_amount_wads / WAD,
{
    let t: int = total_liquidity_wads(available_amount, borrowed_amount_wads);
    lemma_exchange_bounds(available_amount, borrowed_amount_wads, mint_total_supply, mint_total_supply);
    vstd::arithmetic::div_mod::lemma_div_multiples_vanish_quotient(mint_total_supply as int, t, WAD as int);
    vstd::arithmetic::div_mod::lemma_hoist_over_denominator(borrowed_amount_wads as int, available_amount as int, WAD as nat);
    assert(available_amount * WAD == available_amount * (WAD as nat));
}

/// A Solend reserve without LP tokens or without liquidity (nothing held and nothing lent out)
/// exchanges LP tokens and reserve tokens one for one.
pub proof fn lemma_solend_exchange_one_to_one(reserve: SolendReserve, amount: u64)
    requires
        reserve.collateral_mint_total_supply == 0 || (reserve.available_amount == 0 && reserve.borrowed_amount_wads == 0),
    ensures
        reserve.lp_to_reserve(amount) == Some(amount),
        reserve.reserve_to_lp(amount) == Some(amount),
{
    lemma_exchange_one_to_one(
        reserve.available_amount,
        reserve.borrowed_amount_wads,
        reserve.collateral_mint_total_supply,
        amount,
    );
}

/// LP tokens of a Solend reserve are a share of its whole liquidity, what it holds plus what it
/// has lent out. Where the exchange rate is exact (the LP supply times WAD squared is a
/// multiple of that liquidity in WADs, and the rate fits in 128 bits), `amount` LP tokens are
/// worth `amount` times the liquidity over the LP supply, and `amount` reserve tokens are
/// worth `amount` times the LP supply over the liquidity, both rounded down; each fails only
/// where its result does not fit in a `u64`.
pub proof fn lemma_solend_exchange_at_exact_rate(reserve: SolendReserve, amount: u64)
    requires
        reserve.collateral_mint_total_supply > 0,
        reserve.available_amount * WAD + reserve.borrowed_amount_wads > 0,
        (reserve.collateral_mint_total_supply * WAD * WAD) % (reserve.available_amount * WAD + reserve.borrowed_amount_wads) == 0,
        (reserve.collateral_mint_total_supply * WAD * WAD) / (reserve.available_amount * WAD + reserve.borrowed_amount_wads)
            <= u128::MAX,
    ensures
        reserve.lp_to_reserve(amount) == if (amount * (reserve.available_amount * WAD + reserve.borrowed_amount_wads)) / (
        reserve.collateral_mint_total_supply * WAD) <= u64::MAX {
            Some(
                ((amount * (reserve.available_amount * WAD + reserve.borrowed_amount_wads)) / (reserve.collateral_mint_total_supply
                    * WAD)) as u64,
            )
        } else {
            None
        },
        reserve.reserve_to_lp(amount) == if (amount * reserve.collateral_mint_total_supply * WAD) / (reserve.available_amount
            * WAD + reserve.borrowed_amount_wads) <= u64::MAX {
            Some(
                ((amount * reserve.collateral_mint_total_supply * WAD) / (reserve.available_amount * WAD
                    + reserve.borrowed_amount_wads)) as u64,
            )
        } else {
            None
        },
{
    lemma_exchange_at_exact_rate(
        reserve.available_amount,
        reserve.borrowed_amount_wads,
        reserve.collateral_mint_total_supply,
        amount,
    );
}

/// For a Solend reserve with LP tokens and liquidity, `amount` LP tokens are worth no less than
/// their share of the whole liquidity (held plus lent out), rounded down, and `amount` reserve
/// tokens buy no more than their share of the LP supply; the exchange rate, rounded down to
/// whole units, makes each miss the exact share by less than one unit of the rate.
pub proof fn lemma_solend_exchange_bounds(reserve: SolendReserve, amount: u64)
    requires
        reserve.collateral_mint_total_supply > 0,
        reserve.available_amount * WAD + reserve.borrowed_amount_wads > 0,
    ensures
        reserve.lp_to_reserve(amount) matches Some(v) ==> v >= (amount * (reserve.available_amount * WAD
            + reserve.borrowed_amount_wads)) / (reserve.collateral_mint_total_supply * WAD) && v * (
        reserve.collateral_mint_total_supply * WAD * WAD - (reserve.available_amount * WAD + reserve.borrowed_amount_wads))
            <= amount * WAD * (reserve.available_amount * WAD + reserve.borrowed_amount_wads),
        reserve.reserve_to_lp(amount) matches Some(v) ==> v <= (amount * reserve.collateral_mint_total_supply * WAD) / (
        reserve.available_amount * WAD + reserve.borrowed_amount_wads) && (v + 1) * WAD * (reserve.available_amount * WAD
            + reserve.borrowed_amount_wads) > amount * (reserve.collateral_mint_total_supply * WAD * WAD - (
        reserve.available_amount * WAD + reserve.borrowed_amount_wads)),
{
    lemma_exchange_bounds(
        reserve.available_amount,
        reserve.borrowed_amount_wads,
        reserve.collateral_mint_total_supply,
        amount,
    );
}

/// The whole LP supply of a Solend reserve with liquidity is worth at least the reserve's whole
/// liquidity: the tokens it holds plus the whole tokens it has lent out.
pub proof fn lemma_solend_lp_supply_covers_liquidity(reserve: SolendReserve)
    requires
        reserve.collateral_mint_total_supply > 0,
        reserve.available_amount * WAD + reserve.borrowed_amount_wads > 0,
    ensures
        reserve.lp_to_reserve(reserve.collateral_mint_total_supply) matches Some(v) ==> v >= reserve.available_amount
            + reserve.borrowed_amount_wads / WAD,
{
    lemma_whole_supply_share(reserve.available_amount, reserve.borrowed_amount_wads, reserve.collateral_mint_total_supply);
}

/// A Port reserve without LP tokens or without liquidity (nothing held and nothing lent out)
/// exchanges LP tokens and reserve tokens one for one.
pub proof fn lemma_port_exchange_one_to_one(reserve: PortReserve, amount: u64)
    requires
        reserve.collateral_mint_total_supply == 0 || (reserve.available_amount == 0 && reserve.borrowed_amount_wads == 0),
    ensures
        reserve.lp_to_reserve(amount) == Some(amount),
        reserve.reserve_to_lp(amount) == Some(amount),
{
    lemma_exchange_one_to_one(
        reserve.available_amount,
        reserve.borrowed_amount_wads,
        reserve.collateral_mint_total_supply,
        amount,
    );
}

/// LP tokens of a Port reserve are a share of its whole liquidity, what it holds plus what it
/// has lent out. Where the exchange rate is exact (the LP supply times WAD squared is a
/// multiple of that liquidity in WADs, and the rate fits in 128 bits), `amount` LP tokens are
/// worth `amount` times the liquidity over the LP supply, and `amount` reserve tokens are
/// worth `amount` times the LP supply over the liquidity, both rounded down; each fails only
/// where its result does not fit in a `u64`.
pub proof fn lemma_port_exchange_at_exact_rate(reserve: PortReserve, amount: u64)
    requires
        reserve.collateral_mint_total_supply > 0,
        reserve.available_amount * WAD + reserve.borrowed_amount_wads > 0,
        (reserve.collateral_mint_total_supply * WAD * WAD) % (reserve.available_amount * WAD + reserve.borrowed_amount_wads) == 0,
        (reserve.collateral_mint_total_supply * WAD * WAD) / (reserve.available_amount * WAD + reserve.borrowed_amount_wads)
            <= u128::MAX,
    ensures
        reserve.lp_to_reserve(amount) == if (amount * (reserve.available_amount * WAD + reserve.borrowed_amount_wads)) / (
        reserve.collateral_mint_total_supply * WAD) <= u64::MAX {
            Some(
                ((amount * (reserve.available_amount * WAD + reserve.borrowed_amount_wads)) / (reserve.collateral_mint_total_supply
                    * WAD)) as u64,
            )
        } else {
            None
        },
        reserve.reserve_to_lp(amount) == if (amount * reserve.collateral_mint_total_supply * WAD) / (reserve.available_amount
            * WAD + reserve.borrowed_amount_wads) <= u64::MAX {
            Some(
                ((amount * reserve.collateral_mint_total_supply * WAD) / (reserve.available_amount * WAD
                    + reserve.borrowed_amount_wads)) as u64,
            )
        } else {
            None
        },
{
    lemma_exchange_at_exact_rate(
        reserve.available_amount,
        reserve.borrowed_amount_wads,
        reserve.collateral_mint_total_supply,
        amount,
    );
}

/// For a Port reserve with LP tokens and liquidity, `amount` LP tokens are worth no less than
/// their share of the whole liquidity (held plus lent out), rounded down, and `amount` reserve
/// tokens buy no more than their share of the LP supply; the exchange rate, rounded down to
/// whole units, makes each miss the exact share by less than one unit of the rate.
pub proof fn lemma_port_exchange_bounds(reserve: PortReserve, amount: u64)
    requires
        reserve.collateral_mint_total_supply > 0,
        reserve.available_amount * WAD + reserve.borrowed_amount_wads > 0,
    ensures
        reserve.lp_to_reserve(amount) matches Some(v) ==> v >= (amount * (reserve.available_amount * WAD
            + reserve.borrowed_amount_wads)) / (reserve.collateral_mint_total_supply * WAD) && v * (
        reserve.collateral_mint_total_supply * WAD * WAD - (reserve.available_amount * WAD + reserve.borrowed_amount_wads))
            <= amount * WAD * (reserve.available_amount * WAD + reserve.borrowed_amount_wads),
        reserve.reserve_to_lp(amount) matches Some(v) ==> v <= (amount * reserve.collateral_mint_total_supply * WAD) / (
        reserve.available_amount * WAD + reserve.borrowed_amount_wads) && (v + 1) * WAD * (reserve.available_amount * WAD
            + reserve.borrowed_amount_wads) > amount * (reserve.collateral_mint_total_supply * WAD * WAD - (
        reserve.available_amount * WAD + reserve.borrowed_amount_wads)),
{
    lemma_exchange_bounds(
        reserve.available_amount,
        reserve.borrowed_amount_wads,
        reserve.collateral_mint_total_supply,
        amount,
    );
}

/// The whole LP supply of a Port reserve with liquidity is worth at least the reserve's whole
/// liquidity: the tokens it holds plus the whole tokens it has lent out.
pub proof fn lemma_port_lp_supply_covers_liquidity(reserve: PortReserve)
    requires
        reserve.collateral_mint_total_supply > 0,
        reserve.available_amount * WAD + reserve.borrowed_amount_wads > 0,
    ensures
        reserve.lp_to_reserve(reserve.collateral_mint_total_supply) matches Some(v) ==> v >= reserve.available_amount
            + reserve.borrowed_amount_wads / WAD,
{
    lemma_whole_supply_share(reserve.available_amount, reserve.borrowed_amount_wads, reserve.collateral_mint_total_supply);
}

} // verus!
