//! The reserves of the Solend and Port lending markets, as the vault reads them: their
//! utilization, their borrow rate, and the exchange between reserve tokens and the LP
//! (collateral) tokens that a deposit mints. The markets' own arithmetic is called in
//! `spl_token_lending` and `port_variable_rate_lending_instructions`.
use crate::assets::{port_available_after_deposit, ReserveAccessor};
use crate::errors::{ErrorCode, VaultError};
use crate::rate::{Rate, WAD};
use solana_program::program_error::ProgramError;
use vstd::prelude::*;

verus! {

/// The utilization of a reserve that holds `available_amount` tokens and has lent out
/// `borrowed_amount_wads` (tokens times one WAD): borrowed over borrowed plus available, as a
/// rate rounded down; zero for an empty reserve.
pub open spec fn utilization(available_amount: u64, borrowed_amount_wads: u128) -> int {
    let total = available_amount * WAD + borrowed_amount_wads;
    if total == 0 {
        0
    } else {
        (borrowed_amount_wads * WAD) / total
    }
}

/// A utilization never exceeds one.
pub proof fn lemma_utilization_at_most_one(available_amount: u64, borrowed_amount_wads: u128)
    ensures
        0 <= utilization(available_amount, borrowed_amount_wads) <= WAD,
{
    let total = available_amount * WAD + borrowed_amount_wads;
    if total != 0 {
        let b = borrowed_amount_wads as int;
        let w = WAD as int;
        assert(b * w <= total * w && 0 <= b * w) by (nonlinear_arith)
            requires
                0 <= b <= total,
                w > 0,
        ;
        vstd::arithmetic::div_mod::lemma_div_is_ordered(b * w, total * w, total);
        vstd::arithmetic::div_mod::lemma_div_multiples_vanish(w, total);
        assert(total * w == w * total) by (nonlinear_arith);
        vstd::arithmetic::div_mod::lemma_div_pos_is_pos(b * w, total);
    }
}

/// The liquidity of a reserve, the tokens it holds plus those it has lent out, times one WAD.
pub open spec fn total_liquidity_wads(available_amount: u64, borrowed_amount_wads: u128) -> int {
    available_amount * WAD + borrowed_amount_wads
}

/// The LP tokens that one reserve token is worth, times one WAD: the LP supply over the
/// total liquidity, rounded down; one for one while the reserve has no LP tokens or no
/// liquidity.
pub open spec fn collateral_exchange_rate(available_amount: u64, borrowed_amount_wads: u128, mint_total_supply: u64) -> int {
    let total = total_liquidity_wads(available_amount, borrowed_amount_wads);
    if mint_total_supply == 0 || total == 0 {
        WAD as int
    } else {
        (mint_total_supply * WAD * WAD) / total
    }
}

/// The reserve tokens that `collateral_amount` LP tokens are worth at the exchange rate of a
/// reserve with this liquidity and LP supply, rounded down; `None` where the rate does not
/// fit in 128 bits or is zero, or the amount does not fit in a `u64`.
pub open spec fn exchange_collateral_to_liquidity(
    available_amount: u64,
    borrowed_amount_wads: u128,
    mint_total_supply: u64,
    collateral_amount: u64,
) -> Option<u64> {
    let rate = collateral_exchange_rate(available_amount, borrowed_amount_wads, mint_total_supply);
    if rate > u128::MAX || rate == 0 {
        None
    } else if (collateral_amount * WAD) / rate > u64::MAX {
        None
    } else {
        Some(((collateral_amount * WAD) / rate) as u64)
    }
}

/// The LP tokens that `liquidity_amount` reserve tokens are worth at the exchange rate of a
/// reserve with this liquidity and LP supply, rounded down; `None` where the rate does not
/// fit in 128 bits or the amount does not fit in a `u64`.
pub open spec fn exchange_liquidity_to_collateral(
    available_amount: u64,
    borrowed_amount_wads: u128,
    mint_total_supply: u64,
    liquidity_amount: u64,
) -> Option<u64> {
    let rate = collateral_exchange_rate(available_amount, borrowed_amount_wads, mint_total_supply);
    if rate > u128::MAX {
        None
    } else if (liquidity_amount * rate) / (WAD as int) > u64::MAX {
        None
    } else {
        Some(((liquidity_amount * rate) / (WAD as int)) as u64)
    }
}

/// Conversion between a market's reserve tokens and its LP tokens.
pub trait CollateralExchange {
    /// The reserve tokens that `amount` LP tokens are worth, if the market can say.
    spec fn lp_to_reserve(&self, amount: u64) -> Option<u64>;

    /// The LP tokens that `amount` reserve tokens are worth, if the market can say.
    spec fn reserve_to_lp(&self, amount: u64) -> Option<u64>;

    /// Converts LP tokens to reserve tokens; fails where the market's arithmetic does.
    fn convert_amount_lp_to_reserve(&self, amount: u64) -> (r: Result<u64, VaultError>)
        ensures
            r == match self.lp_to_reserve(amount) {
                Some(v) => Ok::<u64, VaultError>(v),
                None => Err::<u64, VaultError>(VaultError::Reserve),
            },
    ;

    /// Converts reserve tokens to LP tokens; fails where the market's arithmetic does.
    fn convert_amount_reserve_to_lp(&self, amount: u64) -> (r: Result<u64, VaultError>)
        ensures
            r == match self.reserve_to_lp(amount) {
                Some(v) => Ok::<u64, VaultError>(v),
                None => Err::<u64, VaultError>(VaultError::Reserve),
            },
    ;
}

/// What the vault reads of a Solend reserve.
#[derive(Clone, Copy, Debug, PartialEq, Eq, Structural)]
pub struct SolendReserve {
    /// Reserve tokens that the reserve holds.
    pub available_amount: u64,
    /// Reserve tokens lent out, times one WAD.
    pub borrowed_amount_wads: u128,
    /// LP tokens in circulation.
    pub collateral_mint_total_supply: u64,
    /// Utilization at which the borrow rate reaches its optimum, in percent.
    pub optimal_utilization_rate: u8,
    /// Borrow rate at no utilization, in percent.
    pub min_borrow_rate: u8,
    /// Borrow rate at the optimal utilization, in percent.
    pub optimal_borrow_rate: u8,
    /// Borrow rate at full utilization, in percent.
    pub max_borrow_rate: u8,
}

/// What `spl_token_lending::state::Reserve::current_borrow_rate` returns for the reserve, as
/// a scaled rate; `None` where it fails.
pub uninterp spec fn solend_borrow_rate(reserve: SolendReserve) -> Option<u128>;

/// What `spl_token_lending::state::CollateralExchangeRate::collateral_to_liquidity` returns
/// for the reserve's exchange rate and the amount; `None` where either step fails.
pub uninterp spec fn solend_collateral_to_liquidity(reserve: SolendReserve, collateral_amount: u64) -> Option<u64>;

/// What `spl_token_lending::state::CollateralExchangeRate::liquidity_to_collateral` returns
/// for the reserve's exchange rate and the amount; `None` where either step fails.
pub uninterp spec fn solend_liquidity_to_collateral(reserve: SolendReserve, liquidity_amount: u64) -> Option<u64>;

/// Calls `spl_token_lending::state::ReserveLiquidity::utilization_rate` on the reserve's
/// liquidity. It computes in 192 bits, where nothing overflows for these inputs, so it
/// always succeeds with `utilization`.
#[verifier::external_body]
fn spl_utilization_rate(reserve: &SolendReserve) -> (r: Result<u128, ProgramError>)
    ensures
        r is Ok,
        r matches Ok(v) ==> v == utilization(reserve.available_amount, reserve.borrowed_amount_wads),
{
    let mut liquidity = spl_token_lending::state::ReserveLiquidity::default();
    liquidity.available_amount = reserve.available_amount;
    liquidity.borrowed_amount_wads = spl_token_lending::math::Decimal::from_scaled_val(reserve.borrowed_amount_wads);
    match liquidity.utilization_rate() {
        Ok(rate) => Ok(rate.to_scaled_val()),
        Err(e) => Err(e),
    }
}

/// Calls `spl_token_lending::state::Reserve::current_borrow_rate` on a reserve with the
/// liquidity and configuration read; its result is named by `solend_borrow_rate`.
#[verifier::external_body]
fn spl_current_borrow_rate(reserve: &SolendReserve) -> (r: Result<u128, ProgramError>)
    ensures
        r is Ok <==> solend_borrow_rate(*reserve) is Some,
        r matches Ok(v) ==> solend_borrow_rate(*reserve) == Some(v),
{
    let mut market = spl_token_lending::state::Reserve::default();
    market.liquidity.available_amount = reserve.available_amount;
    market.liquidity.borrowed_amount_wads = spl_token_lending::math::Decimal::from_scaled_val(reserve.borrowed_amount_wads);
    market.config.optimal_utilization_rate = reserve.optimal_utilization_rate;
    market.config.min_borrow_rate = reserve.min_borrow_rate;
    market.config.optimal_borrow_rate = reserve.optimal_borrow_rate;
    market.config.max_borrow_rate = reserve.max_borrow_rate;
    match market.current_borrow_rate() {
        Ok(rate) => Ok(rate.to_scaled_val()),
        Err(e) => Err(e),
    }
}

/// Calls `spl_token_lending::state::ReserveLiquidity::deposit`: the checked sum of the
/// available amount and the deposit.
#[verifier::external_body]
fn spl_liquidity_deposit(available_amount: u64, liquidity_amount: u64) -> (r: Result<u64, ProgramError>)
    ensures
        r is Ok <==> available_amount + liquidity_amount <= u64::MAX,
        r matches Ok(v) ==> v == available_amount + liquidity_amount,
{
    let mut liquidity = spl_token_lending::state::ReserveLiquidity::default();
    liquidity.available_amount = available_amount;
    match liquidity.deposit(liquidity_amount) {
        Ok(()) => Ok(liquidity.available_amount),
        Err(e) => Err(e),
    }
}

/// Calls `spl_token_lending::state::ReserveLiquidity::withdraw`: the available amount less
/// the withdrawal, which may not exceed it.
#[verifier::external_body]
fn spl_liquidity_withdraw(available_amount: u64, liquidity_amount: u64) -> (r: Result<u64, ProgramError>)
    ensures
        r is Ok <==> liquidity_amount <= available_amount,
        r matches Ok(v) ==> v == available_amount - liquidity_amount,
{
    let mut liquidity = spl_token_lending::state::ReserveLiquidity::default();
    liquidity.available_amount = available_amount;
    match liquidity.withdraw(liquidity_amount) {
        Ok(()) => Ok(liquidity.available_amount),
        Err(e) => Err(e),
    }
}

/// Calls `spl_token_lending::state::Reserve::collateral_exchange_rate` on a reserve with the
/// liquidity and LP supply read, then `collateral_to_liquidity` on the rate (the rate can
/// only be had from a reserve); the result is named by `solend_collateral_to_liquidity`.
/// The contract claims the crate's arithmetic in 192 bits: the rate is the LP supply over the
/// available plus borrowed liquidity, and the amount is divided by it and rounded down, as
/// `exchange_collateral_to_liquidity` states, failing exactly where it says `None`.
#[verifier::external_body]
fn spl_collateral_to_liquidity(reserve: &SolendReserve, collateral_amount: u64) -> (r: Result<u64, ProgramError>)
    ensures
        r is Ok <==> solend_collateral_to_liquidity(*reserve, collateral_amount) is Some,
        r matches Ok(v) ==> solend_collateral_to_liquidity(*reserve, collateral_amount) == Some(v),
        r is Ok <==> exchange_collateral_to_liquidity(
            reserve.available_amount,
            reserve.borrowed_amount_wads,
            reserve.collateral_mint_total_supply,
            collateral_amount,
        ) is Some,
        r matches Ok(v) ==> exchange_collateral_to_liquidity(
            reserve.available_amount,
            reserve.borrowed_amount_wads,
            reserve.collateral_mint_total_supply,
            collateral_amount,
        ) == Some(v),
{
    let mut market = spl_token_lending::state::Reserve::default();
    market.liquidity.available_amount = reserve.available_amount;
    market.liquidity.borrowed_amount_wads = spl_token_lending::math::Decimal::from_scaled_val(reserve.borrowed_amount_wads);
    market.collateral.mint_total_supply = reserve.collateral_mint_total_supply;
    match market.collateral_exchange_rate() {
        Ok(rate) => rate.collateral_to_liquidity(collateral_amount),
        Err(e) => Err(e),
    }
}

/// Calls `spl_token_lending::state::Reserve::collateral_exchange_rate` on a reserve with the
/// liquidity and LP supply read, then `liquidity_to_collateral` on the rate; the result is
/// named by `solend_liquidity_to_collateral`. The contract claims the crate's arithmetic in
/// 192 bits: the amount is multiplied by the rate (LP supply over available plus borrowed
/// liquidity) and rounded down, as `exchange_liquidity_to_collateral` states, failing exactly
/// where it says `None`.
#[verifier::external_body]
fn spl_liquidity_to_collateral(reserve: &SolendReserve, liquidity_amount: u64) -> (r: Result<u64, ProgramError>)
    ensures
        r is Ok <==> solend_liquidity_to_collateral(*reserve, liquidity_amount) is Some,
        r matches Ok(v) ==> solend_liquidity_to_collateral(*reserve, liquidity_amount) == Some(v),
        r is Ok <==> exchange_liquidity_to_collateral(
            reserve.available_amount,
            reserve.borrowed_amount_wads,
            reserve.collateral_mint_total_supply,
            liquidity_amount,
        ) is Some,
        r matches Ok(v) ==> exchange_liquidity_to_collateral(
            reserve.available_amount,
            reserve.borrowed_amount_wads,
            reserve.collateral_mint_total_supply,
            liquidity_amount,
        ) == Some(v),
{
    let mut market = spl_token_lending::state::Reserve::default();
    market.liquidity.available_amount = reserve.available_amount;
    market.liquidity.borrowed_amount_wads = spl_token_lending::math::Decimal::from_scaled_val(reserve.borrowed_amount_wads);
    market.collateral.mint_total_supply = reserve.collateral_mint_total_supply;
    match market.collateral_exchange_rate() {
        Ok(rate) => rate.liquidity_to_collateral(liquidity_amount),
        Err(e) => Err(e),
    }
}

impl ReserveAccessor for SolendReserve {
    open spec fn spec_utilization_rate(&self) -> Result<Rate, VaultError> {
        Ok(Rate { scaled: utilization(self.available_amount, self.borrowed_amount_wads) as u128 })
    }

    open spec fn spec_borrow_rate(&self) -> Result<Rate, VaultError> {
        match solend_borrow_rate(*self) {
            Some(v) => Ok(Rate { scaled: (v as u64) as u128 }),
            None => Err(VaultError::Reserve),
        }
    }

    open spec fn spec_reserve_with_deposit(&self, new_allocation: u64, old_allocation: u64) -> Result<Self, VaultError> {
        let deposited = self.available_amount + new_allocation;
        if deposited > u64::MAX || old_allocation > deposited {
            Err(VaultError::Reserve)
        } else {
            Ok(SolendReserve { available_amount: (deposited - old_allocation) as u64, ..*self })
        }
    }

    /// The reserve's utilization, from the market's own arithmetic; it is at most one.
    fn utilization_rate(&self) -> (r: Result<Rate, VaultError>) {
        match spl_utilization_rate(self) {
            Ok(u) => {
                proof {
                    lemma_utilization_at_most_one(self.available_amount, self.borrowed_amount_wads);
                }
                Ok(Rate::from_scaled_val(u as u64))
            },
            Err(_) => Err(VaultError::Reserve),
        }
    }

    /// The reserve's borrow rate, from the market's own arithmetic, kept to its low 64 bits.
    fn borrow_rate(&self) -> (r: Result<Rate, VaultError>) {
        match spl_current_borrow_rate(self) {
            Ok(v) => Ok(Rate::from_scaled_val(v as u64)),
            Err(_) => Err(VaultError::Reserve),
        }
    }

    /// The reserve after the market records a deposit of `new_allocation` and a withdrawal
    /// of `old_allocation`.
    fn reserve_with_deposit(&self, new_allocation: u64, old_allocation: u64) -> (r: Result<Self, VaultError>) {
        let deposited = match spl_liquidity_deposit(self.available_amount, new_allocation) {
            Ok(v) => v,
            Err(_) => {
                return Err(VaultError::Reserve);
            },
        };
        let withdrawn = match spl_liquidity_withdraw(deposited, old_allocation) {
            Ok(v) => v,
            Err(_) => {
                return Err(VaultError::Reserve);
            },
        };
        Ok(SolendReserve { available_amount: withdrawn, ..*self })
    }
}

impl CollateralExchange for SolendReserve {
    open spec fn lp_to_reserve(&self, amount: u64) -> Option<u64> {
        exchange_collateral_to_liquidity(self.available_amount, self.borrowed_amount_wads, self.collateral_mint_total_supply, amount)
    }

    open spec fn reserve_to_lp(&self, amount: u64) -> Option<u64> {
        exchange_liquidity_to_collateral(self.available_amount, self.borrowed_amount_wads, self.collateral_mint_total_supply, amount)
    }

    fn convert_amount_lp_to_reserve(&self, amount: u64) -> (r: Result<u64, VaultError>) {
        match spl_collateral_to_liquidity(self, amount) {
            Ok(v) => Ok(v),
            Err(_) => Err(VaultError::Reserve),
        }
    }

    fn convert_amount_reserve_to_lp(&self, amount: u64) -> (r: Result<u64, VaultError>) {
        match spl_liquidity_to_collateral(self, amount) {
            Ok(v) => Ok(v),
            Err(_) => Err(VaultError::Reserve),
        }
    }
}

/// What the vault reads of a Port reserve.
#[derive(Clone, Copy, Debug, PartialEq, Eq, Structural)]
pub struct PortReserve {
    /// Reserve tokens that the reserve holds.
    pub available_amount: u64,
    /// Reserve tokens lent out, times one WAD.
    pub borrowed_amount_wads: u128,
    /// LP tokens in circulation.
    pub collateral_mint_total_supply: u64,
    /// Utilization at which the borrow rate reaches its optimum, in percent.
    pub optimal_utilization_rate: u8,
    /// Borrow rate at no utilization, in percent.
    pub min_borrow_rate: u8,
    /// Borrow rate at the optimal utilization, in percent.
    pub optimal_borrow_rate: u8,
    /// Borrow rate at full utilization, in percent.
    pub max_borrow_rate: u8,
}

/// What `port_variable_rate_lending_instructions::state::Reserve::current_borrow_rate`
/// returns for the reserve, as a scaled rate; `None` where it fails.
pub uninterp spec fn port_borrow_rate(reserve: PortReserve) -> Option<u128>;

/// What `port_variable_rate_lending_instructions::state::CollateralExchangeRate::collateral_to_liquidity`
/// returns for the reserve's exchange rate and the amount; `None` where either step fails.
pub uninterp spec fn port_collateral_to_liquidity(reserve: PortReserve, collateral_amount: u64) -> Option<u64>;

/// What `port_variable_rate_lending_instructions::state::CollateralExchangeRate::liquidity_to_collateral`
/// returns for the reserve's exchange rate and the amount; `None` where either step fails.
pub uninterp spec fn port_liquidity_to_collateral(reserve: PortReserve, liquidity_amount: u64) -> Option<u64>;

/// Calls `port_variable_rate_lending_instructions::state::ReserveLiquidity::utilization_rate`
/// on the reserve's liquidity. It computes in 192 bits, where nothing overflows for these
/// inputs, so it always succeeds with `utilization`.
#[verifier::external_body]
fn port_utilization_rate(reserve: &PortReserve) -> (r: Result<u128, ProgramError>)
    ensures
        r is Ok,
        r matches Ok(v) ==> v == utilization(reserve.available_amount, reserve.borrowed_amount_wads),
{
    let mut liquidity = port_variable_rate_lending_instructions::state::ReserveLiquidity::default();
    liquidity.available_amount = reserve.available_amount;
    liquidity.borrowed_amount_wads = solana_maths::Decimal::from_scaled_val(reserve.borrowed_amount_wads);
    match liquidity.utilization_rate() {
        Ok(rate) => Ok(rate.to_scaled_val()),
        Err(e) => Err(e),
    }
}

/// Calls `port_variable_rate_lending_instructions::state::Reserve::current_borrow_rate` on a
/// reserve with the liquidity and configuration read; its result is named by
/// `port_borrow_rate`.
#[verifier::external_body]
fn port_current_borrow_rate(reserve: &PortReserve) -> (r: Result<u128, ProgramError>)
    ensures
        r is Ok <==> port_borrow_rate(*reserve) is Some,
        r matches Ok(v) ==> port_borrow_rate(*reserve) == Some(v),
{
    let mut market = port_variable_rate_lending_instructions::state::Reserve::default();
    market.liquidity.available_amount = reserve.available_amount;
    market.liquidity.borrowed_amount_wads = solana_maths::Decimal::from_scaled_val(reserve.borrowed_amount_wads);
    market.config.optimal_utilization_rate = reserve.optimal_utilization_rate;
    market.config.min_borrow_rate = reserve.min_borrow_rate;
    market.config.optimal_borrow_rate = reserve.optimal_borrow_rate;
    market.config.max_borrow_rate = reserve.max_borrow_rate;
    match market.current_borrow_rate() {
        Ok(rate) => Ok(rate.to_scaled_val()),
        Err(e) => Err(e),
    }
}

/// Calls `port_variable_rate_lending_instructions::state::Reserve::collateral_exchange_rate`
/// on a reserve with the liquidity and LP supply read, then `collateral_to_liquidity` on the
/// rate (the rate can only be had from a reserve); the result is named by
/// `port_collateral_to_liquidity`. The contract claims the crate's arithmetic in 192 bits:
/// the rate is the LP supply over the available plus borrowed liquidity, and the amount is
/// divided by it and rounded down, as `exchange_collateral_to_liquidity` states, failing
/// exactly where it says `None`.
#[verifier::external_body]
fn port_exchange_collateral_to_liquidity(reserve: &PortReserve, collateral_amount: u64) -> (r: Result<u64, ProgramError>)
    ensures
        r is Ok <==> port_collateral_to_liquidity(*reserve, collateral_amount) is Some,
        r matches Ok(v) ==> port_collateral_to_liquidity(*reserve, collateral_amount) == Some(v),
        r is Ok <==> exchange_collateral_to_liquidity(
            reserve.available_amount,
            reserve.borrowed_amount_wads,
            reserve.collateral_mint_total_supply,
            collateral_amount,
        ) is Some,
        r matches Ok(v) ==> exchange_collateral_to_liquidity(
            reserve.available_amount,
            reserve.borrowed_amount_wads,
            reserve.collateral_mint_total_supply,
            collateral_amount,
        ) == Some(v),
{
    let mut market = port_variable_rate_lending_instructions::state::Reserve::default();
    market.liquidity.available_amount = reserve.available_amount;
    market.liquidity.borrowed_amount_wads = solana_maths::Decimal::from_scaled_val(reserve.borrowed_amount_wads);
    market.collateral.mint_total_supply = reserve.collateral_mint_total_supply;
    match market.collateral_exchange_rate() {
        Ok(rate) => rate.collateral_to_liquidity(collateral_amount),
        Err(e) => Err(e),
    }
}

/// Calls `port_variable_rate_lending_instructions::state::Reserve::collateral_exchange_rate`
/// on a reserve with the liquidity and LP supply read, then `liquidity_to_collateral` on the
/// rate; the result is named by `port_liquidity_to_collateral`. The contract claims the
/// crate's arithmetic in 192 bits: the amount is multiplied by the rate (LP supply over
/// available plus borrowed liquidity) and rounded down, as `exchange_liquidity_to_collateral`
/// states, failing exactly where it says `None`.
#[verifier::external_body]
fn port_exchange_liquidity_to_collateral(reserve: &PortReserve, liquidity_amount: u64) -> (r: Result<u64, ProgramError>)
    ensures
        r is Ok <==> port_liquidity_to_collateral(*reserve, liquidity_amount) is Some,
        r matches Ok(v) ==> port_liquidity_to_collateral(*reserve, liquidity_amount) == Some(v),
        r is Ok <==> exchange_liquidity_to_collateral(
            reserve.available_amount,
            reserve.borrowed_amount_wads,
            reserve.collateral_mint_total_supply,
            liquidity_amount,
        ) is Some,
        r matches Ok(v) ==> exchange_liquidity_to_collateral(
            reserve.available_amount,
            reserve.borrowed_amount_wads,
            reserve.collateral_mint_total_supply,
            liquidity_amount,
        ) == Some(v),
{
    let mut market = port_variable_rate_lending_instructions::state::Reserve::default();
    market.liquidity.available_amount = reserve.available_amount;
    market.liquidity.borrowed_amount_wads = solana_maths::Decimal::from_scaled_val(reserve.borrowed_amount_wads);
    market.collateral.mint_total_supply = reserve.collateral_mint_total_supply;
    match market.collateral_exchange_rate() {
        Ok(rate) => rate.liquidity_to_collateral(liquidity_amount),
        Err(e) => Err(e),
    }
}

impl ReserveAccessor for PortReserve {
    open spec fn spec_utilization_rate(&self) -> Result<Rate, VaultError> {
        Ok(Rate { scaled: utilization(self.available_amount, self.borrowed_amount_wads) as u128 })
    }

    open spec fn spec_borrow_rate(&self) -> Result<Rate, VaultError> {
        match port_borrow_rate(*self) {
            Some(v) => Ok(Rate { scaled: (v as u64) as u128 }),
            None => Err(VaultError::Reserve),
        }
    }

    open spec fn spec_reserve_with_deposit(&self, new_allocation: u64, old_allocation: u64) -> Result<Self, VaultError> {
        let deposited = self.available_amount + new_allocation;
        if deposited > u64::MAX || old_allocation > deposited {
            Err(VaultError::Code(ErrorCode::OverflowError))
        } else {
            Ok(PortReserve { available_amount: (deposited - old_allocation) as u64, ..*self })
        }
    }

    /// The reserve's utilization, from the market's own arithmetic; it is at most one.
    fn utilization_rate(&self) -> (r: Result<Rate, VaultError>) {
        match port_utilization_rate(self) {
            Ok(u) => {
                proof {
                    lemma_utilization_at_most_one(self.available_amount, self.borrowed_amount_wads);
                }
                Ok(Rate::from_scaled_val(u as u64))
            },
            Err(_) => Err(VaultError::Reserve),
        }
    }

    /// The reserve's borrow rate, from the market's own arithmetic, kept to its low 64 bits.
    fn borrow_rate(&self) -> (r: Result<Rate, VaultError>) {
        match port_current_borrow_rate(self) {
            Ok(v) => Ok(Rate::from_scaled_val(v as u64)),
            Err(_) => Err(VaultError::Reserve),
        }
    }

    /// The reserve with `new_allocation` added to its available liquidity and
    /// `old_allocation` taken from it.
    fn reserve_with_deposit(&self, new_allocation: u64, old_allocation: u64) -> (r: Result<Self, VaultError>) {
        let available_amount = port_available_after_deposit(self.available_amount, new_allocation, old_allocation)?;
        Ok(PortReserve { available_amount, ..*self })
    }
}

impl CollateralExchange for PortReserve {
    open spec fn lp_to_reserve(&self, amount: u64) -> Option<u64> {
        exchange_collateral_to_liquidity(self.available_amount, self.borrowed_amount_wads, self.collateral_mint_total_supply, amount)
    }

    open spec fn reserve_to_lp(&self, amount: u64) -> Option<u64> {
        exchange_liquidity_to_collateral(self.available_amount, self.borrowed_amount_wads, self.collateral_mint_total_supply, amount)
    }

    fn convert_amount_lp_to_reserve(&self, amount: u64) -> (r: Result<u64, VaultError>) {
        match port_exchange_collateral_to_liquidity(self, amount) {
            Ok(v) => Ok(v),
            Err(_) => Err(VaultError::Reserve),
        }
    }

    fn convert_amount_reserve_to_lp(&self, amount: u64) -> (r: Result<u64, VaultError>) {
        match port_exchange_liquidity_to_collateral(self, amount) {
            Ok(v) => Ok(v),
            Err(_) => Err(VaultError::Reserve),
        }
    }
}

/// A reserve of either market, for code that handles them alike.
#[derive(Clone, Copy, Debug, PartialEq, Eq, Structural)]
pub enum Reserves {
    Solend(SolendReserve),
    Port(PortReserve),
}

impl ReserveAccessor for Reserves {
    open spec fn spec_utilization_rate(&self) -> Result<Rate, VaultError> {
        match self {
            Reserves::Solend(reserve) => reserve.spec_utilization_rate(),
            Reserves::Port(reserve) => reserve.spec_utilization_rate(),
        }
    }

    open spec fn spec_borrow_rate(&self) -> Result<Rate, VaultError> {
        match self {
            Reserves::Solend(reserve) => reserve.spec_borrow_rate(),
            Reserves::Port(reserve) => reserve.spec_borrow_rate(),
        }
    }

    open spec fn spec_reserve_with_deposit(&self, new_allocation: u64, old_allocation: u64) -> Result<Self, VaultError> {
        match self {
            Reserves::Solend(reserve) => match reserve.spec_reserve_with_deposit(new_allocation, old_allocation) {
                Ok(r) => Ok(Reserves::Solend(r)),
                Err(e) => Err(e),
            },
            Reserves::Port(reserve) => match reserve.spec_reserve_with_deposit(new_allocation, old_allocation) {
                Ok(r) => Ok(Reserves::Port(r)),
                Err(e) => Err(e),
            },
        }
    }

    /// The utilization of the market's reserve.
    fn utilization_rate(&self) -> (r: Result<Rate, VaultError>) {
        match self {
            Reserves::Solend(reserve) => reserve.utilization_rate(),
            Reserves::Port(reserve) => reserve.utilization_rate(),
        }
    }

    /// The borrow rate of the market's reserve.
    fn borrow_rate(&self) -> (r: Result<Rate, VaultError>) {
        match self {
            Reserves::Solend(reserve) => reserve.borrow_rate(),
            Reserves::Port(reserve) => reserve.borrow_rate(),
        }
    }

    /// The market's reserve after the deposit and withdrawal.
    fn reserve_with_deposit(&self, new_allocation: u64, old_allocation: u64) -> (r: Result<Self, VaultError>) {
        match self {
            Reserves::Solend(reserve) => match reserve.reserve_with_deposit(new_allocation, old_allocation) {
                Ok(r) => Ok(Reserves::Solend(r)),
                Err(e) => Err(e),
            },
            Reserves::Port(reserve) => match reserve.reserve_with_deposit(new_allocation, old_allocation) {
                Ok(r) => Ok(Reserves::Port(r)),
                Err(e) => Err(e),
            },
        }
    }
}

} // verus!
