//! Selling tokens back to a curve.

use vstd::prelude::*;
use crate::amm::AMM;
use crate::error::CurveLaunchpadError;
use crate::fee::{calculate_fee, fee_of};
use crate::identity::Identity;
use crate::instructions::events::{Settlement, TradeEvent};
use crate::state::{BondingCurve, Global};

verus! {

/// The accounts of a sale, as the values that the sale reads and writes.
#[derive(Clone, Copy, Debug, PartialEq, Eq)]
pub struct Sell {
    /// The trader.
    pub user: Identity,
    pub global: Global,
    /// The account that the caller names for the fee.
    pub fee_recipient: Identity,
    /// The asset.
    pub mint: Identity,
    pub bonding_curve: BondingCurve,
    /// The sol that the curve's account holds.
    pub bonding_curve_lamports: u64,
    /// The tokens that the trader holds.
    pub user_token_amount: u64,
}

impl Sell {
    /// The sol that the sale takes out of the curve, before the fee.
    pub open spec fn sol_amount(self, token_amount: u64) -> int {
        self.bonding_curve.reserves().sell_sol_out(token_amount as int)
    }

    /// The fee on the sale.
    pub open spec fn fee(self, token_amount: u64) -> int {
        fee_of(self.sol_amount(token_amount), self.global.fee_basis_points as int)
    }

    /// What the sale delivers to the trader.
    pub open spec fn net_sol_output(self, token_amount: u64) -> int {
        self.sol_amount(token_amount) - self.fee(token_amount)
    }

    /// The first check before the trader's bound that the sale fails, in the
    /// order in which they are made, or `None` where it passes them all.
    pub open spec fn pricing_rejection(self, token_amount: u64) -> Option<CurveLaunchpadError> {
        let curve = self.bonding_curve;
        if self.global.trading_rejection() is Some {
            self.global.trading_rejection()
        } else if curve.complete {
            Some(CurveLaunchpadError::BondingCurveComplete)
        } else if self.user_token_amount < token_amount || curve.real_token_reserves
            < token_amount {
            Some(CurveLaunchpadError::InsufficientTokens)
        } else if token_amount == 0 {
            Some(CurveLaunchpadError::MinTradeViolation)
        } else if self.fee_recipient != self.global.fee_recipient {
            Some(CurveLaunchpadError::InvalidFeeRecipient)
        } else if curve.reserves().sell_rejection(token_amount as int) is Some {
            curve.reserves().sell_rejection(token_amount as int)
        } else if curve.real_token_reserves + token_amount > curve.token_total_supply {
            Some(CurveLaunchpadError::ArithmeticOverflow)
        } else if self.fee(token_amount) > u64::MAX {
            Some(CurveLaunchpadError::ArithmeticOverflow)
        } else if self.fee(token_amount) > self.sol_amount(token_amount) {
            Some(CurveLaunchpadError::ArithmeticUnderflow)
        } else {
            None
        }
    }

    /// The first check that the sale fails, or `None` where it passes them
    /// all: those before the bound, then the bound itself, then the sol that
    /// the curve's account holds.
    pub open spec fn rejection(self, token_amount: u64, min_sol_output: u64) -> Option<
        CurveLaunchpadError,
    > {
        if self.pricing_rejection(token_amount) is Some {
            self.pricing_rejection(token_amount)
        } else if self.net_sol_output(token_amount) < min_sol_output {
            Some(CurveLaunchpadError::SlippageExceeded)
        } else if self.bonding_curve_lamports < self.sol_amount(token_amount) {
            Some(CurveLaunchpadError::InsufficientSOL)
        } else {
            None
        }
    }

    /// The curve that the sale leaves.
    pub open spec fn curve_after(self, token_amount: u64) -> BondingCurve {
        let after = self.bonding_curve.reserves().after_sell(token_amount as int);
        BondingCurve {
            virtual_token_reserves: after.virtual_token as u64,
            virtual_sol_reserves: after.virtual_sol as u64,
            real_token_reserves: after.real_token as u64,
            real_sol_reserves: after.real_sol as u64,
            token_total_supply: self.bonding_curve.token_total_supply,
            complete: after.real_sol == 0,
        }
    }

    /// The accounts after the sale.
    pub open spec fn after(self, token_amount: u64) -> Sell {
        Sell {
            bonding_curve: self.curve_after(token_amount),
            bonding_curve_lamports: (self.bonding_curve_lamports - self.sol_amount(
                token_amount,
            )) as u64,
            user_token_amount: (self.user_token_amount - token_amount) as u64,
            ..self
        }
    }

    /// The amounts that settle the sale.
    pub open spec fn settlement(self, token_amount: u64) -> Settlement {
        Settlement {
            token_amount,
            sol_amount: self.sol_amount(token_amount) as u64,
            fee: self.fee(token_amount) as u64,
            net_sol_amount: self.net_sol_output(token_amount) as u64,
        }
    }

    /// The record of the sale.
    pub open spec fn event(self, token_amount: u64, timestamp: i64) -> TradeEvent {
        let curve = self.curve_after(token_amount);
        TradeEvent {
            mint: self.mint,
            sol_amount: self.sol_amount(token_amount) as u64,
            token_amount,
            is_buy: false,
            user: self.user,
            timestamp,
            virtual_sol_reserves: curve.virtual_sol_reserves,
            virtual_token_reserves: curve.virtual_token_reserves,
            real_sol_reserves: curve.real_sol_reserves,
            real_token_reserves: curve.real_token_reserves,
            complete: curve.complete,
        }
    }
}

/// Sells `token_amount` tokens to the curve for no less than
/// `min_sol_output`.
///
/// The checks run in a fixed order and the first that fails decides the error:
/// the configuration is active; the curve is not complete; the trader holds
/// the tokens, the curve's real token reserve is no smaller than the amount,
/// and the amount is not zero; the fee recipient is the configured one; the
/// engine prices the sale and the real token reserve stays within the supply;
/// the fee is taken off the sol amount; what is left meets the trader's
/// bound; the curve's account holds the sol to pay out.
///
/// On success the curve carries the engine's new reserves, the balances are
/// moved, and the amounts to transfer and the trade's record are returned. On
/// failure nothing is changed.
pub fn sell(ctx: &mut Sell, token_amount: u64, min_sol_output: u64, timestamp: i64) -> (r: Result<
    (Settlement, TradeEvent),
    CurveLaunchpadError,
>)
    ensures
        match r {
            Ok((settlement, event)) => {
                &&& old(ctx).rejection(token_amount, min_sol_output) is None
                &&& settlement == old(ctx).settlement(token_amount)
                &&& event == old(ctx).event(token_amount, timestamp)
                &&& *final(ctx) == old(ctx).after(token_amount)
                &&& final(ctx).bonding_curve.reserves() == old(
                    ctx,
                ).bonding_curve.reserves().after_sell(token_amount as int)
                &&& settlement.net_sol_amount + settlement.fee == settlement.sol_amount
                &&& settlement.net_sol_amount >= min_sol_output
            },
            Err(e) => {
                &&& old(ctx).rejection(token_amount, min_sol_output) == Some(e)
                &&& *final(ctx) == *old(ctx)
            },
        },
        old(ctx).bonding_curve.complete ==> r is Err,
        old(ctx).bonding_curve.complete && old(ctx).global.active() ==> r == Err::<
            (Settlement, TradeEvent),
            CurveLaunchpadError,
        >(CurveLaunchpadError::BondingCurveComplete),
        old(ctx).bonding_curve.complete ==> final(ctx).bonding_curve.complete,
        old(ctx).bonding_curve.wf() ==> final(ctx).bonding_curve.wf(),
{
    match ctx.global.require_active() {
        Err(e) => {
            return Err(e);
        },
        Ok(_) => {},
    }
    if ctx.bonding_curve.complete {
        return Err(CurveLaunchpadError::BondingCurveComplete);
    }
    if ctx.user_token_amount < token_amount || ctx.bonding_curve.real_token_reserves
        < token_amount {
        return Err(CurveLaunchpadError::InsufficientTokens);
    }
    if token_amount == 0 {
        return Err(CurveLaunchpadError::MinTradeViolation);
    }
    if !ctx.fee_recipient.same(&ctx.global.fee_recipient) {
        return Err(CurveLaunchpadError::InvalidFeeRecipient);
    }
    let mut amm = AMM::new(
        ctx.bonding_curve.virtual_sol_reserves as u128,
        ctx.bonding_curve.virtual_token_reserves as u128,
        ctx.bonding_curve.real_sol_reserves as u128,
        ctx.bonding_curve.real_token_reserves as u128,
        ctx.global.initial_virtual_token_reserves as u128,
    );
    let quote = match amm.apply_sell(token_amount as u128) {
        Err(e) => {
            return Err(e);
        },
        Ok(quote) => quote,
    };
    if quote.real_token_reserves > ctx.bonding_curve.token_total_supply {
        return Err(CurveLaunchpadError::ArithmeticOverflow);
    }
    let fee = match calculate_fee(quote.sol_amount, ctx.global.fee_basis_points) {
        Err(e) => {
            return Err(e);
        },
        Ok(fee) => fee,
    };
    if fee > quote.sol_amount {
        return Err(CurveLaunchpadError::ArithmeticUnderflow);
    }
    let net_sol_amount: u64 = quote.sol_amount - fee;
    if net_sol_amount < min_sol_output {
        return Err(CurveLaunchpadError::SlippageExceeded);
    }
    if ctx.bonding_curve_lamports < quote.sol_amount {
        return Err(CurveLaunchpadError::InsufficientSOL);
    }
    ctx.bonding_curve.virtual_token_reserves = quote.virtual_token_reserves;
    ctx.bonding_curve.virtual_sol_reserves = quote.virtual_sol_reserves;
    ctx.bonding_curve.real_token_reserves = quote.real_token_reserves;
    ctx.bonding_curve.real_sol_reserves = quote.real_sol_reserves;
    ctx.bonding_curve.complete = quote.complete;
    ctx.bonding_curve_lamports = ctx.bonding_curve_lamports - quote.sol_amount;
    ctx.user_token_amount = ctx.user_token_amount - token_amount;
    let settlement = Settlement {
        token_amount: quote.token_amount,
        sol_amount: quote.sol_amount,
        fee,
        net_sol_amount,
    };
    let event = TradeEvent {
        mint: ctx.mint,
        sol_amount: quote.sol_amount,
        token_amount: quote.token_amount,
        is_buy: false,
        user: ctx.user,
        timestamp,
        virtual_sol_reserves: quote.virtual_sol_reserves,
        virtual_token_reserves: quote.virtual_token_reserves,
        real_sol_reserves: quote.real_sol_reserves,
        real_token_reserves: quote.real_token_reserves,
        complete: quote.complete,
    };
    Ok((settlement, event))
}

/// Takes `amount_of_lamports` of sol off a balance. Refused with
/// `InsufficientSOL` where the balance is smaller than the amount.
pub fn debit_lamports(lamports: u64, amount_of_lamports: u64) -> (r: Result<
    u64,
    CurveLaunchpadError,
>)
    ensures
        lamports < amount_of_lamports ==> r == Err::<u64, CurveLaunchpadError>(
            CurveLaunchpadError::InsufficientSOL,
        ),
        lamports >= amount_of_lamports ==> r == Ok::<u64, CurveLaunchpadError>(
            (lamports - amount_of_lamports) as u64,
        ),
{
    if lamports < amount_of_lamports {
        return Err(CurveLaunchpadError::InsufficientSOL);
    }
    Ok(lamports - amount_of_lamports)
}

/// Puts `amount_of_lamports` of sol onto a balance. Refused with
/// `ArithmeticOverflow` where the balance cannot take the amount.
pub fn credit_lamports(lamports: u64, amount_of_lamports: u64) -> (r: Result<
    u64,
    CurveLaunchpadError,
>)
    ensures
        lamports + amount_of_lamports > u64::MAX ==> r == Err::<u64, CurveLaunchpadError>(
            CurveLaunchpadError::ArithmeticOverflow,
        ),
        lamports + amount_of_lamports <= u64::MAX ==> r == Ok::<u64, CurveLaunchpadError>(
            (lamports + amount_of_lamports) as u64,
        ),
{
    if lamports > u64::MAX - amount_of_lamports {
        return Err(CurveLaunchpadError::ArithmeticOverflow);
    }
    Ok(lamports + amount_of_lamports)
}

/// Moves `amount_of_lamports` of sol from one balance to another: the debit
/// first, then the credit.
///
/// Refused with `InsufficientSOL` where the first balance is smaller than the
/// amount, and with `ArithmeticOverflow` where the second cannot take it;
/// both balances are then left as they were.
pub fn transfer_lamports(from_lamports: &mut u64, to_lamports: &mut u64, amount_of_lamports: u64) -> (r:
    Result<(), CurveLaunchpadError>)
    ensures
        *old(from_lamports) < amount_of_lamports ==> r == Err::<(), CurveLaunchpadError>(
            CurveLaunchpadError::InsufficientSOL,
        ),
        *old(from_lamports) >= amount_of_lamports && *old(to_lamports) + amount_of_lamports
            > u64::MAX ==> r == Err::<(), CurveLaunchpadError>(
            CurveLaunchpadError::ArithmeticOverflow,
        ),
        *old(from_lamports) >= amount_of_lamports && *old(to_lamports) + amount_of_lamports
            <= u64::MAX ==> r is Ok,
        r is Ok ==> *final(from_lamports) == *old(from_lamports) - amount_of_lamports
            && *final(to_lamports) == *old(to_lamports) + amount_of_lamports,
        r is Err ==> *final(from_lamports) == *old(from_lamports) && *final(to_lamports)
            == *old(to_lamports),
{
    let debited = match debit_lamports(*from_lamports, amount_of_lamports) {
        Err(e) => {
            return Err(e);
        },
        Ok(debited) => debited,
    };
    let credited = match credit_lamports(*to_lamports, amount_of_lamports) {
        Err(e) => {
            return Err(e);
        },
        Ok(credited) => credited,
    };
    *from_lamports = debited;
    *to_lamports = credited;
    Ok(())
}

} // verus!
