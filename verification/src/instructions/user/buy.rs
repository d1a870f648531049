//! Buying tokens from a curve.

use vstd::prelude::*;
use crate::amm::AMM;
use crate::error::CurveLaunchpadError;
use crate::fee::{calculate_fee, fee_of};
use crate::identity::Identity;
use crate::instructions::events::{Settlement, TradeEvent};
use crate::state::{BondingCurve, Global};

verus! {

/// The accounts of a purchase, as the values that the purchase reads and
/// writes.
#[derive(Clone, Copy, Debug, PartialEq, Eq)]
pub struct Buy {
    /// The trader.
    pub user: Identity,
    pub global: Global,
    /// The account that the caller names for the fee.
    pub fee_recipient: Identity,
    /// The asset.
    pub mint: Identity,
    pub bonding_curve: BondingCurve,
    /// The sol that the trader holds.
    pub user_lamports: u64,
}

impl Buy {
    /// The sol that the purchase puts into the curve: the least amount that
    /// buys `token_amount` or more.
    pub open spec fn sol_amount(self, token_amount: u64) -> int {
        self.bonding_curve.reserves().sol_for_tokens(token_amount as int)
    }

    /// The fee on the purchase.
    pub open spec fn fee(self, token_amount: u64) -> int {
        fee_of(self.sol_amount(token_amount), self.global.fee_basis_points as int)
    }

    /// What the purchase costs the trader.
    pub open spec fn sol_cost(self, token_amount: u64) -> int {
        self.sol_amount(token_amount) + self.fee(token_amount)
    }

    /// The tokens that the purchase hands to the trader.
    pub open spec fn token_output(self, token_amount: u64) -> int {
        self.bonding_curve.reserves().buy_token_out(self.sol_amount(token_amount))
    }

    /// The first check before the trader's bound that the purchase fails, in
    /// the order in which they are made, or `None` where it passes them all.
    pub open spec fn pricing_rejection(self, token_amount: u64) -> Option<CurveLaunchpadError> {
        let curve = self.bonding_curve;
        if self.global.trading_rejection() is Some {
            self.global.trading_rejection()
        } else if curve.complete {
            Some(CurveLaunchpadError::BondingCurveComplete)
        } else if curve.reserves().buy_price_rejection(token_amount as int) is Some {
            curve.reserves().buy_price_rejection(token_amount as int)
        } else if self.fee(token_amount) > u64::MAX || self.sol_cost(token_amount) > u64::MAX {
            Some(CurveLaunchpadError::ArithmeticOverflow)
        } else if self.user_lamports < self.sol_cost(token_amount) {
            Some(CurveLaunchpadError::InsufficientSOL)
        } else if self.fee_recipient != self.global.fee_recipient {
            Some(CurveLaunchpadError::InvalidFeeRecipient)
        } else if curve.reserves().buy_rejection(self.sol_amount(token_amount)) is Some {
            curve.reserves().buy_rejection(self.sol_amount(token_amount))
        } else {
            None
        }
    }

    /// The first check that the purchase fails, or `None` where it passes
    /// them all: those before the bound, then the bound itself.
    pub open spec fn rejection(self, token_amount: u64, max_sol_cost: u64) -> Option<
        CurveLaunchpadError,
    > {
        if self.pricing_rejection(token_amount) is Some {
            self.pricing_rejection(token_amount)
        } else if self.sol_cost(token_amount) > max_sol_cost {
            Some(CurveLaunchpadError::SlippageExceeded)
        } else {
            None
        }
    }

    /// The curve that the purchase leaves.
    pub open spec fn curve_after(self, token_amount: u64) -> BondingCurve {
        let after = self.bonding_curve.reserves().after_buy(self.sol_amount(token_amount));
        BondingCurve {
            virtual_token_reserves: after.virtual_token as u64,
            virtual_sol_reserves: after.virtual_sol as u64,
            real_token_reserves: after.real_token as u64,
            real_sol_reserves: after.real_sol as u64,
            token_total_supply: self.bonding_curve.token_total_supply,
            complete: after.real_token == 0,
        }
    }

    /// The accounts after the purchase.
    pub open spec fn after(self, token_amount: u64) -> Buy {
        Buy {
            bonding_curve: self.curve_after(token_amount),
            user_lamports: (self.user_lamports - self.sol_cost(token_amount)) as u64,
            ..self
        }
    }

    /// The amounts that settle the purchase.
    pub open spec fn settlement(self, token_amount: u64) -> Settlement {
        Settlement {
            token_amount: self.token_output(token_amount) as u64,
            sol_amount: self.sol_amount(token_amount) as u64,
            fee: self.fee(token_amount) as u64,
            net_sol_amount: self.sol_cost(token_amount) as u64,
        }
    }

    /// The record of the purchase.
    pub open spec fn event(self, token_amount: u64, timestamp: i64) -> TradeEvent {
        let curve = self.curve_after(token_amount);
        TradeEvent {
            mint: self.mint,
            sol_amount: self.sol_amount(token_amount) as u64,
            token_amount: self.token_output(token_amount) as u64,
            is_buy: true,
            user: self.user,
            timestamp,
            virtual_sol_reserves: curve.virtual_sol_reserves,
            virtual_token_reserves: curve.virtual_token_reserves,
            real_sol_reserves: curve.real_sol_reserves,
            real_token_reserves: curve.real_token_reserves,
            complete: curve.complete,
        }
    }
}

/// Buys `token_amount` tokens or more from the curve for no more than
/// `max_sol_cost`.
///
/// The checks run in a fixed order and the first that fails decides the error:
/// the configuration is active; the curve is not complete; the engine prices
/// the amount, the fee is put on the price, and the trader holds the sum; the
/// fee recipient is the configured one; the engine makes the purchase; the
/// sum meets the trader's bound.
///
/// On success the curve carries the engine's new reserves, the trader's sol
/// is taken, and the amounts to transfer and the trade's record are returned.
/// On failure nothing is changed.
pub fn buy(ctx: &mut Buy, token_amount: u64, max_sol_cost: u64, timestamp: i64) -> (r: Result<
    (Settlement, TradeEvent),
    CurveLaunchpadError,
>)
    ensures
        match r {
            Ok((settlement, event)) => {
                &&& old(ctx).rejection(token_amount, max_sol_cost) is None
                &&& settlement == old(ctx).settlement(token_amount)
                &&& event == old(ctx).event(token_amount, timestamp)
                &&& *final(ctx) == old(ctx).after(token_amount)
                &&& final(ctx).bonding_curve.reserves() == old(
                    ctx,
                ).bonding_curve.reserves().after_buy(settlement.sol_amount as int)
                &&& settlement.token_amount >= token_amount
                &&& settlement.net_sol_amount == settlement.sol_amount + settlement.fee
                &&& settlement.net_sol_amount <= max_sol_cost
            },
            Err(e) => {
                &&& old(ctx).rejection(token_amount, max_sol_cost) == Some(e)
                &&& *final(ctx) == *old(ctx)
            },
        },
        old(ctx).bonding_curve.complete ==> r is Err,
        old(ctx).bonding_curve.complete && old(ctx).global.active() ==> r == Err::<
            (Settlement, TradeEvent),
            CurveLaunchpadError,
        >(CurveLaunchpadError::BondingCurveComplete),
        old(ctx).bonding_curve.complete ==> final(ctx).bonding_curve.complete,
        old(ctx).bonding_curve.wf() ==> final(ctx).bonding_curve.wf(),
{
    match ctx.global.require_active() {
        Err(e) => {
            return Err(e);
        },
        Ok(_) => {},
    }
    if ctx.bonding_curve.complete {
        return Err(CurveLaunchpadError::BondingCurveComplete);
    }
    let mut amm = AMM::new(
        ctx.bonding_curve.virtual_sol_reserves as u128,
        ctx.bonding_curve.virtual_token_reserves as u128,
        ctx.bonding_curve.real_sol_reserves as u128,
        ctx.bonding_curve.real_token_reserves as u128,
        ctx.global.initial_virtual_token_reserves as u128,
    );
    let sol_amount = match amm.get_buy_price(token_amount as u128) {
        Err(e) => {
            return Err(e);
        },
        Ok(sol_amount) => sol_amount,
    };
    let fee = match calculate_fee(sol_amount, ctx.global.fee_basis_points) {
        Err(e) => {
            return Err(e);
        },
        Ok(fee) => fee,
    };
    if fee > u64::MAX - sol_amount {
        return Err(CurveLaunchpadError::ArithmeticOverflow);
    }
    let sol_cost: u64 = sol_amount + fee;
    if ctx.user_lamports < sol_cost {
        return Err(CurveLaunchpadError::InsufficientSOL);
    }
    if !ctx.fee_recipient.same(&ctx.global.fee_recipient) {
        return Err(CurveLaunchpadError::InvalidFeeRecipient);
    }
    let quote = match amm.apply_buy(sol_amount as u128) {
        Err(e) => {
            return Err(e);
        },
        Ok(quote) => quote,
    };
    if sol_cost > max_sol_cost {
        return Err(CurveLaunchpadError::SlippageExceeded);
    }
    ctx.bonding_curve.virtual_token_reserves = quote.virtual_token_reserves;
    ctx.bonding_curve.virtual_sol_reserves = quote.virtual_sol_reserves;
    ctx.bonding_curve.real_token_reserves = quote.real_token_reserves;
    ctx.bonding_curve.real_sol_reserves = quote.real_sol_reserves;
    ctx.bonding_curve.complete = quote.complete;
    ctx.user_lamports = ctx.user_lamports - sol_cost;
    let settlement = Settlement {
        token_amount: quote.token_amount,
        sol_amount: quote.sol_amount,
        fee,
        net_sol_amount: sol_cost,
    };
    let event = TradeEvent {
        mint: ctx.mint,
        sol_amount: quote.sol_amount,
        token_amount: quote.token_amount,
        is_buy: true,
        user: ctx.user,
        timestamp,
        virtual_sol_reserves: quote.virtual_sol_reserves,
        virtual_token_reserves: quote.virtual_token_reserves,
        real_sol_reserves: quote.real_sol_reserves,
        real_token_reserves: quote.real_token_reserves,
        complete: quote.complete,
    };
    Ok((settlement, event))
}

} // verus!
