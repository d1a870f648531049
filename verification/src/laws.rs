//! What holds of the curve over whole histories of trades, of a purchase
//! followed by its reversal, of the trader's bound, and of a curve once it is
//! complete.

use vstd::prelude::*;
use crate::arith::{lemma_floor_bounds, lemma_floor_unique};
use crate::error::CurveLaunchpadError;
use crate::fee::fee_of;
use crate::instructions::user::buy::Buy;
use crate::instructions::user::sell::Sell;
use crate::reserves::{Reserves, Trade};
use crate::state::BondingCurve;

verus! {

/// One trade, accepted or refused, leaves no reserve below zero and does not
/// raise the product. An accepted trade keeps the product up to the rounding
/// of its one division: the old product is less than the new one plus the
/// reserve that was divided by.
pub proof fn step_keeps_invariants(reserves: Reserves, trade: Trade)
    requires
        reserves.nonnegative(),
    ensures
        reserves.step(trade).nonnegative(),
        reserves.step(trade).product() <= reserves.product(),
        reserves.fits_u64() ==> reserves.step(trade).fits_u64(),
        reserves.rejection(trade) is None ==> reserves.step(trade).fits_u64(),
        reserves.rejection(trade) is None ==> match trade {
            Trade::Buy { sol_in } => reserves.product() < reserves.step(trade).product()
                + reserves.step(trade).virtual_sol,
            Trade::Sell { token_in } => reserves.product() < reserves.step(trade).product()
                + reserves.step(trade).virtual_token,
        },
{
    if reserves.rejection(trade) is None {
        match trade {
            Trade::Buy { sol_in } => {
                reserves.buy_keeps_product(sol_in);
            },
            Trade::Sell { token_in } => {
                reserves.sell_keeps_product(token_in);
            },
        }
    }
}

/// Whatever trades are asked for, in whatever order, no reserve ever goes
/// below zero and the product never rises; reserves that fit in 64 bits keep
/// fitting.
pub proof fn run_keeps_invariants(reserves: Reserves, trades: Seq<Trade>)
    requires
        reserves.nonnegative(),
    ensures
        reserves.run(trades).nonnegative(),
        reserves.run(trades).product() <= reserves.product(),
        reserves.fits_u64() ==> reserves.run(trades).fits_u64(),
    decreases trades.len(),
{
    if trades.len() > 0 {
        run_keeps_invariants(reserves, trades.drop_last());
        step_keeps_invariants(reserves.run(trades.drop_last()), trades.last());
    }
}

/// Every single trade of a history obeys the rounding rule: the reserves
/// after the first `i + 1` trades are one step from those after the first
/// `i`, with the product kept as `step_keeps_invariants` says.
pub proof fn run_steps(reserves: Reserves, trades: Seq<Trade>, i: int)
    requires
        reserves.nonnegative(),
        0 <= i < trades.len(),
    ensures
        reserves.run(trades.take(i)).nonnegative(),
        reserves.run(trades.take(i + 1)) == reserves.run(trades.take(i)).step(trades[i]),
        reserves.run(trades.take(i + 1)).product() <= reserves.run(trades.take(i)).product(),
        reserves.run(trades.take(i)).rejection(trades[i]) is None ==> match trades[i] {
            Trade::Buy { sol_in } => reserves.run(trades.take(i)).product() < reserves.run(
                trades.take(i + 1),
            ).product() + reserves.run(trades.take(i + 1)).virtual_sol,
            Trade::Sell { token_in } => reserves.run(trades.take(i)).product() < reserves.run(
                trades.take(i + 1),
            ).product() + reserves.run(trades.take(i + 1)).virtual_token,
        },
{
    let prefix = trades.take(i + 1);
    assert(prefix.drop_last() =~= trades.take(i));
    assert(prefix.last() == trades[i]);
    run_keeps_invariants(reserves, trades.take(i));
    step_keeps_invariants(reserves.run(trades.take(i)), trades[i]);
}

/// What selling back the tokens of a purchase for `sol_in` pays beyond
/// `sol_in`: the remainder that the purchase's division left, over the
/// virtual token reserve, rounded up.
pub open spec fn round_trip_excess(reserves: Reserves, sol_in: int) -> int {
    let remainder = reserves.product() % (reserves.virtual_sol + sol_in);
    (remainder + reserves.virtual_token - 1) / reserves.virtual_token
}

/// Selling back exactly the tokens of a purchase for `sol_in` pays, before
/// fees, `sol_in` and the excess: both divisions round in the trader's favour.
/// The excess is zero where the purchase divided without remainder, and is
/// never more than the new sol reserve over the token reserve, rounded up.
pub proof fn round_trip_returns(reserves: Reserves, sol_in: int)
    requires
        reserves.nonnegative(),
        0 < sol_in,
        0 < reserves.virtual_token,
    ensures
        reserves.after_buy(sol_in).sell_sol_out(reserves.buy_token_out(sol_in)) == sol_in
            + round_trip_excess(reserves, sol_in),
        0 <= round_trip_excess(reserves, sol_in),
        reserves.product() % (reserves.virtual_sol + sol_in) == 0 ==> round_trip_excess(
            reserves,
            sol_in,
        ) == 0,
        round_trip_excess(reserves, sol_in) * reserves.virtual_token < reserves.virtual_sol
            + sol_in + reserves.virtual_token,
{
    let vs = reserves.virtual_sol;
    let vt = reserves.virtual_token;
    let k = reserves.product();
    let n = vs + sol_in;
    assert(0 <= k) by (nonlinear_arith)
        requires
            k == vs * vt,
            0 <= vs,
            0 <= vt,
    ;
    lemma_floor_bounds(k, n);
    let q = k / n;
    let r = k % n;
    // The purchase leaves the product short by the remainder of its division.
    let after = reserves.after_buy(sol_in);
    assert(after.product() == k - r) by {
        assert(after.product() == n * q);
    }
    // The sale divides what is left by the token reserve of before the purchase.
    lemma_floor_bounds(r + vt - 1, vt);
    let c = (r + vt - 1) / vt;
    assert((vs - c) * vt <= k - r && k - r < (vs - c) * vt + vt) by (nonlinear_arith)
        requires
            k == vs * vt,
            c * vt <= r + vt - 1,
            r + vt - 1 < c * vt + vt,
            0 < vt,
    ;
    lemma_floor_unique(k - r, vt, vs - c);
    if r == 0 {
        assert(c == 0) by (nonlinear_arith)
            requires
                c * vt <= vt - 1,
                0 <= c,
                0 < vt,
        ;
    }
    assert(c * vt < n + vt) by {
        assert(r < n);
    }
}

/// A purchase followed at once by the sale of exactly the tokens received
/// gives the trader no more sol than the purchase cost, fees counted, where
/// the fees of the two trades cover the excess that the rounding pays. With
/// no other trade between the two, nothing else decides.
pub proof fn round_trip_bound(reserves: Reserves, sol_in: int, fee_basis_points: int)
    requires
        reserves.nonnegative(),
        0 < sol_in,
        0 < reserves.virtual_token,
        round_trip_excess(reserves, sol_in) <= fee_of(sol_in, fee_basis_points) + fee_of(
            sol_in + round_trip_excess(reserves, sol_in),
            fee_basis_points,
        ),
    ensures
        reserves.after_buy(sol_in).sell_sol_out(reserves.buy_token_out(sol_in)) - fee_of(
            reserves.after_buy(sol_in).sell_sol_out(reserves.buy_token_out(sol_in)),
            fee_basis_points,
        ) <= sol_in + fee_of(sol_in, fee_basis_points),
{
    round_trip_returns(reserves, sol_in);
}

/// Where the fees of the two trades do not cover the excess, the round trip
/// gives the trader more sol than the purchase cost: the bound of
/// `round_trip_bound` is the only one.
pub proof fn round_trip_gain(reserves: Reserves, sol_in: int, fee_basis_points: int)
    requires
        reserves.nonnegative(),
        0 < sol_in,
        0 < reserves.virtual_token,
        round_trip_excess(reserves, sol_in) > fee_of(sol_in, fee_basis_points) + fee_of(
            sol_in + round_trip_excess(reserves, sol_in),
            fee_basis_points,
        ),
    ensures
        reserves.after_buy(sol_in).sell_sol_out(reserves.buy_token_out(sol_in)) - fee_of(
            reserves.after_buy(sol_in).sell_sol_out(reserves.buy_token_out(sol_in)),
            fee_basis_points,
        ) > sol_in + fee_of(sol_in, fee_basis_points),
{
    round_trip_returns(reserves, sol_in);
}

/// A sale that passes every check before the trader's bound is decided by
/// the bound: asked for more than the net output it is refused for slippage,
/// asked for the net output or less it goes through, as long as the curve's
/// account holds the sol.
pub proof fn sell_bound_decides(ctx: Sell, token_amount: u64, min_sol_output: u64)
    requires
        ctx.pricing_rejection(token_amount) is None,
    ensures
        min_sol_output > ctx.net_sol_output(token_amount) ==> ctx.rejection(
            token_amount,
            min_sol_output,
        ) == Some(CurveLaunchpadError::SlippageExceeded),
        min_sol_output <= ctx.net_sol_output(token_amount) && ctx.bonding_curve_lamports
            >= ctx.sol_amount(token_amount) ==> ctx.rejection(token_amount, min_sol_output)
            is None,
        ctx.settlement(token_amount).net_sol_amount == ctx.net_sol_output(token_amount),
{
    ctx.bonding_curve.reserves().sell_keeps_product(token_amount as int);
}

/// A purchase that passes every check before the trader's bound is decided
/// by the bound: where the cost is above it the purchase is refused for
/// slippage, and where it is not the purchase goes through.
pub proof fn buy_bound_decides(ctx: Buy, token_amount: u64, max_sol_cost: u64)
    requires
        ctx.pricing_rejection(token_amount) is None,
    ensures
        max_sol_cost < ctx.sol_cost(token_amount) ==> ctx.rejection(token_amount, max_sol_cost)
            == Some(CurveLaunchpadError::SlippageExceeded),
        max_sol_cost >= ctx.sol_cost(token_amount) ==> ctx.rejection(token_amount, max_sol_cost)
            is None,
        ctx.settlement(token_amount).net_sol_amount == ctx.sol_cost(token_amount),
{
}

/// A complete curve takes no trade: every purchase and every sale against it
/// is refused, with `BondingCurveComplete` where the configuration is
/// active, and with the configuration's own error where it is not.
pub proof fn complete_curve_refuses(buy: Buy, sell: Sell, token_amount: u64, bound: u64)
    requires
        buy.bonding_curve.complete,
        sell.bonding_curve.complete,
    ensures
        buy.rejection(token_amount, bound) is Some,
        sell.rejection(token_amount, bound) is Some,
        buy.global.active() ==> buy.rejection(token_amount, bound) == Some(
            CurveLaunchpadError::BondingCurveComplete,
        ),
        sell.global.active() ==> sell.rejection(token_amount, bound) == Some(
            CurveLaunchpadError::BondingCurveComplete,
        ),
        !buy.global.active() ==> buy.rejection(token_amount, bound)
            == buy.global.trading_rejection(),
        !sell.global.active() ==> sell.rejection(token_amount, bound)
            == sell.global.trading_rejection(),
{
}

/// A purchase and then the sale of exactly the tokens received, at one fee
/// rate and with no trade between them, delivers no more sol than the
/// purchase cost, where the two fees cover the excess that the rounding pays.
pub proof fn buy_then_sell_bound(
    buy: Buy,
    token_amount: u64,
    max_sol_cost: u64,
    sell: Sell,
    min_sol_output: u64,
)
    requires
        buy.rejection(token_amount, max_sol_cost) is None,
        sell.global.fee_basis_points == buy.global.fee_basis_points,
        sell.bonding_curve == buy.curve_after(token_amount),
        sell.rejection(buy.settlement(token_amount).token_amount, min_sol_output) is None,
        round_trip_excess(buy.bonding_curve.reserves(), buy.sol_amount(token_amount))
            <= buy.settlement(token_amount).fee + sell.settlement(
            buy.settlement(token_amount).token_amount,
        ).fee,
    ensures
        sell.settlement(buy.settlement(token_amount).token_amount).net_sol_amount
            <= buy.settlement(token_amount).net_sol_amount,
        sell.settlement(buy.settlement(token_amount).token_amount).sol_amount == buy.settlement(
            token_amount,
        ).sol_amount + round_trip_excess(
            buy.bonding_curve.reserves(),
            buy.sol_amount(token_amount),
        ),
{
    let before = buy.bonding_curve.reserves();
    let sol_in = buy.sol_amount(token_amount);
    before.sol_for_tokens_is_least(token_amount as int);
    before.buy_keeps_product(sol_in);
    round_trip_returns(before, sol_in);
    let tokens = before.buy_token_out(sol_in);
    before.after_buy(sol_in).sell_keeps_product(tokens);
}

/// One attempt to trade against a curve: the accounts that the caller brings
/// and the amounts asked for. The curve among the accounts is a stand-in; an
/// attempt is made against the curve as it is when the attempt's turn comes.
pub enum Attempt {
    Buy { ctx: Buy, token_amount: u64, max_sol_cost: u64 },
    Sell { ctx: Sell, token_amount: u64, min_sol_output: u64 },
}

/// The curve after one attempt against it. A refused attempt changes nothing.
pub open spec fn curve_after_attempt(curve: BondingCurve, attempt: Attempt) -> BondingCurve {
    match attempt {
        Attempt::Buy { ctx, token_amount, max_sol_cost } => {
            let ctx = Buy { bonding_curve: curve, ..ctx };
            if ctx.rejection(token_amount, max_sol_cost) is None {
                ctx.curve_after(token_amount)
            } else {
                curve
            }
        },
        Attempt::Sell { ctx, token_amount, min_sol_output } => {
            let ctx = Sell { bonding_curve: curve, ..ctx };
            if ctx.rejection(token_amount, min_sol_output) is None {
                ctx.curve_after(token_amount)
            } else {
                curve
            }
        },
    }
}

/// The curve after a history of attempts, each made against what the ones
/// before it left.
pub open spec fn curve_after_attempts(curve: BondingCurve, attempts: Seq<Attempt>) -> BondingCurve
    decreases attempts.len(),
{
    if attempts.len() == 0 {
        curve
    } else {
        curve_after_attempt(curve_after_attempts(curve, attempts.drop_last()), attempts.last())
    }
}

/// One attempt keeps the supply, keeps the real tokens within it, and does
/// not raise the product; against a complete curve it changes nothing.
pub proof fn attempt_keeps_curve(curve: BondingCurve, attempt: Attempt)
    ensures
        curve_after_attempt(curve, attempt).token_total_supply == curve.token_total_supply,
        curve.wf() ==> curve_after_attempt(curve, attempt).wf(),
        curve.complete ==> curve_after_attempt(curve, attempt) == curve,
        curve_after_attempt(curve, attempt).reserves().product() <= curve.reserves().product(),
{
    match attempt {
        Attempt::Buy { ctx, token_amount, max_sol_cost } => {
            let ctx = Buy { bonding_curve: curve, ..ctx };
            if ctx.rejection(token_amount, max_sol_cost) is None {
                let sol_in = ctx.sol_amount(token_amount);
                curve.reserves().sol_for_tokens_is_least(token_amount as int);
                curve.reserves().buy_keeps_product(sol_in);
            }
        },
        Attempt::Sell { ctx, token_amount, min_sol_output } => {
            let ctx = Sell { bonding_curve: curve, ..ctx };
            if ctx.rejection(token_amount, min_sol_output) is None {
                curve.reserves().sell_keeps_product(token_amount as int);
            }
        },
    }
}

/// Over any history of purchases and sales, by whomever and for whatever
/// amounts: the supply stays, the real tokens stay within it, the product
/// never rises, and a curve that was complete at the start is at the end
/// exactly what it was.
pub proof fn attempts_keep_curve(curve: BondingCurve, attempts: Seq<Attempt>)
    ensures
        curve_after_attempts(curve, attempts).token_total_supply == curve.token_total_supply,
        curve.wf() ==> curve_after_attempts(curve, attempts).wf(),
        curve.complete ==> curve_after_attempts(curve, attempts) == curve,
        curve_after_attempts(curve, attempts).reserves().product() <= curve.reserves().product(),
    decreases attempts.len(),
{
    if attempts.len() > 0 {
        attempts_keep_curve(curve, attempts.drop_last());
        attempt_keeps_curve(curve_after_attempts(curve, attempts.drop_last()), attempts.last());
    }
}

/// Completion is for good: once some attempt of a history has left the curve
/// complete, everything after it leaves the curve as that attempt left it.
pub proof fn complete_is_final(curve: BondingCurve, attempts: Seq<Attempt>, i: int)
    requires
        0 <= i <= attempts.len(),
        curve_after_attempts(curve, attempts.take(i)).complete,
    ensures
        curve_after_attempts(curve, attempts) == curve_after_attempts(curve, attempts.take(i)),
    decreases attempts.len() - i,
{
    if i < attempts.len() {
        let next = attempts.take(i + 1);
        assert(next.drop_last() =~= attempts.take(i));
        assert(next.last() == attempts[i]);
        attempt_keeps_curve(curve_after_attempts(curve, attempts.take(i)), attempts[i]);
        complete_is_final(curve, attempts, i + 1);
    } else {
        assert(attempts.take(i) =~= attempts);
    }
}

} // verus!
