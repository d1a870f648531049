//! The constant-product curve as mathematics: four reserves over the
//! unbounded integers, and what a purchase or a sale does to them.
//!
//! The executable engine and the trade pipeline state their contracts over
//! this model.

use vstd::prelude::*;
use crate::arith::{lemma_floor_bounds, lemma_quotient_at_most_factor};
use crate::error::CurveLaunchpadError;

verus! {

/// One request against a curve.
pub enum Trade {
    /// A purchase that puts `sol_in` into the curve.
    Buy { sol_in: int },
    /// A sale that puts `token_in` into the curve.
    Sell { token_in: int },
}

/// The four reserves of a curve.
///
/// The virtual pair shapes the price; the real pair is what has been settled
/// against the curve.
pub struct Reserves {
    pub virtual_sol: int,
    pub virtual_token: int,
    pub real_sol: int,
    pub real_token: int,
}

impl Reserves {
    /// No reserve is below zero.
    pub open spec fn nonnegative(self) -> bool {
        &&& 0 <= self.virtual_sol
        &&& 0 <= self.virtual_token
        &&& 0 <= self.real_sol
        &&& 0 <= self.real_token
    }

    /// Every reserve can be held in 64 bits.
    pub open spec fn fits_u64(self) -> bool {
        &&& 0 <= self.virtual_sol <= u64::MAX
        &&& 0 <= self.virtual_token <= u64::MAX
        &&& 0 <= self.real_sol <= u64::MAX
        &&& 0 <= self.real_token <= u64::MAX
    }

    /// The constant-product invariant `k`.
    pub open spec fn product(self) -> int {
        self.virtual_sol * self.virtual_token
    }

    /// The virtual token reserve that a purchase for `sol_in` leaves: `k` over
    /// the new virtual sol reserve, rounded down.
    pub open spec fn buy_virtual_token(self, sol_in: int) -> int {
        self.product() / (self.virtual_sol + sol_in)
    }

    /// The tokens that a purchase for `sol_in` hands out.
    pub open spec fn buy_token_out(self, sol_in: int) -> int {
        self.virtual_token - self.buy_virtual_token(sol_in)
    }

    /// The reserves after a purchase for `sol_in`.
    pub open spec fn after_buy(self, sol_in: int) -> Reserves {
        Reserves {
            virtual_sol: self.virtual_sol + sol_in,
            virtual_token: self.buy_virtual_token(sol_in),
            real_sol: self.real_sol + sol_in,
            real_token: self.real_token - self.buy_token_out(sol_in),
        }
    }

    /// Why a purchase for `sol_in` is refused, or `None` where it goes through.
    ///
    /// A zero amount is no trade. Every reserve after the trade, and both
    /// amounts, must fit in 64 bits. The curve cannot hand out more tokens
    /// than it really holds.
    pub open spec fn buy_rejection(self, sol_in: int) -> Option<CurveLaunchpadError> {
        if sol_in <= 0 {
            Some(CurveLaunchpadError::MinTradeViolation)
        } else if sol_in > u64::MAX || self.buy_token_out(sol_in) > u64::MAX
            || self.after_buy(sol_in).virtual_sol > u64::MAX
            || self.after_buy(sol_in).virtual_token > u64::MAX
            || self.after_buy(sol_in).real_sol > u64::MAX
            || self.after_buy(sol_in).real_token > u64::MAX {
            Some(CurveLaunchpadError::ArithmeticOverflow)
        } else if self.buy_token_out(sol_in) > self.real_token {
            Some(CurveLaunchpadError::ArithmeticUnderflow)
        } else {
            None
        }
    }

    /// The virtual sol reserve that a sale of `token_in` leaves: `k` over the
    /// new virtual token reserve, rounded down.
    pub open spec fn sell_virtual_sol(self, token_in: int) -> int {
        self.product() / (self.virtual_token + token_in)
    }

    /// The sol that a sale of `token_in` pays out, before any fee.
    pub open spec fn sell_sol_out(self, token_in: int) -> int {
        self.virtual_sol - self.sell_virtual_sol(token_in)
    }

    /// The reserves after a sale of `token_in`.
    pub open spec fn after_sell(self, token_in: int) -> Reserves {
        Reserves {
            virtual_sol: self.sell_virtual_sol(token_in),
            virtual_token: self.virtual_token + token_in,
            real_sol: self.real_sol - self.sell_sol_out(token_in),
            real_token: self.real_token + token_in,
        }
    }

    /// Why a sale of `token_in` is refused, or `None` where it goes through.
    ///
    /// A zero amount is no trade. Every reserve after the trade, and both
    /// amounts, must fit in 64 bits. The curve cannot pay out more sol than it
    /// really holds.
    pub open spec fn sell_rejection(self, token_in: int) -> Option<CurveLaunchpadError> {
        if token_in <= 0 {
            Some(CurveLaunchpadError::MinTradeViolation)
        } else if token_in > u64::MAX || self.sell_sol_out(token_in) > u64::MAX
            || self.after_sell(token_in).virtual_sol > u64::MAX
            || self.after_sell(token_in).virtual_token > u64::MAX
            || self.after_sell(token_in).real_sol > u64::MAX
            || self.after_sell(token_in).real_token > u64::MAX {
            Some(CurveLaunchpadError::ArithmeticOverflow)
        } else if self.sell_sol_out(token_in) > self.real_sol {
            Some(CurveLaunchpadError::ArithmeticUnderflow)
        } else {
            None
        }
    }

    /// Why no proceeds are quoted for a sale of `tokens`, or `None` where
    /// they are. A zero amount is no trade. The product and the new token
    /// reserve must fit in 128 bits and the proceeds in 64.
    pub open spec fn sell_price_rejection(self, tokens: int) -> Option<CurveLaunchpadError> {
        if tokens <= 0 {
            Some(CurveLaunchpadError::MinTradeViolation)
        } else if self.product() > u128::MAX || self.virtual_token + tokens > u128::MAX
            || self.sell_sol_out(tokens) > u64::MAX {
            Some(CurveLaunchpadError::ArithmeticOverflow)
        } else {
            None
        }
    }

    /// The price of `tokens`: the sol reserve that holds the curve's product
    /// against one token more than the purchase leaves, plus one, less the sol
    /// reserve of now. [`Reserves::sol_for_tokens_is_least`] shows that this is
    /// the least amount whose purchase hands out `tokens` or more.
    pub open spec fn sol_for_tokens(self, tokens: int) -> int {
        self.product() / (self.virtual_token - tokens + 1) + 1 - self.virtual_sol
    }

    /// Why no price is quoted for `tokens`, or `None` where one is.
    ///
    /// A zero amount is no trade. The curve cannot price more tokens than its
    /// virtual reserve holds. The product must fit in 128 bits and the price
    /// in 64.
    pub open spec fn buy_price_rejection(self, tokens: int) -> Option<CurveLaunchpadError> {
        if tokens <= 0 {
            Some(CurveLaunchpadError::MinTradeViolation)
        } else if tokens > self.virtual_token {
            Some(CurveLaunchpadError::ArithmeticUnderflow)
        } else if self.product() > u128::MAX || self.sol_for_tokens(tokens) > u64::MAX {
            Some(CurveLaunchpadError::ArithmeticOverflow)
        } else {
            None
        }
    }

    /// The quoted price buys what was asked for, and nothing cheaper does.
    pub proof fn sol_for_tokens_is_least(self, tokens: int)
        requires
            self.nonnegative(),
            0 < tokens <= self.virtual_token,
        ensures
            self.sol_for_tokens(tokens) >= 1,
            self.buy_token_out(self.sol_for_tokens(tokens)) >= tokens,
            forall|sol_in: int|
                0 <= sol_in < self.sol_for_tokens(tokens) && 0 < self.virtual_sol + sol_in
                    ==> #[trigger] self.buy_token_out(sol_in) < tokens,
    {
        let k = self.product();
        let m = self.virtual_token - tokens + 1;
        let vs = self.virtual_sol;
        let vt = self.virtual_token;
        assert(0 <= k && vs * m <= k) by (nonlinear_arith)
            requires
                k == vs * vt,
                0 <= vs,
                0 < m <= vt,
        ;
        lemma_floor_bounds(k, m);
        let q = k / m;
        assert(vs <= q) by (nonlinear_arith)
            requires
                vs * m <= k,
                k < q * m + m,
                0 < m,
        ;
        let n = q + 1;
        lemma_floor_bounds(k, n);
        assert(k / n < m) by (nonlinear_arith)
            requires
                (k / n) * n <= k,
                k < q * m + m,
                n == q + 1,
                0 < n,
                0 < m,
        ;
        assert(self.virtual_sol + self.sol_for_tokens(tokens) == n);
        assert forall|sol_in: int|
            0 <= sol_in < self.sol_for_tokens(tokens) && 0 < self.virtual_sol
                + sol_in implies #[trigger] self.buy_token_out(sol_in) < tokens by {
            let d = vs + sol_in;
            lemma_floor_bounds(k, d);
            assert(k / d >= m) by (nonlinear_arith)
                requires
                    k < (k / d) * d + d,
                    q * m <= k,
                    0 < d <= q,
                    0 < m,
            ;
        }
    }

    /// A purchase keeps the product, up to the rounding of one division: the
    /// new product is at most the old one and misses it by less than the new
    /// sol reserve. It hands out no more tokens than the virtual reserve
    /// holds, and where it is not refused, no reserve goes below zero.
    pub proof fn buy_keeps_product(self, sol_in: int)
        requires
            self.nonnegative(),
            0 < sol_in,
        ensures
            self.after_buy(sol_in).product() <= self.product(),
            self.product() < self.after_buy(sol_in).product() + self.after_buy(sol_in).virtual_sol,
            0 <= self.buy_token_out(sol_in) <= self.virtual_token,
            self.buy_rejection(sol_in) is None ==> self.after_buy(sol_in).fits_u64(),
    {
        let k = self.product();
        let n = self.virtual_sol + sol_in;
        assert(0 <= k) by (nonlinear_arith)
            requires
                k == self.virtual_sol * self.virtual_token,
                0 <= self.virtual_sol,
                0 <= self.virtual_token,
        ;
        lemma_floor_bounds(k, n);
        lemma_quotient_at_most_factor(self.virtual_sol, self.virtual_token, sol_in);
        vstd::arithmetic::mul::lemma_mul_is_commutative(n, k / n);
    }

    /// A sale keeps the product, up to the rounding of one division: the new
    /// product is at most the old one and misses it by less than the new
    /// token reserve. It pays out no more sol than the virtual reserve holds,
    /// and where it is not refused, no reserve goes below zero.
    pub proof fn sell_keeps_product(self, token_in: int)
        requires
            self.nonnegative(),
            0 < token_in,
        ensures
            self.after_sell(token_in).product() <= self.product(),
            self.product() < self.after_sell(token_in).product() + self.after_sell(
                token_in,
            ).virtual_token,
            0 <= self.sell_sol_out(token_in) <= self.virtual_sol,
            self.sell_rejection(token_in) is None ==> self.after_sell(token_in).fits_u64(),
    {
        let k = self.product();
        let n = self.virtual_token + token_in;
        assert(0 <= k) by (nonlinear_arith)
            requires
                k == self.virtual_sol * self.virtual_token,
                0 <= self.virtual_sol,
                0 <= self.virtual_token,
        ;
        lemma_floor_bounds(k, n);
        vstd::arithmetic::mul::lemma_mul_is_commutative(self.virtual_sol, self.virtual_token);
        lemma_quotient_at_most_factor(self.virtual_token, self.virtual_sol, token_in);
    }

    /// Why `trade` is refused, or `None` where it goes through.
    pub open spec fn rejection(self, trade: Trade) -> Option<CurveLaunchpadError> {
        match trade {
            Trade::Buy { sol_in } => self.buy_rejection(sol_in),
            Trade::Sell { token_in } => self.sell_rejection(token_in),
        }
    }

    /// The reserves after `trade`. A trade that is refused changes nothing.
    pub open spec fn step(self, trade: Trade) -> Reserves {
        if self.rejection(trade) is Some {
            self
        } else {
            match trade {
                Trade::Buy { sol_in } => self.after_buy(sol_in),
                Trade::Sell { token_in } => self.after_sell(token_in),
            }
        }
    }

    /// The reserves after `trades`, taken one after the other.
    pub open spec fn run(self, trades: Seq<Trade>) -> Reserves
        decreases trades.len(),
    {
        if trades.len() == 0 {
            self
        } else {
            self.run(trades.drop_last()).step(trades.last())
        }
    }

    /// More sol never buys fewer tokens.
    pub proof fn buy_token_out_is_monotonic(self, less: int, more: int)
        requires
            self.nonnegative(),
            0 < less <= more,
        ensures
            self.buy_token_out(less) <= self.buy_token_out(more),
    {
        let k = self.product();
        assert(0 <= k) by (nonlinear_arith)
            requires
                k == self.virtual_sol * self.virtual_token,
                0 <= self.virtual_sol,
                0 <= self.virtual_token,
        ;
        vstd::arithmetic::div_mod::lemma_div_is_ordered_by_denominator(
            k,
            self.virtual_sol + less,
            self.virtual_sol + more,
        );
    }

    /// More tokens never sell for less sol.
    pub proof fn sell_sol_out_is_monotonic(self, less: int, more: int)
        requires
            self.nonnegative(),
            0 < less <= more,
        ensures
            self.sell_sol_out(less) <= self.sell_sol_out(more),
    {
        let k = self.product();
        assert(0 <= k) by (nonlinear_arith)
            requires
                k == self.virtual_sol * self.virtual_token,
                0 <= self.virtual_sol,
                0 <= self.virtual_token,
        ;
        vstd::arithmetic::div_mod::lemma_div_is_ordered_by_denominator(
            k,
            self.virtual_token + less,
            self.virtual_token + more,
        );
    }

    /// Asking for more tokens never lowers the price.
    pub proof fn sol_for_tokens_is_monotonic(self, fewer: int, more: int)
        requires
            self.nonnegative(),
            0 < fewer <= more <= self.virtual_token,
        ensures
            self.sol_for_tokens(fewer) <= self.sol_for_tokens(more),
    {
        let k = self.product();
        assert(0 <= k) by (nonlinear_arith)
            requires
                k == self.virtual_sol * self.virtual_token,
                0 <= self.virtual_sol,
                0 <= self.virtual_token,
        ;
        vstd::arithmetic::div_mod::lemma_div_is_ordered_by_denominator(
            k,
            self.virtual_token - more + 1,
            self.virtual_token - fewer + 1,
        );
    }
}

} // verus!
