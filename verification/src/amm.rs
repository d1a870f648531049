//! The pricing engine: constant-product arithmetic on a private copy of a
//! curve's reserves.
//!
//! The engine works in 128 bits, wide enough for the product of two 64-bit
//! reserves, and hands its results back in 64 bits. It knows nothing of fees,
//! recipients or transfers.

use vstd::prelude::*;
use crate::arith::{lemma_quotient_at_most_factor, lemma_wide_quotient};
use crate::error::CurveLaunchpadError;
use crate::reserves::{Reserves, Trade};

verus! {

/// What one trade moves and what it leaves behind, in the 64-bit form that a
/// curve record stores.
#[derive(Clone, Copy, Debug, PartialEq, Eq, Structural)]
pub struct TradeQuote {
    /// The sol that enters (purchase) or leaves (sale) the curve, before fees.
    pub sol_amount: u64,
    /// The tokens that leave (purchase) or enter (sale) the curve.
    pub token_amount: u64,
    pub virtual_sol_reserves: u64,
    pub virtual_token_reserves: u64,
    pub real_sol_reserves: u64,
    pub real_token_reserves: u64,
    /// Whether the trade exhausted the real reserve that it draws on.
    pub complete: bool,
}

impl TradeQuote {
    /// The reserves that the trade leaves.
    pub open spec fn reserves(self) -> Reserves {
        Reserves {
            virtual_sol: self.virtual_sol_reserves as int,
            virtual_token: self.virtual_token_reserves as int,
            real_sol: self.real_sol_reserves as int,
            real_token: self.real_token_reserves as int,
        }
    }
}

/// The engine's working copy of a curve's reserves.
#[derive(Clone, Copy, Debug, PartialEq, Eq, Structural)]
pub struct AMM {
    pub virtual_sol_reserves: u128,
    pub virtual_token_reserves: u128,
    pub real_sol_reserves: u128,
    pub real_token_reserves: u128,
    /// The virtual token reserve that curves are created with. The engine
    /// carries it unchanged through every trade; no formula of the curve
    /// reads it.
    pub initial_virtual_token_reserves: u128,
}

impl View for AMM {
    type V = Reserves;

    open spec fn view(&self) -> Reserves {
        Reserves {
            virtual_sol: self.virtual_sol_reserves as int,
            virtual_token: self.virtual_token_reserves as int,
            real_sol: self.real_sol_reserves as int,
            real_token: self.real_token_reserves as int,
        }
    }
}

impl AMM {
    /// An engine over the given reserves.
    pub fn new(
        virtual_sol_reserves: u128,
        virtual_token_reserves: u128,
        real_sol_reserves: u128,
        real_token_reserves: u128,
        initial_virtual_token_reserves: u128,
    ) -> (amm: AMM)
        ensures
            amm.virtual_sol_reserves == virtual_sol_reserves,
            amm.virtual_token_reserves == virtual_token_reserves,
            amm.real_sol_reserves == real_sol_reserves,
            amm.real_token_reserves == real_token_reserves,
            amm.initial_virtual_token_reserves == initial_virtual_token_reserves,
    {
        AMM {
            virtual_sol_reserves,
            virtual_token_reserves,
            real_sol_reserves,
            real_token_reserves,
            initial_virtual_token_reserves,
        }
    }

    /// Buys tokens for `sol_in`.
    ///
    /// The virtual sol reserve grows by `sol_in`, the virtual token reserve
    /// becomes the product of the old pair over the new sol reserve, rounded
    /// down, and the difference is handed out of the real token reserve. The
    /// trade is refused, and the engine left as it was, exactly where
    /// [`Reserves::buy_rejection`] names an error. The quote is complete when
    /// no real tokens are left.
    pub fn apply_buy(&mut self, sol_in: u128) -> (r: Result<TradeQuote, CurveLaunchpadError>)
        ensures
            match r {
                Ok(quote) => {
                    &&& old(self)@.buy_rejection(sol_in as int) is None
                    &&& final(self)@ == old(self)@.after_buy(sol_in as int)
                    &&& final(self).initial_virtual_token_reserves == old(
                        self,
                    ).initial_virtual_token_reserves
                    &&& quote.reserves() == final(self)@
                    &&& quote.sol_amount == sol_in
                    &&& quote.token_amount == old(self)@.buy_token_out(sol_in as int)
                    &&& quote.complete == (final(self).real_token_reserves == 0)
                },
                Err(e) => {
                    &&& old(self)@.buy_rejection(sol_in as int) == Some(e)
                    &&& *final(self) == *old(self)
                },
            },
            final(self)@ == old(self)@.step(Trade::Buy { sol_in: sol_in as int }),
            final(self)@.product() <= old(self)@.product(),
            r is Ok ==> old(self)@.product() < final(self)@.product() + final(self)@.virtual_sol,
    {
        proof {
            if sol_in > 0 {
                self@.buy_keeps_product(sol_in as int);
            }
        }
        let max: u128 = 0xffff_ffff_ffff_ffff;
        if sol_in == 0 {
            return Err(CurveLaunchpadError::MinTradeViolation);
        }
        if sol_in > max || self.virtual_sol_reserves > max - sol_in || self.real_sol_reserves > max
            - sol_in {
            return Err(CurveLaunchpadError::ArithmeticOverflow);
        }
        let new_virtual_sol: u128 = self.virtual_sol_reserves + sol_in;
        let new_real_sol: u128 = self.real_sol_reserves + sol_in;
        let k: u128 = match self.virtual_sol_reserves.checked_mul(self.virtual_token_reserves) {
            Some(k) => k,
            None => {
                proof {
                    lemma_wide_quotient(self@.product(), new_virtual_sol as int);
                }
                return Err(CurveLaunchpadError::ArithmeticOverflow);
            },
        };
        let new_virtual_token: u128 = k / new_virtual_sol;
        proof {
            lemma_quotient_at_most_factor(
                self.virtual_sol_reserves as int,
                self.virtual_token_reserves as int,
                sol_in as int,
            );
        }
        let token_out: u128 = self.virtual_token_reserves - new_virtual_token;
        if new_virtual_token > max || token_out > max {
            return Err(CurveLaunchpadError::ArithmeticOverflow);
        }
        if token_out > self.real_token_reserves {
            return Err(CurveLaunchpadError::ArithmeticUnderflow);
        }
        let new_real_token: u128 = self.real_token_reserves - token_out;
        if new_real_token > max {
            return Err(CurveLaunchpadError::ArithmeticOverflow);
        }
        self.virtual_sol_reserves = new_virtual_sol;
        self.virtual_token_reserves = new_virtual_token;
        self.real_sol_reserves = new_real_sol;
        self.real_token_reserves = new_real_token;
        Ok(
            TradeQuote {
                sol_amount: sol_in as u64,
                token_amount: token_out as u64,
                virtual_sol_reserves: new_virtual_sol as u64,
                virtual_token_reserves: new_virtual_token as u64,
                real_sol_reserves: new_real_sol as u64,
                real_token_reserves: new_real_token as u64,
                complete: new_real_token == 0,
            },
        )
    }

    /// Sells `token_in` tokens.
    ///
    /// The virtual token reserve grows by `token_in`, the virtual sol reserve
    /// becomes the product of the old pair over the new token reserve, rounded
    /// down, and the difference is paid out of the real sol reserve. The trade
    /// is refused, and the engine left as it was, exactly where
    /// [`Reserves::sell_rejection`] names an error. The quote is complete when
    /// no real sol is left.
    pub fn apply_sell(&mut self, token_in: u128) -> (r: Result<TradeQuote, CurveLaunchpadError>)
        ensures
            match r {
                Ok(quote) => {
                    &&& old(self)@.sell_rejection(token_in as int) is None
                    &&& final(self)@ == old(self)@.after_sell(token_in as int)
                    &&& final(self).initial_virtual_token_reserves == old(
                        self,
                    ).initial_virtual_token_reserves
                    &&& quote.reserves() == final(self)@
                    &&& quote.token_amount == token_in
                    &&& quote.sol_amount == old(self)@.sell_sol_out(token_in as int)
                    &&& quote.complete == (final(self).real_sol_reserves == 0)
                },
                Err(e) => {
                    &&& old(self)@.sell_rejection(token_in as int) == Some(e)
                    &&& *final(self) == *old(self)
                },
            },
            final(self)@ == old(self)@.step(Trade::Sell { token_in: token_in as int }),
            final(self)@.product() <= old(self)@.product(),
            r is Ok ==> old(self)@.product() < final(self)@.product() + final(self)@.virtual_token,
    {
        proof {
            if token_in > 0 {
                self@.sell_keeps_product(token_in as int);
            }
        }
        let max: u128 = 0xffff_ffff_ffff_ffff;
        if token_in == 0 {
            return Err(CurveLaunchpadError::MinTradeViolation);
        }
        if token_in > max || self.virtual_token_reserves > max - token_in
            || self.real_token_reserves > max - token_in {
            return Err(CurveLaunchpadError::ArithmeticOverflow);
        }
        let new_virtual_token: u128 = self.virtual_token_reserves + token_in;
        let new_real_token: u128 = self.real_token_reserves + token_in;
        let k: u128 = match self.virtual_sol_reserves.checked_mul(self.virtual_token_reserves) {
            Some(k) => k,
            None => {
                proof {
                    lemma_wide_quotient(self@.product(), new_virtual_token as int);
                }
                return Err(CurveLaunchpadError::ArithmeticOverflow);
            },
        };
        let new_virtual_sol: u128 = k / new_virtual_token;
        proof {
            vstd::arithmetic::mul::lemma_mul_is_commutative(
                self.virtual_sol_reserves as int,
                self.virtual_token_reserves as int,
            );
            lemma_quotient_at_most_factor(
                self.virtual_token_reserves as int,
                self.virtual_sol_reserves as int,
                token_in as int,
            );
        }
        let sol_out: u128 = self.virtual_sol_reserves - new_virtual_sol;
        if new_virtual_sol > max || sol_out > max {
            return Err(CurveLaunchpadError::ArithmeticOverflow);
        }
        if sol_out > self.real_sol_reserves {
            return Err(CurveLaunchpadError::ArithmeticUnderflow);
        }
        let new_real_sol: u128 = self.real_sol_reserves - sol_out;
        if new_real_sol > max {
            return Err(CurveLaunchpadError::ArithmeticOverflow);
        }
        self.virtual_sol_reserves = new_virtual_sol;
        self.virtual_token_reserves = new_virtual_token;
        self.real_sol_reserves = new_real_sol;
        self.real_token_reserves = new_real_token;
        Ok(
            TradeQuote {
                sol_amount: sol_out as u64,
                token_amount: token_in as u64,
                virtual_sol_reserves: new_virtual_sol as u64,
                virtual_token_reserves: new_virtual_token as u64,
                real_sol_reserves: new_real_sol as u64,
                real_token_reserves: new_real_token as u64,
                complete: new_real_sol == 0,
            },
        )
    }

    /// The least sol amount whose purchase hands out `tokens` or more.
    ///
    /// The price is [`Reserves::sol_for_tokens`]; it is refused exactly where
    /// [`Reserves::buy_price_rejection`] names an error. The engine is not
    /// changed.
    pub fn get_buy_price(&self, tokens: u128) -> (r: Result<u64, CurveLaunchpadError>)
        ensures
            match r {
                Ok(price) => {
                    &&& self@.buy_price_rejection(tokens as int) is None
                    &&& price == self@.sol_for_tokens(tokens as int)
                    &&& price >= 1
                    &&& self@.buy_token_out(price as int) >= tokens
                    &&& forall|sol_in: int|
                        1 <= sol_in < price ==> #[trigger] self@.buy_token_out(sol_in) < tokens
                },
                Err(e) => self@.buy_price_rejection(tokens as int) == Some(e),
            },
    {
        let max: u128 = 0xffff_ffff_ffff_ffff;
        if tokens == 0 {
            return Err(CurveLaunchpadError::MinTradeViolation);
        }
        if tokens > self.virtual_token_reserves {
            return Err(CurveLaunchpadError::ArithmeticUnderflow);
        }
        let k: u128 = match self.virtual_sol_reserves.checked_mul(self.virtual_token_reserves) {
            Some(k) => k,
            None => {
                return Err(CurveLaunchpadError::ArithmeticOverflow);
            },
        };
        let left: u128 = self.virtual_token_reserves - tokens + 1;
        let needed: u128 = k / left;
        proof {
            self@.sol_for_tokens_is_least(tokens as int);
        }
        let price_less_one: u128 = needed - self.virtual_sol_reserves;
        if price_less_one >= max {
            return Err(CurveLaunchpadError::ArithmeticOverflow);
        }
        Ok((price_less_one + 1) as u64)
    }

    /// What a sale of `tokens` would pay out, before any fee and whatever the
    /// curve really holds.
    ///
    /// The proceeds are [`Reserves::sell_sol_out`]; they are refused exactly
    /// where [`Reserves::sell_price_rejection`] names an error. The engine is
    /// not changed.
    pub fn get_sell_price(&self, tokens: u128) -> (r: Result<u64, CurveLaunchpadError>)
        ensures
            match r {
                Ok(price) => {
                    &&& self@.sell_price_rejection(tokens as int) is None
                    &&& price == self@.sell_sol_out(tokens as int)
                    &&& price <= self.virtual_sol_reserves
                },
                Err(e) => self@.sell_price_rejection(tokens as int) == Some(e),
            },
    {
        if tokens == 0 {
            return Err(CurveLaunchpadError::MinTradeViolation);
        }
        let k: u128 = match self.virtual_sol_reserves.checked_mul(self.virtual_token_reserves) {
            Some(k) => k,
            None => {
                return Err(CurveLaunchpadError::ArithmeticOverflow);
            },
        };
        let new_virtual_token: u128 = match self.virtual_token_reserves.checked_add(tokens) {
            Some(sum) => sum,
            None => {
                return Err(CurveLaunchpadError::ArithmeticOverflow);
            },
        };
        let new_virtual_sol: u128 = k / new_virtual_token;
        proof {
            self@.sell_keeps_product(tokens as int);
        }
        let sol_out: u128 = self.virtual_sol_reserves - new_virtual_sol;
        if sol_out > 0xffff_ffff_ffff_ffff {
            return Err(CurveLaunchpadError::ArithmeticOverflow);
        }
        Ok(sol_out as u64)
    }
}

} // verus!
