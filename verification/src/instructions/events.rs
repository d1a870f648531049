//! What a successful trade hands back: the amounts to move, and the record
//! of the trade.

use vstd::prelude::*;
use crate::identity::Identity;

verus! {

/// The amounts that settle a trade.
///
/// A sale moves `token_amount` from the trader to the curve, `net_sol_amount`
/// from the curve to the trader and `fee` from the curve to the fee
/// recipient. A purchase moves `token_amount` from the curve to the trader,
/// `sol_amount` from the trader to the curve and `fee` from the trader to the
/// fee recipient, `net_sol_amount` in all.
#[derive(Clone, Copy, Debug, PartialEq, Eq, Structural)]
pub struct Settlement {
    pub token_amount: u64,
    /// The sol that the curve's reserves change by.
    pub sol_amount: u64,
    pub fee: u64,
    /// What the trader receives (sale, the fee taken off) or pays (purchase,
    /// the fee put on).
    pub net_sol_amount: u64,
}

/// The record of one trade, written once.
#[derive(Clone, Copy, Debug, PartialEq, Eq)]
pub struct TradeEvent {
    pub mint: Identity,
    pub sol_amount: u64,
    pub token_amount: u64,
    pub is_buy: bool,
    pub user: Identity,
    pub timestamp: i64,
    pub virtual_sol_reserves: u64,
    pub virtual_token_reserves: u64,
    pub real_sol_reserves: u64,
    pub real_token_reserves: u64,
    /// Whether the trade left the curve complete.
    pub complete: bool,
}

} // verus!
