//! Pricing and settlement core of a bonding-curve launchpad.
//!
//! Every tradable asset has its own curve: a constant-product market maker over
//! virtual and real reserves. The modules below hold the reserve arithmetic, the
//! fee rule, the per-asset curve record, the global configuration and the
//! validation pipeline that every trade goes through. All quantities are
//! unsigned 64-bit integers in the smallest indivisible unit.
//!
//! - [`reserves`] is the curve as mathematics, and [`laws`] what holds of it.
//! - [`amm`] is the pricing engine and [`fee`] the fee rule.
//! - [`state`] holds the records that outlive a call.
//! - [`instructions`] holds the operations, each over the values of the
//!   accounts it touches.

pub mod amm;
pub mod arith;
pub mod error;
pub mod fee;
pub mod identity;
pub mod instructions;
pub mod laws;
pub mod reserves;
pub mod state;

pub use error::CurveLaunchpadError;
pub use fee::calculate_fee;
pub use instructions::admin::initialize::{initialize, Initialize};
pub use instructions::admin::set_authority::{set_authority, SetAuthority};
pub use instructions::admin::set_fee::{set_fee, SetFee};
pub use instructions::admin::set_params::{set_params, SetParams};
pub use instructions::events::{Settlement, TradeEvent};
pub use instructions::user::buy::{buy, Buy};
pub use instructions::user::create::{create, Create};
pub use instructions::user::sell::{sell, Sell};
pub use instructions::user::withdraw::{withdraw, Withdraw, Withdrawal};
