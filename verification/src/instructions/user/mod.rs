//! Operations on a bonding curve.

pub mod buy;
pub mod create;
pub mod sell;
pub mod withdraw;
