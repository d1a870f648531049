//! The operations of the launchpad, each over a plain-value picture of the
//! accounts it touches.

pub mod admin;
pub mod constants;
pub mod events;
pub mod user;
