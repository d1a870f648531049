//! Operations on the global configuration.

pub mod initialize;
pub mod set_authority;
pub mod set_fee;
pub mod set_params;
