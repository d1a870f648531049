//! Setting up the global configuration.

use vstd::prelude::*;
use crate::error::CurveLaunchpadError;
use crate::identity::Identity;
use crate::instructions::constants::{
    DEFAULT_FEE_BASIS_POINTS,
    DEFAULT_TOKEN_SUPPLY,
    DEFAULT_VIRTUAL_SOL_RESERVES,
    DEFAULT_VIRTUAL_TOKEN_RESERVES,
};
use crate::state::Global;

verus! {

/// The accounts of `initialize`.
#[derive(Clone, Copy, Debug, PartialEq, Eq)]
pub struct Initialize {
    /// The caller, who becomes the authority.
    pub authority: Identity,
    pub global: Global,
}

impl Initialize {
    /// The configuration that `initialize` leaves: the caller as authority,
    /// trading paused, the default curve parameters and a fee of one percent.
    /// The two recipients are not touched.
    pub open spec fn initialized_global(self) -> Global {
        Global {
            authority: self.authority,
            initialized: true,
            paused: true,
            initial_token_supply: DEFAULT_TOKEN_SUPPLY,
            initial_real_sol_reserves: 0,
            initial_real_token_reserves: DEFAULT_TOKEN_SUPPLY,
            initial_virtual_sol_reserves: DEFAULT_VIRTUAL_SOL_RESERVES,
            initial_virtual_token_reserves: DEFAULT_VIRTUAL_TOKEN_RESERVES,
            fee_basis_points: DEFAULT_FEE_BASIS_POINTS,
            ..self.global
        }
    }
}

/// Initializes the configuration, once.
///
/// A configuration that is already initialized is left as it is and
/// `AlreadyInitialized` is returned.
pub fn initialize(ctx: &mut Initialize) -> (r: Result<(), CurveLaunchpadError>)
    ensures
        old(ctx).global.initialized ==> r == Err::<(), CurveLaunchpadError>(
            CurveLaunchpadError::AlreadyInitialized,
        ) && *final(ctx) == *old(ctx),
        !old(ctx).global.initialized ==> r is Ok && *final(ctx) == (Initialize {
            global: old(ctx).initialized_global(),
            ..*old(ctx)
        }),
        r is Ok ==> final(ctx).global.wf(),
        r is Ok ==> final(ctx).global.initialized && final(ctx).global.paused,
{
    if ctx.global.initialized {
        return Err(CurveLaunchpadError::AlreadyInitialized);
    }
    ctx.global.authority = ctx.authority;
    ctx.global.initialized = true;
    ctx.global.paused = true;
    ctx.global.initial_token_supply = DEFAULT_TOKEN_SUPPLY;
    ctx.global.initial_real_sol_reserves = 0;
    ctx.global.initial_real_token_reserves = DEFAULT_TOKEN_SUPPLY;
    ctx.global.initial_virtual_sol_reserves = DEFAULT_VIRTUAL_SOL_RESERVES;
    ctx.global.initial_virtual_token_reserves = DEFAULT_VIRTUAL_TOKEN_RESERVES;
    ctx.global.fee_basis_points = DEFAULT_FEE_BASIS_POINTS;
    Ok(())
}

} // verus!
