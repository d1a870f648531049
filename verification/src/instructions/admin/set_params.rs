//! Changing the recipients, the fee rate and the parameters of new curves.

use vstd::prelude::*;
use crate::error::CurveLaunchpadError;
use crate::identity::Identity;
use crate::state::Global;

verus! {

/// The accounts of `set_params`.
#[derive(Clone, Copy, Debug, PartialEq, Eq)]
pub struct SetParams {
    pub global: Global,
    /// The caller.
    pub user: Identity,
}

/// Sets the recipients, the parameters that new curves are created with and
/// the fee rate, on the word of the authority.
///
/// Refused with `NotInitialized` before the configuration is initialized,
/// with `InvalidAuthority` where the caller is not the authority, whatever
/// the arguments, and with `InvalidFeeBasisPoints` where the authority asks
/// for a rate above ten thousand basis points. A refusal changes nothing.
/// Curves that exist are not affected.
pub fn set_params(
    ctx: &mut SetParams,
    fee_recipient: Identity,
    withdraw_authority: Identity,
    initial_virtual_token_reserves: u64,
    initial_virtual_sol_reserves: u64,
    initial_real_token_reserves: u64,
    inital_token_supply: u64,
    fee_basis_points: u64,
) -> (r: Result<(), CurveLaunchpadError>)
    ensures
        match r {
            Ok(_) => {
                &&& old(ctx).global.rate_rejection(old(ctx).user, fee_basis_points) is None
                &&& *final(ctx) == (SetParams {
                    global: Global {
                        fee_recipient,
                        withdraw_authority,
                        initial_virtual_token_reserves,
                        initial_virtual_sol_reserves,
                        initial_real_token_reserves,
                        initial_token_supply: inital_token_supply,
                        fee_basis_points,
                        ..old(ctx).global
                    },
                    ..*old(ctx)
                })
                &&& final(ctx).global.wf()
            },
            Err(e) => {
                &&& old(ctx).global.rate_rejection(old(ctx).user, fee_basis_points) == Some(e)
                &&& *final(ctx) == *old(ctx)
            },
        },
        old(ctx).global.wf() ==> final(ctx).global.wf(),
{
    match ctx.global.require_rate(&ctx.user, fee_basis_points) {
        Err(e) => {
            return Err(e);
        },
        Ok(_) => {},
    }
    ctx.global.fee_recipient = fee_recipient;
    ctx.global.withdraw_authority = withdraw_authority;
    ctx.global.initial_virtual_token_reserves = initial_virtual_token_reserves;
    ctx.global.initial_virtual_sol_reserves = initial_virtual_sol_reserves;
    ctx.global.initial_real_token_reserves = initial_real_token_reserves;
    ctx.global.initial_token_supply = inital_token_supply;
    ctx.global.fee_basis_points = fee_basis_points;
    Ok(())
}

} // verus!
