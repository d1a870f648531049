//! Changing the fee rate.

use vstd::prelude::*;
use crate::error::CurveLaunchpadError;
use crate::identity::Identity;
use crate::state::Global;

verus! {

/// The accounts of `set_fee`.
#[derive(Clone, Copy, Debug, PartialEq, Eq)]
pub struct SetFee {
    pub global: Global,
    /// The caller.
    pub user: Identity,
}

/// Sets the fee rate, on the word of the authority.
///
/// Refused with `NotInitialized` before the configuration is initialized,
/// with `InvalidAuthority` where the caller is not the authority, whatever
/// the rate, and with `InvalidFeeBasisPoints` where the authority asks for a
/// rate above ten thousand basis points. A refusal changes nothing, so the
/// rate is never left above the whole.
pub fn set_fee(ctx: &mut SetFee, fee_basis_points: u64) -> (r: Result<(), CurveLaunchpadError>)
    ensures
        match r {
            Ok(_) => {
                &&& old(ctx).global.rate_rejection(old(ctx).user, fee_basis_points) is None
                &&& *final(ctx) == (SetFee {
                    global: Global { fee_basis_points, ..old(ctx).global },
                    ..*old(ctx)
                })
                &&& final(ctx).global.wf()
            },
            Err(e) => {
                &&& old(ctx).global.rate_rejection(old(ctx).user, fee_basis_points) == Some(e)
                &&& *final(ctx) == *old(ctx)
            },
        },
        old(ctx).global.wf() ==> final(ctx).global.wf(),
{
    match ctx.global.require_rate(&ctx.user, fee_basis_points) {
        Err(e) => {
            return Err(e);
        },
        Ok(_) => {},
    }
    ctx.global.fee_basis_points = fee_basis_points;
    Ok(())
}

} // verus!
