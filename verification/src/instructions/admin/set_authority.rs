//! Handing the configuration to another authority.

use vstd::prelude::*;
use crate::error::CurveLaunchpadError;
use crate::identity::Identity;
use crate::state::Global;

verus! {

/// The accounts of `set_authority`.
#[derive(Clone, Copy, Debug, PartialEq, Eq)]
pub struct SetAuthority {
    pub global: Global,
    /// The caller.
    pub user: Identity,
    /// Who is to be the authority from now on.
    pub new_authority: Identity,
}

/// Replaces the authority, on the word of the present one.
///
/// Refused with `NotInitialized` before the configuration is initialized, and
/// with `InvalidAuthority` where the caller is not the authority.
pub fn set_authority(ctx: &mut SetAuthority) -> (r: Result<(), CurveLaunchpadError>)
    ensures
        match r {
            Ok(_) => {
                &&& old(ctx).global.authority_rejection(old(ctx).user) is None
                &&& *final(ctx) == (SetAuthority {
                    global: Global { authority: old(ctx).new_authority, ..old(ctx).global },
                    ..*old(ctx)
                })
            },
            Err(e) => {
                &&& old(ctx).global.authority_rejection(old(ctx).user) == Some(e)
                &&& *final(ctx) == *old(ctx)
            },
        },
{
    match ctx.global.require_authority(&ctx.user) {
        Err(e) => {
            return Err(e);
        },
        Ok(_) => {},
    }
    ctx.global.authority = ctx.new_authority;
    Ok(())
}

} // verus!
