//! Sweeping a complete curve.

use vstd::prelude::*;
use crate::error::CurveLaunchpadError;
use crate::identity::Identity;
use crate::state::{BondingCurve, Global};

verus! {

/// The accounts of `withdraw`.
#[derive(Clone, Copy, Debug, PartialEq, Eq)]
pub struct Withdraw {
    /// The caller.
    pub user: Identity,
    pub global: Global,
    /// The asset.
    pub mint: Identity,
    pub bonding_curve: BondingCurve,
    /// The sol that the curve's account holds.
    pub bonding_curve_lamports: u64,
}

/// What a sweep hands to the withdraw authority.
#[derive(Clone, Copy, Debug, PartialEq, Eq, Structural)]
pub struct Withdrawal {
    pub sol_amount: u64,
    pub token_amount: u64,
}

impl Withdraw {
    /// Why the sweep is refused, or `None` where it goes through.
    pub open spec fn rejection(self) -> Option<CurveLaunchpadError> {
        if !self.global.initialized {
            Some(CurveLaunchpadError::NotInitialized)
        } else if self.user != self.global.withdraw_authority {
            Some(CurveLaunchpadError::InvalidAuthority)
        } else if !self.bonding_curve.complete {
            Some(CurveLaunchpadError::BondingCurveNotComplete)
        } else if self.bonding_curve_lamports < self.bonding_curve.real_sol_reserves {
            Some(CurveLaunchpadError::InsufficientSOL)
        } else {
            None
        }
    }

    /// The accounts after the sweep: the real reserves are gone, the rest of
    /// the curve is as it was.
    pub open spec fn after(self) -> Withdraw {
        Withdraw {
            bonding_curve: BondingCurve {
                real_sol_reserves: 0,
                real_token_reserves: 0,
                ..self.bonding_curve
            },
            bonding_curve_lamports: (self.bonding_curve_lamports
                - self.bonding_curve.real_sol_reserves) as u64,
            ..self
        }
    }
}

/// Sweeps what a complete curve really holds to the withdraw authority.
///
/// Refused with `NotInitialized` before the configuration is initialized,
/// with `InvalidAuthority` where the caller is not the withdraw authority,
/// with `BondingCurveNotComplete` where the curve still trades, and with
/// `InsufficientSOL` where the curve's account holds less than its real sol
/// reserve. A refusal changes nothing. A curve that is swept stays complete.
pub fn withdraw(ctx: &mut Withdraw) -> (r: Result<Withdrawal, CurveLaunchpadError>)
    ensures
        match r {
            Ok(withdrawal) => {
                &&& old(ctx).rejection() is None
                &&& withdrawal.sol_amount == old(ctx).bonding_curve.real_sol_reserves
                &&& withdrawal.token_amount == old(ctx).bonding_curve.real_token_reserves
                &&& *final(ctx) == old(ctx).after()
            },
            Err(e) => {
                &&& old(ctx).rejection() == Some(e)
                &&& *final(ctx) == *old(ctx)
            },
        },
        !old(ctx).bonding_curve.complete ==> r is Err,
        final(ctx).bonding_curve.complete == old(ctx).bonding_curve.complete,
        old(ctx).bonding_curve.wf() ==> final(ctx).bonding_curve.wf(),
{
    if !ctx.global.initialized {
        return Err(CurveLaunchpadError::NotInitialized);
    }
    if !ctx.user.same(&ctx.global.withdraw_authority) {
        return Err(CurveLaunchpadError::InvalidAuthority);
    }
    if !ctx.bonding_curve.complete {
        return Err(CurveLaunchpadError::BondingCurveNotComplete);
    }
    if ctx.bonding_curve_lamports < ctx.bonding_curve.real_sol_reserves {
        return Err(CurveLaunchpadError::InsufficientSOL);
    }
    let withdrawal = Withdrawal {
        sol_amount: ctx.bonding_curve.real_sol_reserves,
        token_amount: ctx.bonding_curve.real_token_reserves,
    };
    ctx.bonding_curve_lamports = ctx.bonding_curve_lamports - withdrawal.sol_amount;
    ctx.bonding_curve.real_sol_reserves = 0;
    ctx.bonding_curve.real_token_reserves = 0;
    Ok(withdrawal)
}

} // verus!
