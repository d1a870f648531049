//! Opening the curve of a new asset.

use vstd::prelude::*;
use crate::error::CurveLaunchpadError;
use crate::identity::Identity;
use crate::state::{BondingCurve, Global};

verus! {

/// The accounts of `create`.
#[derive(Clone, Copy, Debug, PartialEq, Eq)]
pub struct Create {
    /// The creator.
    pub user: Identity,
    /// The new asset.
    pub mint: Identity,
    pub global: Global,
    /// The asset's curve: `None` until it is created.
    pub bonding_curve: Option<BondingCurve>,
}

impl Create {
    /// Why no curve is created, or `None` where one is: trading must be
    /// open, the asset must have no curve yet, and the configured real token
    /// reserve must not exceed the configured supply.
    pub open spec fn rejection(self) -> Option<CurveLaunchpadError> {
        if self.global.trading_rejection() is Some {
            self.global.trading_rejection()
        } else if self.bonding_curve is Some {
            Some(CurveLaunchpadError::BondingCurveAlreadyCreated)
        } else if self.global.initial_real_token_reserves > self.global.initial_token_supply {
            Some(CurveLaunchpadError::ArithmeticOverflow)
        } else {
            None
        }
    }
}

/// Creates the curve of an asset that has none, with the reserves and the
/// supply that the configuration prescribes. The new curve is active: it is
/// not complete.
///
/// Refused with the configuration's error where trading is closed, with
/// `BondingCurveAlreadyCreated` where the asset has a curve, which is then
/// left as it is, and with `ArithmeticOverflow` where the configured real
/// token reserve exceeds the configured supply.
pub fn create(ctx: &mut Create) -> (r: Result<(), CurveLaunchpadError>)
    ensures
        match r {
            Ok(_) => {
                &&& old(ctx).rejection() is None
                &&& *final(ctx) == (Create {
                    bonding_curve: Some(BondingCurve::seeded(old(ctx).global)),
                    ..*old(ctx)
                })
                &&& final(ctx).bonding_curve->Some_0.wf()
                &&& !final(ctx).bonding_curve->Some_0.complete
            },
            Err(e) => {
                &&& old(ctx).rejection() == Some(e)
                &&& *final(ctx) == *old(ctx)
            },
        },
{
    match ctx.global.require_active() {
        Err(e) => {
            return Err(e);
        },
        Ok(_) => {},
    }
    if ctx.bonding_curve.is_some() {
        return Err(CurveLaunchpadError::BondingCurveAlreadyCreated);
    }
    if ctx.global.initial_real_token_reserves > ctx.global.initial_token_supply {
        return Err(CurveLaunchpadError::ArithmeticOverflow);
    }
    ctx.bonding_curve = Some(
        BondingCurve {
            virtual_token_reserves: ctx.global.initial_virtual_token_reserves,
            virtual_sol_reserves: ctx.global.initial_virtual_sol_reserves,
            real_token_reserves: ctx.global.initial_real_token_reserves,
            real_sol_reserves: ctx.global.initial_real_sol_reserves,
            token_total_supply: ctx.global.initial_token_supply,
            complete: false,
        },
    );
    Ok(())
}

} // verus!
