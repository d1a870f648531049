//! The records that outlive a call: the one global configuration, and one
//! bonding curve for each asset.

use vstd::prelude::*;
use crate::error::CurveLaunchpadError;
use crate::fee::BASIS_POINTS;
use crate::identity::Identity;
use crate::reserves::Reserves;

verus! {

/// The configuration that all curves share.
#[derive(Clone, Copy, Debug, PartialEq, Eq)]
pub struct Global {
    /// Who may change the configuration.
    pub authority: Identity,
    /// Set once, by `initialize`.
    pub initialized: bool,
    /// While set, no curve is created and nothing is traded.
    pub paused: bool,
    /// Who receives the trading fees.
    pub fee_recipient: Identity,
    /// Who may sweep a complete curve.
    pub withdraw_authority: Identity,
    pub initial_virtual_token_reserves: u64,
    pub initial_virtual_sol_reserves: u64,
    pub initial_real_token_reserves: u64,
    pub initial_real_sol_reserves: u64,
    pub initial_token_supply: u64,
    /// The fee on a trade's sol amount, in ten-thousandths.
    pub fee_basis_points: u64,
}

impl Global {
    /// The fee rate is at most the whole.
    pub open spec fn wf(self) -> bool {
        self.fee_basis_points <= 10_000
    }

    /// Trading is open: the configuration is initialized and not paused.
    pub open spec fn active(self) -> bool {
        self.initialized && !self.paused
    }

    /// Why trading is closed, or `None` where it is open.
    pub open spec fn trading_rejection(self) -> Option<CurveLaunchpadError> {
        if !self.initialized {
            Some(CurveLaunchpadError::NotInitialized)
        } else if self.paused {
            Some(CurveLaunchpadError::ProgramIsPaused)
        } else {
            None
        }
    }

    /// Why `user` may not change the configuration, or `None` where they may.
    pub open spec fn authority_rejection(self, user: Identity) -> Option<CurveLaunchpadError> {
        if !self.initialized {
            Some(CurveLaunchpadError::NotInitialized)
        } else if self.authority != user {
            Some(CurveLaunchpadError::InvalidAuthority)
        } else {
            None
        }
    }

    /// Why `user` may not set the fee rate to `fee_basis_points`, or `None`
    /// where they may: the caller's standing is looked at first, then the
    /// rate, which is at most the whole.
    pub open spec fn rate_rejection(self, user: Identity, fee_basis_points: u64) -> Option<
        CurveLaunchpadError,
    > {
        if self.authority_rejection(user) is Some {
            self.authority_rejection(user)
        } else if fee_basis_points > 10_000 {
            Some(CurveLaunchpadError::InvalidFeeBasisPoints)
        } else {
            None
        }
    }

    /// Passes where trading is open, and says why it is closed where it is not.
    pub fn require_active(&self) -> (r: Result<(), CurveLaunchpadError>)
        ensures
            match r {
                Ok(_) => self.active() && self.trading_rejection() is None,
                Err(e) => !self.active() && self.trading_rejection() == Some(e),
            },
    {
        if !self.initialized {
            Err(CurveLaunchpadError::NotInitialized)
        } else if self.paused {
            Err(CurveLaunchpadError::ProgramIsPaused)
        } else {
            Ok(())
        }
    }

    /// Passes where `user` is the authority of an initialized configuration
    /// and `fee_basis_points` is a rate of at most the whole.
    pub fn require_rate(&self, user: &Identity, fee_basis_points: u64) -> (r: Result<
        (),
        CurveLaunchpadError,
    >)
        ensures
            match r {
                Ok(_) => self.rate_rejection(*user, fee_basis_points) is None,
                Err(e) => self.rate_rejection(*user, fee_basis_points) == Some(e),
            },
    {
        match self.require_authority(user) {
            Err(e) => {
                return Err(e);
            },
            Ok(_) => {},
        }
        if fee_basis_points > BASIS_POINTS {
            return Err(CurveLaunchpadError::InvalidFeeBasisPoints);
        }
        Ok(())
    }

    /// Passes where `user` is the authority of an initialized configuration.
    pub fn require_authority(&self, user: &Identity) -> (r: Result<(), CurveLaunchpadError>)
        ensures
            match r {
                Ok(_) => self.authority_rejection(*user) is None,
                Err(e) => self.authority_rejection(*user) == Some(e),
            },
    {
        if !self.initialized {
            Err(CurveLaunchpadError::NotInitialized)
        } else if !self.authority.same(user) {
            Err(CurveLaunchpadError::InvalidAuthority)
        } else {
            Ok(())
        }
    }
}

/// The state of one asset's curve.
#[derive(Clone, Copy, Debug, PartialEq, Eq, Structural)]
pub struct BondingCurve {
    pub virtual_token_reserves: u64,
    pub virtual_sol_reserves: u64,
    pub real_token_reserves: u64,
    pub real_sol_reserves: u64,
    /// Fixed when the curve is created.
    pub token_total_supply: u64,
    /// Set when a trade exhausts the real reserve it draws on; never cleared.
    pub complete: bool,
}

impl BondingCurve {
    /// The curve's reserves as integers.
    pub open spec fn reserves(self) -> Reserves {
        Reserves {
            virtual_sol: self.virtual_sol_reserves as int,
            virtual_token: self.virtual_token_reserves as int,
            real_sol: self.real_sol_reserves as int,
            real_token: self.real_token_reserves as int,
        }
    }

    /// The curve holds no more real tokens than exist.
    pub open spec fn wf(self) -> bool {
        self.real_token_reserves <= self.token_total_supply
    }

    /// The curve that `global` prescribes for a new asset.
    pub open spec fn seeded(global: Global) -> BondingCurve {
        BondingCurve {
            virtual_token_reserves: global.initial_virtual_token_reserves,
            virtual_sol_reserves: global.initial_virtual_sol_reserves,
            real_token_reserves: global.initial_real_token_reserves,
            real_sol_reserves: global.initial_real_sol_reserves,
            token_total_supply: global.initial_token_supply,
            complete: false,
        }
    }
}

} // verus!
