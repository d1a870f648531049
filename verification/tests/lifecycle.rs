use curve_launchpad::error::CurveLaunchpadError;
use curve_launchpad::identity::Identity;
use curve_launchpad::state::{BondingCurve, Global};
use curve_launchpad::{
    buy, create, initialize, sell, set_authority, set_fee, set_params, withdraw, Buy, Create,
    Initialize, Sell, SetAuthority, SetFee, SetParams, Withdraw, Withdrawal,
};

fn key(byte: u8) -> Identity {
    Identity::new([byte; 32])
}

fn empty_global() -> Global {
    Global {
        authority: key(0),
        initialized: false,
        paused: false,
        fee_recipient: key(0),
        withdraw_authority: key(0),
        initial_virtual_token_reserves: 0,
        initial_virtual_sol_reserves: 0,
        initial_real_token_reserves: 0,
        initial_real_sol_reserves: 0,
        initial_token_supply: 0,
        fee_basis_points: 0,
    }
}

fn purchase(global: Global, curve: BondingCurve, lamports: u64) -> Buy {
    Buy {
        user: key(9),
        global,
        fee_recipient: global.fee_recipient,
        mint: key(6),
        bonding_curve: curve,
        user_lamports: lamports,
    }
}

fn sale(global: Global, curve: BondingCurve, tokens: u64) -> Sell {
    Sell {
        user: key(9),
        global,
        fee_recipient: global.fee_recipient,
        mint: key(6),
        bonding_curve: curve,
        bonding_curve_lamports: curve.real_sol_reserves,
        user_token_amount: tokens,
    }
}

#[test]
fn trading_gates_of_the_configuration() {
    let mut global = empty_global();
    assert_eq!(global.require_active(), Err(CurveLaunchpadError::NotInitialized));
    assert_eq!(global.require_authority(&key(0)), Err(CurveLaunchpadError::NotInitialized));
    global.paused = true;
    assert_eq!(global.require_active(), Err(CurveLaunchpadError::NotInitialized));
    global.initialized = true;
    assert_eq!(global.require_active(), Err(CurveLaunchpadError::ProgramIsPaused));
    assert_eq!(global.require_authority(&key(0)), Ok(()));
    assert_eq!(global.require_authority(&key(1)), Err(CurveLaunchpadError::InvalidAuthority));
    global.paused = false;
    assert_eq!(global.require_active(), Ok(()));
}

#[test]
fn a_curve_from_creation_to_the_sweep() {
    // The configuration is set up, handed over and opened.
    let mut init = Initialize { authority: key(1), global: empty_global() };
    assert_eq!(initialize(&mut init), Ok(()));
    let mut hand_over = SetAuthority { global: init.global, user: key(1), new_authority: key(2) };
    assert_eq!(set_authority(&mut hand_over), Ok(()));
    let mut params = SetParams { global: hand_over.global, user: key(2) };
    assert_eq!(set_params(&mut params, key(3), key(4), 1_000, 100, 800, 1_000, 0), Ok(()));
    let mut rate = SetFee { global: params.global, user: key(2) };
    assert_eq!(set_fee(&mut rate, 500), Ok(()));
    let mut global = rate.global;
    assert!(global.initialized);
    assert!(global.paused);
    assert_eq!(global.authority, key(2));
    assert_eq!(global.fee_recipient, key(3));
    assert_eq!(global.withdraw_authority, key(4));
    assert_eq!(global.fee_basis_points, 500);

    // Nothing is created while trading is paused.
    let mut opening = Create { user: key(9), mint: key(6), global, bonding_curve: None };
    assert_eq!(create(&mut opening), Err(CurveLaunchpadError::ProgramIsPaused));
    global.paused = false;
    opening.global = global;
    assert_eq!(create(&mut opening), Ok(()));
    let mut curve = opening.bonding_curve.unwrap();
    assert_eq!(
        curve,
        BondingCurve {
            virtual_token_reserves: 1_000,
            virtual_sol_reserves: 100,
            real_token_reserves: 800,
            real_sol_reserves: 0,
            token_total_supply: 1_000,
            complete: false,
        }
    );

    // 100 * 1000 over 801 is 124: 200 tokens cost 25, and 5% of 25 is 1.
    let mut first = purchase(global, curve, 1_000);
    let (bought, _) = buy(&mut first, 200, 26, 10).unwrap();
    assert_eq!((bought.sol_amount, bought.fee, bought.net_sol_amount), (25, 1, 26));
    assert_eq!(bought.token_amount, 200);
    assert_eq!(first.user_lamports, 974);
    curve = first.bonding_curve;
    assert_eq!(
        (curve.virtual_sol_reserves, curve.virtual_token_reserves),
        (125, 800)
    );
    assert_eq!((curve.real_sol_reserves, curve.real_token_reserves), (25, 600));
    assert!(curve.real_token_reserves <= curve.token_total_supply);

    // Half of them go back: 125 * 800 over 900 is 111, so 14 come out.
    let mut back = sale(global, curve, 200);
    let (sold, event) = sell(&mut back, 100, 14, 11).unwrap();
    assert_eq!((sold.sol_amount, sold.fee, sold.net_sol_amount), (14, 0, 14));
    assert!(!event.is_buy);
    assert!(!event.complete);
    assert_eq!(back.user_token_amount, 100);
    assert_eq!(back.bonding_curve_lamports, 11);
    curve = back.bonding_curve;
    assert_eq!(
        (curve.virtual_sol_reserves, curve.virtual_token_reserves),
        (111, 900)
    );
    assert_eq!((curve.real_sol_reserves, curve.real_token_reserves), (11, 700));

    // The rest of the real tokens go in one purchase, which completes the curve.
    let mut last = purchase(global, curve, 1_000_000);
    let (taken, event) = buy(&mut last, 700, u64::MAX, 12).unwrap();
    assert_eq!(taken.token_amount, 700);
    assert_eq!(taken.sol_amount, 387);
    assert_eq!(taken.fee, 19);
    assert!(event.complete);
    curve = last.bonding_curve;
    assert!(curve.complete);
    assert_eq!((curve.real_sol_reserves, curve.real_token_reserves), (398, 0));
    assert_eq!(
        (curve.virtual_sol_reserves, curve.virtual_token_reserves),
        (498, 200)
    );

    // Nothing trades against it any more.
    let mut late = purchase(global, curve, 1_000_000);
    assert_eq!(buy(&mut late, 1, u64::MAX, 13), Err(CurveLaunchpadError::BondingCurveComplete));
    let mut late_sale = sale(global, curve, 700);
    assert_eq!(sell(&mut late_sale, 1, 0, 13), Err(CurveLaunchpadError::BondingCurveComplete));
    assert_eq!(late.bonding_curve, curve);
    assert_eq!(late_sale.bonding_curve, curve);

    // Only the withdraw authority sweeps it.
    let mut sweep = Withdraw {
        user: key(2),
        global,
        mint: key(6),
        bonding_curve: curve,
        bonding_curve_lamports: 398,
    };
    assert_eq!(withdraw(&mut sweep), Err(CurveLaunchpadError::InvalidAuthority));
    sweep.user = key(4);
    assert_eq!(withdraw(&mut sweep), Ok(Withdrawal { sol_amount: 398, token_amount: 0 }));
    assert_eq!(sweep.bonding_curve.real_sol_reserves, 0);
    assert!(sweep.bonding_curve.complete);
    assert_eq!(sweep.bonding_curve_lamports, 0);
}
