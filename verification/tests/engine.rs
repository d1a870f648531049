use curve_launchpad::amm::{TradeQuote, AMM};
use curve_launchpad::error::CurveLaunchpadError;

const VIRTUAL_SOL: u128 = 30_000_000_000;
const VIRTUAL_TOKEN: u128 = 1_073_000_000_000_000;
const REAL_TOKEN: u128 = 1_000_000_000_000_000;

fn product(amm: &AMM) -> u128 {
    amm.virtual_sol_reserves * amm.virtual_token_reserves
}

#[test]
fn new_keeps_its_arguments() {
    let amm = AMM::new(1, 2, 3, 4, 5);
    assert_eq!(amm.virtual_sol_reserves, 1);
    assert_eq!(amm.virtual_token_reserves, 2);
    assert_eq!(amm.real_sol_reserves, 3);
    assert_eq!(amm.real_token_reserves, 4);
    assert_eq!(amm.initial_virtual_token_reserves, 5);
}

#[test]
fn buy_on_a_small_curve() {
    let mut amm = AMM::new(10, 10, 5, 5, 10);
    let quote = amm.apply_buy(1).unwrap();
    assert_eq!(
        quote,
        TradeQuote {
            sol_amount: 1,
            token_amount: 1,
            virtual_sol_reserves: 11,
            virtual_token_reserves: 9,
            real_sol_reserves: 6,
            real_token_reserves: 4,
            complete: false,
        }
    );
    assert_eq!(amm, AMM::new(11, 9, 6, 4, 10));
}

#[test]
fn sell_on_a_small_curve() {
    let mut amm = AMM::new(11, 9, 6, 4, 10);
    let quote = amm.apply_sell(1).unwrap();
    assert_eq!(
        quote,
        TradeQuote {
            sol_amount: 2,
            token_amount: 1,
            virtual_sol_reserves: 9,
            virtual_token_reserves: 10,
            real_sol_reserves: 4,
            real_token_reserves: 5,
            complete: false,
        }
    );
    assert_eq!(amm, AMM::new(9, 10, 4, 5, 10));
}

#[test]
fn buy_one_sol_on_a_fresh_curve() {
    let mut amm = AMM::new(VIRTUAL_SOL, VIRTUAL_TOKEN, 0, REAL_TOKEN, VIRTUAL_TOKEN);
    let quote = amm.apply_buy(1_000_000_000).unwrap();
    assert_eq!(quote.sol_amount, 1_000_000_000);
    assert_eq!(quote.token_amount, 34_612_903_225_807);
    assert_eq!(quote.virtual_sol_reserves, 31_000_000_000);
    assert_eq!(quote.virtual_token_reserves, 1_038_387_096_774_193);
    assert_eq!(quote.real_sol_reserves, 1_000_000_000);
    assert_eq!(quote.real_token_reserves, 965_387_096_774_193);
    assert!(!quote.complete);
    assert_eq!(amm.virtual_token_reserves, 1_038_387_096_774_193);
    assert_eq!(amm.real_token_reserves, 965_387_096_774_193);
    assert_eq!(amm.initial_virtual_token_reserves, VIRTUAL_TOKEN);
}

#[test]
fn sell_a_billion_units_against_funded_reserves() {
    let mut amm = AMM::new(VIRTUAL_SOL, VIRTUAL_TOKEN, 1_000_000_000, REAL_TOKEN, VIRTUAL_TOKEN);
    let quote = amm.apply_sell(1_000_000_000).unwrap();
    assert_eq!(quote.sol_amount, 27_959);
    assert_eq!(quote.token_amount, 1_000_000_000);
    assert_eq!(quote.virtual_sol_reserves, 29_999_972_041);
    assert_eq!(quote.virtual_token_reserves, 1_073_001_000_000_000);
    assert_eq!(quote.real_sol_reserves, 999_972_041);
    assert_eq!(quote.real_token_reserves, 1_000_001_000_000_000);
    assert!(!quote.complete);
}

#[test]
fn zero_amounts_are_no_trade() {
    let mut amm = AMM::new(10, 10, 5, 5, 10);
    assert_eq!(amm.apply_buy(0), Err(CurveLaunchpadError::MinTradeViolation));
    assert_eq!(amm.apply_sell(0), Err(CurveLaunchpadError::MinTradeViolation));
    assert_eq!(amm.get_buy_price(0), Err(CurveLaunchpadError::MinTradeViolation));
    assert_eq!(amm, AMM::new(10, 10, 5, 5, 10));
}

#[test]
fn buy_cannot_take_more_tokens_than_are_held() {
    let mut amm = AMM::new(10, 10, 5, 0, 10);
    assert_eq!(amm.apply_buy(1), Err(CurveLaunchpadError::ArithmeticUnderflow));
    assert_eq!(amm, AMM::new(10, 10, 5, 0, 10));
}

#[test]
fn sell_cannot_take_more_sol_than_is_held() {
    let mut amm = AMM::new(VIRTUAL_SOL, VIRTUAL_TOKEN, 0, REAL_TOKEN, VIRTUAL_TOKEN);
    assert_eq!(amm.apply_sell(1_000_000_000), Err(CurveLaunchpadError::ArithmeticUnderflow));
    assert_eq!(amm, AMM::new(VIRTUAL_SOL, VIRTUAL_TOKEN, 0, REAL_TOKEN, VIRTUAL_TOKEN));
    let mut short = AMM::new(11, 9, 1, 4, 10);
    assert_eq!(short.apply_sell(1), Err(CurveLaunchpadError::ArithmeticUnderflow));
}

#[test]
fn results_must_fit_in_64_bits() {
    let max = u64::MAX as u128;
    let mut amm = AMM::new(max, 10, 5, 5, 10);
    assert_eq!(amm.apply_buy(1), Err(CurveLaunchpadError::ArithmeticOverflow));
    let mut amm = AMM::new(10, 10, max, 5, 10);
    assert_eq!(amm.apply_buy(1), Err(CurveLaunchpadError::ArithmeticOverflow));
    let mut amm = AMM::new(10, 10, 5, 5, 10);
    assert_eq!(amm.apply_buy(max + 1), Err(CurveLaunchpadError::ArithmeticOverflow));
    let mut amm = AMM::new(10, max, 5, 5, 10);
    assert_eq!(amm.apply_sell(1), Err(CurveLaunchpadError::ArithmeticOverflow));
    let mut amm = AMM::new(10, 10, 5, max, 10);
    assert_eq!(amm.apply_sell(1), Err(CurveLaunchpadError::ArithmeticOverflow));
    assert_eq!(amm, AMM::new(10, 10, 5, max, 10));
}

#[test]
fn a_product_beyond_128_bits_is_an_overflow() {
    let mut amm = AMM::new(1 << 63, 1 << 100, 5, 5, 10);
    assert_eq!(amm.apply_buy(1), Err(CurveLaunchpadError::ArithmeticOverflow));
    assert_eq!(amm.get_buy_price(1), Err(CurveLaunchpadError::ArithmeticOverflow));
    let mut amm = AMM::new(1 << 100, 1 << 63, 5, 5, 10);
    assert_eq!(amm.apply_sell(1), Err(CurveLaunchpadError::ArithmeticOverflow));
}

#[test]
fn a_reserve_of_more_than_64_bits_can_still_trade() {
    // The virtual token reserve starts above 64 bits and ends within them.
    let mut amm = AMM::new(1, 1 << 64, 0, 1 << 64, 10);
    let quote = amm.apply_buy(3).unwrap();
    assert_eq!(quote.virtual_token_reserves, 1 << 62);
    assert_eq!(quote.token_amount as u128, (1u128 << 64) - (1u128 << 62));
    assert_eq!(quote.real_token_reserves, 1 << 62);
}

#[test]
fn buy_that_takes_the_last_token_completes() {
    let mut amm = AMM::new(10, 10, 5, 1, 10);
    let quote = amm.apply_buy(1).unwrap();
    assert_eq!(quote.token_amount, 1);
    assert_eq!(quote.real_token_reserves, 0);
    assert!(quote.complete);
}

#[test]
fn sell_that_takes_the_last_sol_completes() {
    let mut amm = AMM::new(11, 9, 2, 4, 10);
    let quote = amm.apply_sell(1).unwrap();
    assert_eq!(quote.sol_amount, 2);
    assert_eq!(quote.real_sol_reserves, 0);
    assert!(quote.complete);
}

#[test]
fn price_of_a_billion_units_on_a_fresh_curve() {
    let amm = AMM::new(VIRTUAL_SOL, VIRTUAL_TOKEN, 0, REAL_TOKEN, VIRTUAL_TOKEN);
    assert_eq!(amm.get_buy_price(1_000_000_000), Ok(27_960));
    // The price buys at least what was asked for ...
    let mut at_price = amm;
    assert_eq!(at_price.apply_buy(27_960).unwrap().token_amount, 1_000_035_068);
    // ... and one unit less does not.
    let mut below = amm;
    assert_eq!(below.apply_buy(27_959).unwrap().token_amount, 999_999_302);
    assert_eq!(amm, AMM::new(VIRTUAL_SOL, VIRTUAL_TOKEN, 0, REAL_TOKEN, VIRTUAL_TOKEN));
}

#[test]
fn price_is_least_on_a_small_curve() {
    let amm = AMM::new(1_000, 5_000, 100, 4_000, 5_000);
    let mut tokens: u128 = 1;
    while tokens <= 5_000 {
        let price = amm.get_buy_price(tokens).unwrap() as u128;
        assert!(price >= 1);
        let mut at_price = amm;
        at_price.real_token_reserves = 5_000;
        assert!(at_price.apply_buy(price).unwrap().token_amount as u128 >= tokens);
        if price > 1 {
            let mut below = amm;
            below.real_token_reserves = 5_000;
            assert!((below.apply_buy(price - 1).unwrap().token_amount as u128) < tokens);
        }
        tokens += 1;
    }
}

#[test]
fn price_refusals() {
    let amm = AMM::new(10, 10, 5, 5, 10);
    assert_eq!(amm.get_buy_price(11), Err(CurveLaunchpadError::ArithmeticUnderflow));
    assert_eq!(amm.get_buy_price(10), Ok(91));
    let wide = AMM::new(1, (1 << 64) + 5, 0, 0, 10);
    assert_eq!(wide.get_buy_price((1 << 64) + 5), Err(CurveLaunchpadError::ArithmeticOverflow));
    let edge = AMM::new(1, u64::MAX as u128, 0, 0, 10);
    assert_eq!(edge.get_buy_price(u64::MAX as u128), Ok(u64::MAX));
}

#[test]
fn product_is_kept_up_to_rounding_over_a_history() {
    let mut amm = AMM::new(1_000, 5_000, 100, 4_000, 5_000);
    let expected: [(bool, u128, u64, u128); 6] = [
        (true, 7, 35, 4_999_755),
        (false, 13, 3, 4_997_912),
        (true, 250, 993, 4_997_190),
        (false, 1_000, 252, 4_994_970),
        (false, 1, 1, 4_990_986),
        (true, 1, 5, 4_990_962),
    ];
    for (is_buy, amount, out, product_after) in expected {
        let before = product(&amm);
        if is_buy {
            let quote = amm.apply_buy(amount).unwrap();
            assert_eq!(quote.token_amount, out);
            assert!(before < product(&amm) + amm.virtual_sol_reserves);
        } else {
            let quote = amm.apply_sell(amount).unwrap();
            assert_eq!(quote.sol_amount, out);
            assert!(before < product(&amm) + amm.virtual_token_reserves);
        }
        assert!(product(&amm) <= before);
        assert_eq!(product(&amm), product_after);
    }
    assert_eq!(amm, AMM::new(1_002, 4_981, 102, 3_981, 5_000));
}

#[test]
fn refused_trades_in_a_history_change_nothing() {
    let mut amm = AMM::new(1_000, 5_000, 100, 4_000, 5_000);
    assert_eq!(amm.apply_sell(1_000), Err(CurveLaunchpadError::ArithmeticUnderflow));
    assert_eq!(amm.apply_buy(0), Err(CurveLaunchpadError::MinTradeViolation));
    assert_eq!(amm.apply_buy(5_000_000), Err(CurveLaunchpadError::ArithmeticUnderflow));
    assert_eq!(amm, AMM::new(1_000, 5_000, 100, 4_000, 5_000));
    assert_eq!(amm.apply_buy(7).unwrap().token_amount, 35);
}

#[test]
fn sell_price_on_fresh_reserves() {
    let amm = AMM::new(VIRTUAL_SOL, VIRTUAL_TOKEN, 0, REAL_TOKEN, VIRTUAL_TOKEN);
    assert_eq!(amm.get_sell_price(1_000_000_000), Ok(27_959));
    assert_eq!(amm.get_sell_price(1), Ok(1));
    assert_eq!(amm, AMM::new(VIRTUAL_SOL, VIRTUAL_TOKEN, 0, REAL_TOKEN, VIRTUAL_TOKEN));
    // The quote is what the sale pays where the curve holds the sol.
    let mut funded = AMM::new(VIRTUAL_SOL, VIRTUAL_TOKEN, 27_959, REAL_TOKEN, VIRTUAL_TOKEN);
    let quote = funded.apply_sell(1_000_000_000).unwrap();
    assert_eq!(quote.sol_amount, 27_959);
    assert_eq!(quote.real_sol_reserves, 0);
}

#[test]
fn sell_price_refusals() {
    let amm = AMM::new(10, 10, 5, 5, 10);
    assert_eq!(amm.get_sell_price(0), Err(CurveLaunchpadError::MinTradeViolation));
    assert_eq!(amm.get_sell_price(10), Ok(5));
    assert_eq!(amm.get_sell_price(u64::MAX as u128), Ok(10));
    let wide = AMM::new(1 << 100, 1, 0, 0, 10);
    assert_eq!(wide.get_sell_price(1), Err(CurveLaunchpadError::ArithmeticOverflow));
    let full = AMM::new(1, u128::MAX, 0, 0, 10);
    assert_eq!(full.get_sell_price(1), Err(CurveLaunchpadError::ArithmeticOverflow));
    let product = AMM::new(1 << 64, 1 << 64, 0, 0, 10);
    assert_eq!(product.get_sell_price(1), Err(CurveLaunchpadError::ArithmeticOverflow));
}

#[test]
fn more_in_never_gives_less_out() {
    let amm = AMM::new(1_000, 5_000, 5_000, 5_000, 5_000);
    let mut last_tokens: u64 = 0;
    let mut last_sol: u64 = 0;
    let mut last_price: u64 = 0;
    let mut amount: u128 = 1;
    while amount <= 2_000 {
        let mut buying = amm;
        let tokens = buying.apply_buy(amount).unwrap().token_amount;
        assert!(tokens >= last_tokens);
        last_tokens = tokens;
        let sol = amm.get_sell_price(amount).unwrap();
        assert!(sol >= last_sol);
        last_sol = sol;
        let price = amm.get_buy_price(amount).unwrap();
        assert!(price >= last_price);
        last_price = price;
        amount += 1;
    }
    assert_eq!(last_tokens, 3_334);
    assert_eq!(last_sol, 286);
    assert_eq!(last_price, 667);
}
