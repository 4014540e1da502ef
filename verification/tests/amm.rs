use curve_launchpad::amm::AMM;

#[test]
fn test_buy_and_sell_too_much() {
    let virtual_sol_reserves = 600;
    let virtual_token_reserves = 600;
    let real_sol_reserves = 0;
    let real_token_reserves = 500;
    let initial_virtual_token_reserves = 1000;

    let mut amm = AMM::new(
        virtual_sol_reserves,
        virtual_token_reserves,
        real_sol_reserves,
        real_token_reserves,
        initial_virtual_token_reserves,
    );

    // Attempt to buy more tokens than available in reserves
    let buy_result = amm.apply_buy(2000).unwrap();
    println!("{:?} \n", buy_result);
    assert_eq!(buy_result.token_amount, 500); // Should buy up to available real_token_reserves
    assert_eq!(buy_result.sol_amount, 3001);
    assert_eq!(amm.real_token_reserves, real_token_reserves - buy_result.token_amount as u128);
    assert_eq!(
        amm.virtual_token_reserves,
        virtual_token_reserves - buy_result.token_amount as u128
    );
    assert_eq!(amm.real_sol_reserves, real_sol_reserves + buy_result.sol_amount as u128);
    assert_eq!(amm.virtual_sol_reserves, virtual_sol_reserves + buy_result.sol_amount as u128);
    println!("{:?} \n", amm);
    println!("{:?} \n", buy_result);

    // Attempt to sell more tokens than available in reserves
    let sell_result = amm.apply_sell(2000).unwrap();
    assert_eq!(sell_result.token_amount, 2000); // Should sell requested amount
    assert_eq!(sell_result.sol_amount, 3001);
    assert_eq!(amm.real_sol_reserves, 0);
    assert_eq!(amm.virtual_sol_reserves, 600);
    assert_eq!(amm.real_token_reserves, 2000);
    assert_eq!(amm.virtual_token_reserves, 2100);
    println!("{:?} \n", amm);
    println!("{:?} \n", sell_result);
}

#[test]
fn test_apply_sell() {
    let mut amm = AMM::new(1000, 1000, 500, 500, 1000);
    let result = amm.apply_sell(100).unwrap();

    assert_eq!(result.token_amount, 100);
    assert_eq!(result.sol_amount, 90);
    assert_eq!(amm.virtual_token_reserves, 1100);
    assert_eq!(amm.real_token_reserves, 600);
    assert_eq!(amm.virtual_sol_reserves, 910);
    assert_eq!(amm.real_sol_reserves, 410);
}

#[test]
fn test_get_sell_price() {
    let amm = AMM::new(1000, 1000, 500, 500, 1000);

    // Edge case: zero tokens
    assert_eq!(amm.get_sell_price(0), None);

    // Normal case
    assert_eq!(amm.get_sell_price(100), Some(100));

    // Should not exceed real sol reserves
    assert_eq!(amm.get_sell_price(5000), None);
}

#[test]
fn test_apply_buy() {
    let virtual_sol_reserves = 600;
    let virtual_token_reserves = 600;
    let real_sol_reserves = 500;
    let real_token_reserves = 500;
    let initial_virtual_token_reserves = 1000;

    let mut amm = AMM::new(
        virtual_sol_reserves,
        virtual_token_reserves,
        real_sol_reserves,
        real_token_reserves,
        initial_virtual_token_reserves,
    );

    let purchase_amount = 100;

    let result = amm.apply_buy(100).unwrap();

    assert_eq!(result.token_amount, purchase_amount as u64);
    assert_eq!(result.sol_amount, 121);
    assert_eq!(amm.virtual_token_reserves, virtual_token_reserves - purchase_amount);
    assert_eq!(amm.real_token_reserves, real_token_reserves - purchase_amount);
    assert_eq!(amm.virtual_sol_reserves, 721);
    assert_eq!(amm.real_sol_reserves, 621);
}

#[test]
fn test_get_buy_price() {
    let amm = AMM::new(1000, 1000, 500, 500, 1000);

    assert_eq!(amm.get_buy_price(0), None);

    // Normal case
    assert_eq!(amm.get_buy_price(100), Some(112));

    // Edge case: very large token amount
    assert_eq!(amm.get_buy_price(2000), None);
}

#[test]
fn test_buy_price_whole_virtual_reserve_fails() {
    // Removing the entire virtual reserve would divide by zero: refused.
    let amm = AMM::new(1000, 1000, 1000, 1000, 1000);
    assert_eq!(amm.get_buy_price(1000), None);
    assert_eq!(amm.get_buy_price(999), Some(999_001));
}

#[test]
fn test_sell_price_clamps_to_real_sol_reserves() {
    // The proportional payout (500) exceeds the real reserve (100).
    let amm = AMM::new(1000, 1000, 100, 500, 1000);
    assert_eq!(amm.get_sell_price(500), Some(100));
}

#[test]
fn test_buy_clamp_never_over_delivers() {
    // Any request at or above the real token reserve fills exactly the
    // reserve, for the same price.
    let mut a = AMM::new(600, 600, 0, 500, 1000);
    let mut b = AMM::new(600, 600, 0, 500, 1000);
    let ra = a.apply_buy(500).unwrap();
    let rb = b.apply_buy(u64::MAX as u128).unwrap();
    assert_eq!(ra.token_amount, 500);
    assert_eq!(rb.token_amount, 500);
    assert_eq!(ra.sol_amount, rb.sol_amount);
    assert_eq!(a, b);
}

#[test]
fn test_buy_then_sell_same_amount_keeps_a_sol_margin() {
    // A buy of x then a sell of x restores the token reserves but leaves
    // the currency reserves strictly higher: the asymmetry is real.
    let mut amm = AMM::new(1000, 1000, 500, 500, 1000);
    let buy = amm.apply_buy(100).unwrap();
    assert_eq!(buy.sol_amount, 112);
    let sell = amm.apply_sell(100).unwrap();
    assert_eq!(sell.sol_amount, 111);
    assert_eq!(amm.virtual_token_reserves, 1000);
    assert_eq!(amm.real_token_reserves, 500);
    // The exact non-zero delta kept by the curve:
    assert_eq!(amm.virtual_sol_reserves, 1001);
    assert_eq!(amm.real_sol_reserves, 501);
    assert_eq!(buy.sol_amount - sell.sol_amount, 1);
}

#[test]
fn test_apply_buy_zero_request_fails_without_mutation() {
    let mut amm = AMM::new(600, 600, 0, 500, 1000);
    assert!(amm.apply_buy(0).is_none());
    assert_eq!(amm, AMM::new(600, 600, 0, 500, 1000));
}

#[test]
fn test_apply_sell_zero_amount_fails_without_mutation() {
    let mut amm = AMM::new(1000, 1000, 500, 500, 1000);
    assert!(amm.apply_sell(0).is_none());
    assert_eq!(amm, AMM::new(1000, 1000, 500, 500, 1000));
}
