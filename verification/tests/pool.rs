use nep141_token_convertor_contract::conversion_pool::ConversionPool;
use nep141_token_convertor_contract::types::ConvertorError;

fn s(x: &str) -> String {
    x.to_string()
}

fn pool(reversible: bool, in_rate: u32, out_rate: u32) -> ConversionPool {
    ConversionPool::new(1, s("creator"), s("tok_a"), s("tok_b"), reversible, in_rate, out_rate, 1000)
        .unwrap()
}

#[test]
fn new_pool_rejects_zero_rates() {
    let r = ConversionPool::new(1, s("c"), s("a"), s("b"), true, 0, 1, 0);
    assert_eq!(r.unwrap_err(), ConvertorError::InvalidRate);
    let r = ConversionPool::new(1, s("c"), s("a"), s("b"), true, 1, 0, 0);
    assert_eq!(r.unwrap_err(), ConvertorError::InvalidRate);
}

#[test]
fn new_pool_starts_empty() {
    let p = pool(true, 1, 1);
    assert_eq!(p.in_token_balance, 0);
    assert_eq!(p.out_token_balance, 0);
    assert_eq!(p.deposit_near_amount, 1000);
}

#[test]
fn non_reversible_pool_scenario() {
    // Non-reversible 1:1 pool holding 100 of the in-token and none of the
    // out-token: converting zero units is a no-op, and converting from the
    // out-token side is refused.
    let mut p = pool(false, 1, 1);
    p.add_liquidity(&s("tok_a"), 100).unwrap();
    assert_eq!(p.in_token_balance, 100);
    assert_eq!(p.out_token_balance, 0);

    let (tok, amt) = p.convert(&s("tok_a"), 0).unwrap();
    assert_eq!(tok, s("tok_b"));
    assert_eq!(amt, 0);
    assert_eq!(p.in_token_balance, 100);
    assert_eq!(p.out_token_balance, 0);

    let r = p.convert(&s("tok_b"), 10);
    assert_eq!(r.unwrap_err(), ConvertorError::DirectionNotAllowed);
}

#[test]
fn add_liquidity_permits_either_side() {
    // Adding out-side liquidity does not require reversibility, and on a
    // non-reversible pool even the in-side add is permitted.
    let mut p = pool(false, 1, 1);
    p.add_liquidity(&s("tok_b"), 70).unwrap();
    p.add_liquidity(&s("tok_a"), 30).unwrap();
    assert_eq!(p.in_token_balance, 30);
    assert_eq!(p.out_token_balance, 70);
    assert_eq!(p.add_liquidity(&s("tok_c"), 1).unwrap_err(), ConvertorError::IllegalToken);
}

#[test]
fn convert_moves_exactly_the_computed_amounts() {
    // 10:9 pool: 100 in-tokens buy floor(100 * 9 / 10) = 90 out-tokens.
    let mut p = pool(true, 10, 9);
    p.add_liquidity(&s("tok_b"), 90).unwrap();
    let (tok, amt) = p.convert(&s("tok_a"), 100).unwrap();
    assert_eq!(tok, s("tok_b"));
    assert_eq!(amt, 90);
    assert_eq!(p.in_token_balance, 100);
    assert_eq!(p.out_token_balance, 0);
}

#[test]
fn convert_reverse_direction_on_reversible_pool() {
    let mut p = pool(true, 10, 9);
    p.add_liquidity(&s("tok_a"), 100).unwrap();
    // 90 out-tokens buy back floor(90 * 10 / 9) = 100 in-tokens.
    let (tok, amt) = p.convert(&s("tok_b"), 90).unwrap();
    assert_eq!(tok, s("tok_a"));
    assert_eq!(amt, 100);
    assert_eq!(p.in_token_balance, 0);
    assert_eq!(p.out_token_balance, 90);
}

#[test]
fn convert_rejects_foreign_token() {
    let mut p = pool(true, 1, 1);
    assert_eq!(p.convert(&s("tok_c"), 1).unwrap_err(), ConvertorError::IllegalToken);
}

#[test]
fn convert_needs_enough_output_liquidity() {
    let mut p = pool(true, 1, 1);
    p.add_liquidity(&s("tok_b"), 5).unwrap();
    let r = p.convert(&s("tok_a"), 6);
    assert_eq!(r.unwrap_err(), ConvertorError::InsufficientPoolBalance);
    // The refused conversion left the balances untouched.
    assert_eq!(p.in_token_balance, 0);
    assert_eq!(p.out_token_balance, 5);
}

#[test]
fn deposit_overflow_is_refused() {
    let mut p = pool(true, 1, 1);
    p.add_liquidity(&s("tok_a"), u128::MAX).unwrap();
    assert_eq!(p.add_liquidity(&s("tok_a"), 1).unwrap_err(), ConvertorError::Overflow);
    assert_eq!(p.in_token_balance, u128::MAX);
}

#[test]
fn withdraw_specific_and_all() {
    let mut p = pool(true, 1, 1);
    p.add_liquidity(&s("tok_a"), 100).unwrap();
    p.add_liquidity(&s("tok_b"), 40).unwrap();
    assert_eq!(p.withdraw_in_token(Some(30)).unwrap(), 30);
    assert_eq!(p.in_token_balance, 70);
    assert_eq!(
        p.withdraw_in_token(Some(71)).unwrap_err(),
        ConvertorError::InsufficientPoolBalance
    );
    assert_eq!(p.withdraw_in_token(None).unwrap(), 70);
    assert_eq!(p.in_token_balance, 0);
    assert_eq!(p.withdraw_out_token(None).unwrap(), 40);
    assert_eq!(p.out_token_balance, 0);
    // Draining an empty side again releases nothing.
    assert_eq!(p.withdraw_out_token(None).unwrap(), 0);
}

#[test]
fn calculate_output_amounts() {
    let p = pool(true, 10, 9);
    assert_eq!(p.calculate_output_token_amount(100).unwrap(), 90);
    assert_eq!(p.calculate_reverse_output_token_amount(90).unwrap(), 100);
}
