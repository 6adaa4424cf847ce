use nep141_token_convertor_contract::account::{
    quota_available, quota_debt, required_quota, Account, VAccount, INIT_ACCOUNT_STORAGE,
    TOKEN_ENTRY_STORAGE,
};
use nep141_token_convertor_contract::types::ConvertorError;

fn s(x: &str) -> String {
    x.to_string()
}

#[test]
fn quota_formula_scenario() {
    // Two custodial entries at base cost 100 and per-entry cost 50 require
    // a quota of 200; holding 150 leaves a debt of 50 and nothing spare.
    assert_eq!(required_quota(2, 100, 50), 200);
    assert_eq!(quota_debt(200, 150), 50);
    assert_eq!(quota_available(200, 150), 0);
}

#[test]
fn quota_debt_and_available_are_never_both_positive() {
    for &(required, held) in &[(0u128, 0u128), (10, 3), (3, 10), (7, 7)] {
        let debt = quota_debt(required, held);
        let available = quota_available(required, held);
        assert!(!(debt > 0 && available > 0));
        assert_eq!(debt, required.saturating_sub(held));
        assert_eq!(available, held.saturating_sub(required));
    }
}

#[test]
fn fresh_account_is_empty() {
    let a = Account::new();
    assert_eq!(a.near_amount_for_storage, 0);
    assert_eq!(a.tokens.len(), 0);
    assert_eq!(a.in_flight_transfer_count, 0);
}

#[test]
fn deposit_token_accumulates_per_token() {
    let mut a = Account::new();
    a.deposit_token(&s("usdc"), 10).unwrap();
    a.deposit_token(&s("usdc"), 5).unwrap();
    a.deposit_token(&s("usdt"), 7).unwrap();
    assert_eq!(a.tokens.len(), 2);
    assert_eq!(a.withdraw_all_token(&s("usdc")).unwrap(), 15);
    assert_eq!(a.withdraw_all_token(&s("usdt")).unwrap(), 7);
    assert_eq!(a.tokens.len(), 0);
}

#[test]
fn deposit_token_overflow_is_refused() {
    let mut a = Account::new();
    a.deposit_token(&s("usdc"), u128::MAX).unwrap();
    assert_eq!(a.deposit_token(&s("usdc"), 1).unwrap_err(), ConvertorError::Overflow);
    assert_eq!(a.withdraw_all_token(&s("usdc")).unwrap(), u128::MAX);
}

#[test]
fn withdraw_nonexistent_token_is_refused() {
    let mut a = Account::new();
    assert_eq!(
        a.withdraw_all_token(&s("usdc")).unwrap_err(),
        ConvertorError::NoSuchTokenBalance
    );
    // Draining an absent entry fails rather than returning zero, and the
    // same holds once a withdrawn entry has left the record.
    a.deposit_token(&s("usdc"), 1).unwrap();
    a.withdraw_all_token(&s("usdc")).unwrap();
    assert_eq!(
        a.withdraw_all_token(&s("usdc")).unwrap_err(),
        ConvertorError::NoSuchTokenBalance
    );
}

#[test]
fn storage_usage_counts_the_entries() {
    let mut a = Account::new();
    assert_eq!(a.storage_usage(), INIT_ACCOUNT_STORAGE);
    a.deposit_token(&s("usdc"), 1).unwrap();
    a.deposit_token(&s("usdt"), 1).unwrap();
    assert_eq!(a.storage_usage(), INIT_ACCOUNT_STORAGE + 2 * TOKEN_ENTRY_STORAGE);
    assert_eq!(a.storage_cost(10), (INIT_ACCOUNT_STORAGE as u128 + 2 * TOKEN_ENTRY_STORAGE as u128) * 10);
}

#[test]
fn storage_debt_and_available_balance() {
    let mut a = Account::new();
    a.deposit_token(&s("usdc"), 1).unwrap();
    let cost = a.storage_cost(10);
    a.near_amount_for_storage = cost - 40;
    assert_eq!(a.storage_debt(10), 40);
    assert_eq!(a.storage_available_balance(10), 0);
    a.near_amount_for_storage = cost + 25;
    assert_eq!(a.storage_debt(10), 0);
    assert_eq!(a.storage_available_balance(10), 25);
}

#[test]
fn transfer_lock_counts_up_and_down() {
    let mut a = Account::new();
    a.plus_ft_transfer_lock();
    a.plus_ft_transfer_lock();
    assert_eq!(a.in_flight_transfer_count, 2);
    a.minus_ft_transfer_lock();
    assert_eq!(a.in_flight_transfer_count, 1);
}

#[test]
fn versioned_account_upgrades_to_current() {
    let mut a = Account::new();
    a.deposit_token(&s("usdc"), 3).unwrap();
    let near_amount = a.near_amount_for_storage;
    let wrapped = VAccount::Current(a);
    let back = wrapped.into_current(&s("alice"));
    assert_eq!(back.near_amount_for_storage, near_amount);
    assert_eq!(back.tokens.len(), 1);
}
