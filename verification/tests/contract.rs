use nep141_token_convertor_contract::token_receiver::{ConvertAction, TransferMessage};
use nep141_token_convertor_contract::types::{ConvertorError, FtMetaData, TransferOutcome};
use nep141_token_convertor_contract::TokenConvertor;

fn s(x: &str) -> String {
    x.to_string()
}

/// A ledger owned by "owner", pool collateral 1000, one storage byte
/// priced at 10, with "usdc" and "usdt" whitelisted at 6 decimals and
/// "weird" at 8.
fn setup() -> TokenConvertor {
    let mut c = TokenConvertor::new(s("owner"), 1000, 10);
    c.extend_whitelisted_tokens(
        &s("owner"),
        vec![
            FtMetaData { token_id: s("usdc"), decimals: 6 },
            FtMetaData { token_id: s("usdt"), decimals: 6 },
            FtMetaData { token_id: s("weird"), decimals: 8 },
        ],
    )
    .unwrap();
    c
}

/// Registers a participant with plenty of quota.
fn register(c: &mut TokenConvertor, who: &str) {
    c.storage_deposit(&s(who), None, None, 1_000_000).unwrap();
}

#[test]
fn owner_gates_the_admin_surface() {
    let mut c = setup();
    assert_eq!(
        c.set_owner(&s("mallory"), s("mallory")).unwrap_err(),
        ConvertorError::NotAuthorized
    );
    assert_eq!(
        c.extend_whitelisted_tokens(&s("mallory"), vec![]).unwrap_err(),
        ConvertorError::NotAuthorized
    );
    assert_eq!(
        c.set_deposit_amount_of_pool_creation(&s("mallory"), 1).unwrap_err(),
        ConvertorError::NotAuthorized
    );
    assert_eq!(c.pause_contract(&s("mallory")).unwrap_err(), ConvertorError::NotAuthorized);
    c.set_owner(&s("owner"), s("admin")).unwrap();
    assert_eq!(c.get_owner(), s("admin"));
    c.set_deposit_amount_of_pool_creation(&s("admin"), 5).unwrap();
    assert_eq!(c.get_deposit_amount_of_pool_creation(), 5);
}

#[test]
fn whitelist_extend_and_remove() {
    let mut c = setup();
    let listed = c.get_whitelist();
    assert_eq!(listed.len(), 3);
    assert_eq!(listed[0].token_id, s("usdc"));
    assert_eq!(listed[0].decimals, 6);
    // A later entry for the same token overrides the earlier decimals.
    c.extend_whitelisted_tokens(
        &s("owner"),
        vec![FtMetaData { token_id: s("usdc"), decimals: 9 }],
    )
    .unwrap();
    let listed = c.get_whitelist();
    assert_eq!(listed.len(), 3);
    assert_eq!(listed[0].decimals, 9);
    c.remove_whitelisted_tokens(&s("owner"), vec![s("usdc"), s("absent")]).unwrap();
    assert_eq!(c.get_whitelist().len(), 2);
}

#[test]
fn pause_and_resume() {
    let mut c = setup();
    assert_eq!(c.resume_contract(&s("owner")).unwrap_err(), ConvertorError::ContractNotPaused);
    c.pause_contract(&s("owner")).unwrap();
    assert!(c.is_contract_paused());
    assert_eq!(c.pause_contract(&s("owner")).unwrap_err(), ConvertorError::ContractPaused);
    let r = c.create_pool(&s("creator"), 1000, &s("usdc"), &s("usdt"), true, 1, 1);
    assert_eq!(r.unwrap_err(), ConvertorError::ContractPaused);
    c.resume_contract(&s("owner")).unwrap();
    assert!(!c.is_contract_paused());
}

#[test]
fn create_pool_validations() {
    let mut c = setup();
    assert_eq!(
        c.create_pool(&s("cr"), 1000, &s("usdc"), &s("usdc"), true, 1, 1).unwrap_err(),
        ConvertorError::DuplicatePoolAssets
    );
    assert_eq!(
        c.create_pool(&s("cr"), 999, &s("usdc"), &s("usdt"), true, 1, 1).unwrap_err(),
        ConvertorError::InvalidDeposit
    );
    assert_eq!(
        c.create_pool(&s("cr"), 1000, &s("unknown"), &s("usdt"), true, 1, 1).unwrap_err(),
        ConvertorError::TokenNotWhitelisted
    );
    assert_eq!(
        c.create_pool(&s("cr"), 1000, &s("usdc"), &s("weird"), true, 1, 1).unwrap_err(),
        ConvertorError::DecimalsMismatch
    );
    assert_eq!(
        c.create_pool(&s("cr"), 1000, &s("usdc"), &s("usdt"), true, 0, 1).unwrap_err(),
        ConvertorError::InvalidRate
    );
    assert_eq!(c.create_pool(&s("cr"), 1000, &s("usdc"), &s("usdt"), true, 1, 1).unwrap(), 1);
}

#[test]
fn pool_ids_are_monotonic_and_never_reused() {
    let mut c = setup();
    let id1 = c.create_pool(&s("cr"), 1000, &s("usdc"), &s("usdt"), true, 1, 1).unwrap();
    let id2 = c.create_pool(&s("cr"), 1000, &s("usdt"), &s("usdc"), true, 1, 1).unwrap();
    assert_eq!((id1, id2), (1, 2));
    c.delete_pool(&s("cr"), id2).unwrap();
    let id3 = c.create_pool(&s("cr"), 1000, &s("usdt"), &s("usdc"), true, 1, 1).unwrap();
    assert_eq!(id3, 3);
}

#[test]
fn add_liquidity_through_deposit_notification() {
    let mut c = setup();
    c.create_pool(&s("cr"), 1000, &s("usdc"), &s("usdt"), false, 1, 1).unwrap();
    // Only the pool's creator may pay liquidity in.
    let r = c.ft_on_transfer(
        &s("mallory"),
        10,
        TransferMessage::AddLiquidity { pool_id: 1 },
        &s("usdc"),
    );
    assert_eq!(r.unwrap_err(), ConvertorError::NotAuthorized);
    // An unknown pool is refused.
    let r = c.ft_on_transfer(&s("cr"), 10, TransferMessage::AddLiquidity { pool_id: 9 }, &s("usdc"));
    assert_eq!(r.unwrap_err(), ConvertorError::NoSuchPool);
    // The creator's deposit lands on the matching side, fully consumed.
    let (unused, action) = c
        .ft_on_transfer(&s("cr"), 10, TransferMessage::AddLiquidity { pool_id: 1 }, &s("usdc"))
        .unwrap();
    assert_eq!(unused, 0);
    assert!(action.is_none());
    let pools = c.get_pools(0, 10);
    assert_eq!(pools[0].in_token_balance, 10);
    assert_eq!(pools[0].out_token_balance, 0);
}

#[test]
fn convert_through_deposit_notification() {
    let mut c = setup();
    register(&mut c, "user");
    c.create_pool(&s("cr"), 1000, &s("usdc"), &s("usdt"), true, 10, 9).unwrap();
    c.ft_on_transfer(&s("cr"), 90, TransferMessage::AddLiquidity { pool_id: 1 }, &s("usdt"))
        .unwrap();
    // The declared token and amount must match what actually arrived.
    let mismatch = TransferMessage::Convert {
        convert_action: ConvertAction {
            pool_id: 1,
            input_token_id: s("usdt"),
            input_token_amount: 100,
        },
    };
    assert_eq!(
        c.ft_on_transfer(&s("user"), 100, mismatch, &s("usdc")).unwrap_err(),
        ConvertorError::MessageMismatch
    );
    // 100 usdc at 10:9 buys 90 usdt, dispatched back to the sender.
    let msg = TransferMessage::Convert {
        convert_action: ConvertAction {
            pool_id: 1,
            input_token_id: s("usdc"),
            input_token_amount: 100,
        },
    };
    let (unused, action) = c.ft_on_transfer(&s("user"), 100, msg, &s("usdc")).unwrap();
    assert_eq!(unused, 0);
    let action = action.unwrap();
    assert_eq!(action.receiver_id, s("user"));
    assert_eq!(action.token_id, s("usdt"));
    assert_eq!(action.amount, 90);
    let pools = c.get_pools(0, 10);
    assert_eq!(pools[0].in_token_balance, 100);
    assert_eq!(pools[0].out_token_balance, 0);
    // The dispatch is still unacknowledged.
    let view = c.get_account(&s("user")).unwrap();
    assert_eq!(view.tokens.len(), 0);
    c.ft_transfer_resolved(&s("usdt"), &s("user"), 90, 1, TransferOutcome::Success).unwrap();
}

#[test]
fn convert_requires_registered_sender() {
    let mut c = setup();
    c.create_pool(&s("cr"), 1000, &s("usdc"), &s("usdt"), true, 1, 1).unwrap();
    c.ft_on_transfer(&s("cr"), 50, TransferMessage::AddLiquidity { pool_id: 1 }, &s("usdt"))
        .unwrap();
    let msg = TransferMessage::Convert {
        convert_action: ConvertAction {
            pool_id: 1,
            input_token_id: s("usdc"),
            input_token_amount: 10,
        },
    };
    assert_eq!(
        c.ft_on_transfer(&s("user"), 10, msg, &s("usdc")).unwrap_err(),
        ConvertorError::NoSuchAccount
    );
    // Nothing was committed by the refused request.
    assert_eq!(c.get_pools(0, 10)[0].out_token_balance, 50);
    assert_eq!(c.get_pools(0, 10)[0].in_token_balance, 0);
}

#[test]
fn failed_transfer_is_compensated() {
    // A failed external transfer followed by resolution credits exactly
    // the dispatched amount back to the receiver's custodial balance and
    // returns the in-flight counter to its pre-dispatch value.
    let mut c = setup();
    register(&mut c, "user");
    c.create_pool(&s("cr"), 1000, &s("usdc"), &s("usdt"), true, 1, 1).unwrap();
    c.ft_on_transfer(&s("cr"), 40, TransferMessage::AddLiquidity { pool_id: 1 }, &s("usdt"))
        .unwrap();
    let msg = TransferMessage::Convert {
        convert_action: ConvertAction {
            pool_id: 1,
            input_token_id: s("usdc"),
            input_token_amount: 40,
        },
    };
    let (_, action) = c.ft_on_transfer(&s("user"), 40, msg, &s("usdc")).unwrap();
    let action = action.unwrap();
    assert_eq!(action.amount, 40);
    c.ft_transfer_resolved(&s("usdt"), &s("user"), 40, 1, TransferOutcome::Failure).unwrap();
    let view = c.get_account(&s("user")).unwrap();
    assert_eq!(view.tokens.len(), 1);
    assert_eq!(view.tokens[0].0, s("usdt"));
    assert_eq!(view.tokens[0].1, 40);
    // The counter is back at zero: a second acknowledgment is a protocol
    // violation and changes nothing.
    assert_eq!(
        c.ft_transfer_resolved(&s("usdt"), &s("user"), 40, 1, TransferOutcome::Failure)
            .unwrap_err(),
        ConvertorError::UnexpectedAckCount
    );
}

#[test]
fn acknowledgment_must_match_one_dispatch() {
    let mut c = setup();
    register(&mut c, "user");
    assert_eq!(
        c.ft_transfer_resolved(&s("usdc"), &s("user"), 5, 0, TransferOutcome::Success)
            .unwrap_err(),
        ConvertorError::UnexpectedAckCount
    );
    assert_eq!(
        c.ft_transfer_resolved(&s("usdc"), &s("user"), 5, 2, TransferOutcome::Success)
            .unwrap_err(),
        ConvertorError::UnexpectedAckCount
    );
    assert_eq!(
        c.ft_transfer_resolved(&s("usdc"), &s("stranger"), 5, 1, TransferOutcome::Success)
            .unwrap_err(),
        ConvertorError::UnexpectedAckCount
    );
    // The receiver exists but has no outstanding dispatch.
    assert_eq!(
        c.ft_transfer_resolved(&s("usdc"), &s("user"), 5, 1, TransferOutcome::Success)
            .unwrap_err(),
        ConvertorError::UnexpectedAckCount
    );
}

#[test]
fn withdraw_custodial_balance_dispatches_it_back() {
    let mut c = setup();
    register(&mut c, "user");
    register(&mut c, "cr");
    c.create_pool(&s("cr"), 1000, &s("usdc"), &s("usdt"), true, 1, 1).unwrap();
    c.ft_on_transfer(&s("cr"), 25, TransferMessage::AddLiquidity { pool_id: 1 }, &s("usdt"))
        .unwrap();
    let msg = TransferMessage::Convert {
        convert_action: ConvertAction {
            pool_id: 1,
            input_token_id: s("usdc"),
            input_token_amount: 25,
        },
    };
    c.ft_on_transfer(&s("user"), 25, msg, &s("usdc")).unwrap();
    c.ft_transfer_resolved(&s("usdt"), &s("user"), 25, 1, TransferOutcome::Failure).unwrap();
    // The compensation sits in the custodial balance; withdrawing it
    // dispatches a fresh transfer and removes the entry.
    assert_eq!(
        c.withdraw_token_in_account(&s("user"), &s("dai")).unwrap_err(),
        ConvertorError::NoSuchTokenBalance
    );
    let action = c.withdraw_token_in_account(&s("user"), &s("usdt")).unwrap().unwrap();
    assert_eq!(action.receiver_id, s("user"));
    assert_eq!(action.token_id, s("usdt"));
    assert_eq!(action.amount, 25);
    assert_eq!(c.get_account(&s("user")).unwrap().tokens.len(), 0);
    c.ft_transfer_resolved(&s("usdt"), &s("user"), 25, 1, TransferOutcome::Success).unwrap();
    assert_eq!(
        c.withdraw_token_in_account(&s("stranger"), &s("usdt")).unwrap_err(),
        ConvertorError::NoSuchAccount
    );
}

#[test]
fn withdraw_pool_liquidity_and_delete() {
    let mut c = setup();
    register(&mut c, "cr");
    c.create_pool(&s("cr"), 1000, &s("usdc"), &s("usdt"), true, 1, 1).unwrap();
    c.ft_on_transfer(&s("cr"), 10, TransferMessage::AddLiquidity { pool_id: 1 }, &s("usdc"))
        .unwrap();
    assert_eq!(c.get_pools(0, 1)[0].in_token_balance, 10);
    // Only the creator or the owner may drain a pool.
    assert_eq!(
        c.withdraw_token_in_pool(&s("mallory"), 1, &s("usdc"), None).unwrap_err(),
        ConvertorError::NotAuthorized
    );
    assert_eq!(
        c.withdraw_token_in_pool(&s("cr"), 1, &s("dai"), None).unwrap_err(),
        ConvertorError::IllegalToken
    );
    assert_eq!(
        c.withdraw_token_in_pool(&s("cr"), 1, &s("usdc"), Some(11)).unwrap_err(),
        ConvertorError::InsufficientPoolBalance
    );
    // A pool still holding value cannot be deleted.
    assert_eq!(c.delete_pool(&s("cr"), 1).unwrap_err(), ConvertorError::NonEmptyPool);
    let action = c.withdraw_token_in_pool(&s("cr"), 1, &s("usdc"), None).unwrap().unwrap();
    assert_eq!(action.receiver_id, s("cr"));
    assert_eq!(action.amount, 10);
    assert_eq!(c.get_pools(0, 1)[0].in_token_balance, 0);
    c.ft_transfer_resolved(&s("usdc"), &s("cr"), 10, 1, TransferOutcome::Success).unwrap();
    // Draining the empty side releases nothing and dispatches nothing.
    assert!(c.withdraw_token_in_pool(&s("cr"), 1, &s("usdt"), None).unwrap().is_none());
    // Both sides are empty now: deletion refunds the collateral.
    assert_eq!(c.delete_pool(&s("mallory"), 1).unwrap_err(), ConvertorError::NotAuthorized);
    let payout = c.delete_pool(&s("cr"), 1).unwrap().unwrap();
    assert_eq!(payout.receiver_id, s("cr"));
    assert_eq!(payout.amount, 1000);
    assert_eq!(c.delete_pool(&s("cr"), 1).unwrap_err(), ConvertorError::NoSuchPool);
    assert_eq!(c.get_pools(0, 10).len(), 0);
}

#[test]
fn storage_deposit_withdraw_unregister() {
    let mut c = setup();
    // Registration requires the unregistered minimum: 258 bytes at 10.
    assert_eq!(c.storage_balance_bounds().unwrap().min, 2580);
    assert_eq!(
        c.storage_deposit(&s("user"), None, None, 2579).unwrap_err(),
        ConvertorError::QuotaDebt
    );
    let (balance, refund) = c.storage_deposit(&s("user"), None, None, 10_000).unwrap();
    assert_eq!(refund, 0);
    assert_eq!(balance.total, 10_000);
    // A fresh record occupies 90 bytes: cost 900, the rest is spare.
    assert_eq!(balance.available, 9_100);
    // Withdrawing more than the spare part is refused.
    assert_eq!(
        c.storage_withdraw(&s("user"), Some(9_101)).unwrap_err(),
        ConvertorError::InsufficientQuotaBalance
    );
    let (balance, payout) = c.storage_withdraw(&s("user"), Some(100)).unwrap();
    assert_eq!(payout, 100);
    assert_eq!(balance.total, 9_900);
    assert_eq!(balance.available, 9_000);
    let (balance, payout) = c.storage_withdraw(&s("user"), None).unwrap();
    assert_eq!(payout, 9_000);
    assert_eq!(balance.total, 900);
    assert_eq!(balance.available, 0);
    // Unregistering refunds whatever quota remains.
    let (removed, refund) = c.storage_unregister(&s("user"), None).unwrap();
    assert!(removed);
    assert_eq!(refund, 900);
    let (removed, refund) = c.storage_unregister(&s("user"), None).unwrap();
    assert!(!removed);
    assert_eq!(refund, 0);
    assert_eq!(
        c.storage_withdraw(&s("user"), None).unwrap_err(),
        ConvertorError::NoSuchAccount
    );
}

#[test]
fn storage_deposit_registration_only_refunds_the_rest() {
    let mut c = setup();
    let (balance, refund) = c.storage_deposit(&s("user"), None, Some(true), 10_000).unwrap();
    assert_eq!(balance.total, 2_580);
    assert_eq!(refund, 7_420);
    // Depositing on behalf of someone else credits that record.
    let (balance, _) = c.storage_deposit(&s("user"), Some(s("friend")), None, 5_000).unwrap();
    assert_eq!(balance.total, 5_000);
    assert!(c.get_account(&s("friend")).is_some());
    assert!(c.storage_balance_of(&s("friend")).unwrap().is_some());
    assert!(c.storage_balance_of(&s("nobody")).unwrap().is_none());
}

#[test]
fn unregister_is_blocked_by_custody_and_in_flight_transfers() {
    let mut c = setup();
    register(&mut c, "user");
    register(&mut c, "cr");
    c.create_pool(&s("cr"), 1000, &s("usdc"), &s("usdt"), true, 1, 1).unwrap();
    c.ft_on_transfer(&s("cr"), 30, TransferMessage::AddLiquidity { pool_id: 1 }, &s("usdt"))
        .unwrap();
    let msg = TransferMessage::Convert {
        convert_action: ConvertAction {
            pool_id: 1,
            input_token_id: s("usdc"),
            input_token_amount: 30,
        },
    };
    c.ft_on_transfer(&s("user"), 30, msg, &s("usdc")).unwrap();
    // The dispatch is unresolved: unregistering would race it.
    assert_eq!(
        c.storage_unregister(&s("user"), None).unwrap_err(),
        ConvertorError::TransferInFlight
    );
    c.ft_transfer_resolved(&s("usdt"), &s("user"), 30, 1, TransferOutcome::Failure).unwrap();
    // The compensation left a custodial balance behind.
    assert_eq!(
        c.storage_unregister(&s("user"), None).unwrap_err(),
        ConvertorError::AccountNotEmpty
    );
    let action = c.withdraw_token_in_account(&s("user"), &s("usdt")).unwrap().unwrap();
    c.ft_transfer_resolved(&s("usdt"), &s("user"), action.amount, 1, TransferOutcome::Success)
        .unwrap();
    assert!(c.storage_unregister(&s("user"), None).unwrap().0);
}

#[test]
fn quota_debt_blocks_outbound_dispatch() {
    let mut c = setup();
    // Register with exactly the bare minimum; the extra custodial entry a
    // compensation adds pushes the required bound above what is held.
    c.storage_deposit(&s("user"), None, Some(true), 10_000).unwrap();
    c.create_pool(&s("cr"), 1000, &s("usdc"), &s("usdt"), true, 1, 1).unwrap();
    c.ft_on_transfer(&s("cr"), 30, TransferMessage::AddLiquidity { pool_id: 1 }, &s("usdt"))
        .unwrap();
    let msg = TransferMessage::Convert {
        convert_action: ConvertAction {
            pool_id: 1,
            input_token_id: s("usdc"),
            input_token_amount: 20,
        },
    };
    c.ft_on_transfer(&s("user"), 20, msg, &s("usdc")).unwrap();
    c.ft_transfer_resolved(&s("usdt"), &s("user"), 20, 1, TransferOutcome::Failure).unwrap();
    // Held: 2580. Required to dispatch with one custodial entry:
    // (90 + 84 + 168) * 10 = 3420.
    assert_eq!(c.get_storage_fee_gap_of(&s("user")).unwrap(), 840);
    let msg = TransferMessage::Convert {
        convert_action: ConvertAction {
            pool_id: 1,
            input_token_id: s("usdc"),
            input_token_amount: 10,
        },
    };
    let refused = c.ft_on_transfer(&s("user"), 10, msg, &s("usdc"));
    assert_eq!(refused.unwrap_err(), ConvertorError::QuotaDebt);
    // The refused request committed nothing.
    assert_eq!(c.get_pools(0, 1)[0].in_token_balance, 20);
    assert_eq!(c.get_pools(0, 1)[0].out_token_balance, 10);
    // Topping the quota up unblocks the dispatch.
    c.storage_deposit(&s("user"), None, None, 840).unwrap();
    assert_eq!(c.get_storage_fee_gap_of(&s("user")).unwrap(), 0);
    let msg = TransferMessage::Convert {
        convert_action: ConvertAction {
            pool_id: 1,
            input_token_id: s("usdc"),
            input_token_amount: 10,
        },
    };
    assert!(c.ft_on_transfer(&s("user"), 10, msg, &s("usdc")).unwrap().1.is_some());
    c.ft_transfer_resolved(&s("usdt"), &s("user"), 10, 1, TransferOutcome::Success).unwrap();
}

#[test]
fn pool_listing_pagination_and_creator_filter() {
    let mut c = setup();
    c.create_pool(&s("alice"), 1000, &s("usdc"), &s("usdt"), true, 1, 1).unwrap();
    c.create_pool(&s("bob"), 1000, &s("usdt"), &s("usdc"), true, 1, 2).unwrap();
    c.create_pool(&s("alice"), 1000, &s("usdt"), &s("usdc"), false, 2, 1).unwrap();
    assert_eq!(c.get_pools(0, 10).len(), 3);
    assert_eq!(c.get_pools(1, 1).len(), 1);
    assert_eq!(c.get_pools(1, 1)[0].id, 2);
    assert_eq!(c.get_pools(3, 5).len(), 0);
    let alices = c.get_pools_by_creator(&s("alice"));
    assert_eq!(alices.len(), 2);
    assert_eq!((alices[0].id, alices[1].id), (1, 3));
    assert_eq!(c.get_pools_by_creator(&s("carol")).len(), 0);
}

#[test]
fn internal_send_tokens_guards_the_receiver() {
    let mut c = setup();
    assert_eq!(
        c.internal_send_tokens(&s("ghost"), &s("usdc"), 5).unwrap_err(),
        ConvertorError::NoSuchAccount
    );
    register(&mut c, "user");
    let t = c.internal_send_tokens(&s("user"), &s("usdc"), 5).unwrap();
    assert_eq!(t.receiver_id, s("user"));
    assert_eq!(t.token_id, s("usdc"));
    assert_eq!(t.amount, 5);
    c.ft_transfer_resolved(&s("usdc"), &s("user"), 5, 1, TransferOutcome::Success).unwrap();
}
