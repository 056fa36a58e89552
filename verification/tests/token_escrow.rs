use veritixpay::token::balance::{increase_supply, read_balance, read_total_supply, receive_balance};
use veritixpay::token::contract::{read_counter, DataKey, VeritixToken};
use veritixpay::token::escrow::{
    admin_settle_escrow, create_escrow, get_escrow, refund_escrow, release_escrow, try_get_escrow,
    try_refund_escrow, try_release_escrow,
};
use veritixpay::token::freeze::{freeze_account, is_frozen};
use veritixpay::token::types::{TokenError, TokenEvent};

const CONTRACT: u64 = 1000;
const DEPOSITOR: u64 = 1;
const BENEFICIARY: u64 = 2;

fn setup() -> VeritixToken {
    VeritixToken::new(CONTRACT)
}

fn assert_supply_matches_balances(t: &VeritixToken, addresses: &[u64]) {
    let held: i128 = addresses.iter().map(|a| read_balance(t, *a)).sum();
    assert_eq!(read_total_supply(t), held);
}

fn funded_escrow(t: &mut VeritixToken, amount: i128, expiry: u32) -> u32 {
    receive_balance(t, DEPOSITOR, amount).unwrap();
    create_escrow(t, DEPOSITOR, BENEFICIARY, amount, expiry, 0).unwrap().0
}

#[test]
fn test_create_escrow_stores_record() {
    let mut t = setup();
    let amount = 1_000i128;
    receive_balance(&mut t, DEPOSITOR, amount).unwrap();
    let (escrow_id, event) = create_escrow(&mut t, DEPOSITOR, BENEFICIARY, amount, 1000, 0).unwrap();
    let record = get_escrow(&t, escrow_id).unwrap();
    assert_eq!(record.id, escrow_id);
    assert_eq!(record.depositor, DEPOSITOR);
    assert_eq!(record.beneficiary, BENEFICIARY);
    assert_eq!(record.amount, amount);
    assert!(!record.released);
    assert!(!record.refunded);
    assert_eq!(event.topic_count(), 3);
}

#[test]
fn test_release_escrow_happy_path() {
    let mut t = setup();
    let amount = 1_000i128;
    let escrow_id = funded_escrow(&mut t, amount, 1000);
    let before_contract = read_balance(&t, CONTRACT);
    let before_beneficiary = read_balance(&t, BENEFICIARY);
    release_escrow(&mut t, BENEFICIARY, escrow_id, None).unwrap();
    let record = get_escrow(&t, escrow_id).unwrap();
    assert!(record.released);
    assert!(!record.refunded);
    assert_eq!(before_contract - amount, read_balance(&t, CONTRACT));
    assert_eq!(before_beneficiary + amount, read_balance(&t, BENEFICIARY));
}

#[test]
fn test_refund_escrow_happy_path() {
    let mut t = setup();
    let amount = 1_000i128;
    let escrow_id = funded_escrow(&mut t, amount, 1000);
    let before_contract = read_balance(&t, CONTRACT);
    let before_depositor = read_balance(&t, DEPOSITOR);
    refund_escrow(&mut t, DEPOSITOR, escrow_id, 0).unwrap();
    let record = get_escrow(&t, escrow_id).unwrap();
    assert!(record.refunded);
    assert!(!record.released);
    assert_eq!(before_contract - amount, read_balance(&t, CONTRACT));
    assert_eq!(before_depositor + amount, read_balance(&t, DEPOSITOR));
}

#[test]
fn test_escrow_create_and_release_preserve_supply_invariant() {
    let mut t = setup();
    let amount = 1_000i128;
    let all = [DEPOSITOR, BENEFICIARY, CONTRACT];
    receive_balance(&mut t, DEPOSITOR, amount).unwrap();
    increase_supply(&mut t, amount).unwrap();
    assert_supply_matches_balances(&t, &all);
    let (escrow_id, _) = create_escrow(&mut t, DEPOSITOR, BENEFICIARY, amount, 1000, 0).unwrap();
    assert_supply_matches_balances(&t, &all);
    release_escrow(&mut t, BENEFICIARY, escrow_id, None).unwrap();
    assert_supply_matches_balances(&t, &all);
}

#[test]
fn test_escrow_create_and_refund_preserve_supply_invariant() {
    let mut t = setup();
    let amount = 1_000i128;
    let all = [DEPOSITOR, BENEFICIARY, CONTRACT];
    receive_balance(&mut t, DEPOSITOR, amount).unwrap();
    increase_supply(&mut t, amount).unwrap();
    assert_supply_matches_balances(&t, &all);
    let (escrow_id, _) = create_escrow(&mut t, DEPOSITOR, BENEFICIARY, amount, 1000, 0).unwrap();
    assert_supply_matches_balances(&t, &all);
    refund_escrow(&mut t, DEPOSITOR, escrow_id, 0).unwrap();
    assert_supply_matches_balances(&t, &all);
}

#[test]
fn test_create_escrow_increments_counter() {
    let mut t = setup();
    let amount = 1_000i128;
    receive_balance(&mut t, 11, amount).unwrap();
    let (first, _) = create_escrow(&mut t, 11, BENEFICIARY, amount, 1000, 0).unwrap();
    assert_eq!(first, 1);
    receive_balance(&mut t, 12, amount).unwrap();
    let (second, _) = create_escrow(&mut t, 12, BENEFICIARY, amount, 1000, 0).unwrap();
    assert_eq!(second, 2);
    assert_eq!(read_counter(&t, &DataKey::EscrowCount), 2);
    assert_eq!(t.escrow_count(), 2);
}

#[test]
fn test_escrow_count_getter_reflects_creations() {
    let mut t = setup();
    let amount = 1_000i128;
    assert_eq!(t.escrow_count(), 0);
    receive_balance(&mut t, 11, amount).unwrap();
    t.create_escrow(11, BENEFICIARY, amount, 1000, 0).unwrap();
    assert_eq!(t.escrow_count(), 1);
    receive_balance(&mut t, 12, amount).unwrap();
    t.create_escrow(12, BENEFICIARY, amount, 1000, 0).unwrap();
    assert_eq!(t.escrow_count(), 2);
}

#[test]
fn test_get_escrow_missing_id_returns_not_found_error() {
    let t = setup();
    assert_eq!(try_get_escrow(&t, 999), Err("escrow not found"));
}

#[test]
fn test_release_missing_id_returns_not_found_error() {
    let mut t = setup();
    assert_eq!(try_release_escrow(&mut t, BENEFICIARY, 999, None), Err("escrow not found"));
}

#[test]
fn test_refund_missing_id_returns_not_found_error() {
    let mut t = setup();
    assert_eq!(try_refund_escrow(&mut t, DEPOSITOR, 999, 0), Err("escrow not found"));
}

#[test]
fn test_create_escrow_same_address_panics() {
    let mut t = setup();
    receive_balance(&mut t, DEPOSITOR, 1_000).unwrap();
    let err = create_escrow(&mut t, DEPOSITOR, DEPOSITOR, 1_000, 1000, 0).unwrap_err();
    assert_eq!(err, TokenError::EscrowSameParties);
    assert!(err.message().contains("InvalidEscrow: depositor and beneficiary cannot be the same address"));
}

#[test]
fn test_release_unauthorized_panics() {
    let mut t = setup();
    let escrow_id = funded_escrow(&mut t, 1_000, 1000);
    let err = release_escrow(&mut t, 3, escrow_id, None).unwrap_err();
    assert!(err.message().contains("not beneficiary"));
}

#[test]
fn test_refund_unauthorized_panics() {
    let mut t = setup();
    let escrow_id = funded_escrow(&mut t, 1_000, 1000);
    let err = refund_escrow(&mut t, BENEFICIARY, escrow_id, 0).unwrap_err();
    assert!(err.message().contains("not depositor"));
}

#[test]
fn test_double_release_panics() {
    let mut t = setup();
    let escrow_id = funded_escrow(&mut t, 1_000, 1000);
    release_escrow(&mut t, BENEFICIARY, escrow_id, None).unwrap();
    let err = release_escrow(&mut t, BENEFICIARY, escrow_id, None).unwrap_err();
    assert!(err.message().contains("already settled"));
}

#[test]
fn test_partial_release_50_percent() {
    let mut t = setup();
    let amount = 1_000i128;
    let release_amount = amount / 2;
    let escrow_id = funded_escrow(&mut t, amount, 1000);
    release_escrow(&mut t, BENEFICIARY, escrow_id, Some(release_amount)).unwrap();
    let record = get_escrow(&t, escrow_id).unwrap();
    assert_eq!(record.amount, amount - release_amount);
    assert!(!record.released);
}

#[test]
fn test_partial_release_to_zero_marks_as_released() {
    let mut t = setup();
    let amount = 1_000i128;
    let release_amount = amount / 2;
    let escrow_id = funded_escrow(&mut t, amount, 1000);
    release_escrow(&mut t, BENEFICIARY, escrow_id, Some(release_amount)).unwrap();
    release_escrow(&mut t, BENEFICIARY, escrow_id, Some(release_amount)).unwrap();
    let record = get_escrow(&t, escrow_id).unwrap();
    assert_eq!(record.amount, 0);
    assert!(record.released);
}

#[test]
fn test_partial_release_over_remaining_panics() {
    let mut t = setup();
    let amount = 1_000i128;
    let release_amount = amount / 2;
    let escrow_id = funded_escrow(&mut t, amount, 1000);
    release_escrow(&mut t, BENEFICIARY, escrow_id, Some(release_amount)).unwrap();
    assert!(release_escrow(&mut t, BENEFICIARY, escrow_id, Some(release_amount + 1)).is_err());
}

#[test]
fn test_partial_release_after_full_release_panics() {
    let mut t = setup();
    let escrow_id = funded_escrow(&mut t, 1_000, 1000);
    release_escrow(&mut t, BENEFICIARY, escrow_id, None).unwrap();
    assert!(release_escrow(&mut t, BENEFICIARY, escrow_id, Some(1)).is_err());
}

#[test]
fn test_double_refund_panics() {
    let mut t = setup();
    let escrow_id = funded_escrow(&mut t, 1_000, 1000);
    refund_escrow(&mut t, DEPOSITOR, escrow_id, 0).unwrap();
    let err = refund_escrow(&mut t, DEPOSITOR, escrow_id, 0).unwrap_err();
    assert!(err.message().contains("already settled"));
}

#[test]
fn test_release_after_refund_panics() {
    let mut t = setup();
    let escrow_id = funded_escrow(&mut t, 1_000, 1000);
    refund_escrow(&mut t, DEPOSITOR, escrow_id, 0).unwrap();
    let err = release_escrow(&mut t, BENEFICIARY, escrow_id, None).unwrap_err();
    assert!(err.message().contains("already settled"));
}

#[test]
fn test_create_escrow_zero_amount_panics() {
    let mut t = setup();
    let err = create_escrow(&mut t, DEPOSITOR, BENEFICIARY, 0, 1000, 0).unwrap_err();
    assert!(err.message().contains("amount must be positive"));
}

#[test]
fn test_create_escrow_negative_amount_panics() {
    let mut t = setup();
    let err = create_escrow(&mut t, DEPOSITOR, BENEFICIARY, -1, 1000, 0).unwrap_err();
    assert!(err.message().contains("amount must be positive"));
}

#[test]
fn test_release_by_depositor_panics() {
    let mut t = setup();
    let escrow_id = funded_escrow(&mut t, 1_000, 1000);
    let err = release_escrow(&mut t, DEPOSITOR, escrow_id, None).unwrap_err();
    assert!(err.message().contains("not beneficiary"));
}

#[test]
fn test_refund_by_beneficiary_panics() {
    let mut t = setup();
    let escrow_id = funded_escrow(&mut t, 1_000, 1000);
    let err = refund_escrow(&mut t, BENEFICIARY, escrow_id, 0).unwrap_err();
    assert!(err.message().contains("not depositor"));
}

#[test]
fn test_create_escrow_emits_event() {
    let mut t = setup();
    receive_balance(&mut t, DEPOSITOR, 1000).unwrap();
    let (id, event) = create_escrow(&mut t, DEPOSITOR, BENEFICIARY, 1000, 1000, 0).unwrap();
    assert_eq!(event, TokenEvent::EscrowCreated { escrow_id: id, depositor: DEPOSITOR, beneficiary: BENEFICIARY, amount: 1000 });
    assert_eq!(event.topic_count(), 3);
}

#[test]
fn test_release_escrow_emits_event() {
    let mut t = setup();
    let escrow_id = funded_escrow(&mut t, 1000, 1000);
    let event = release_escrow(&mut t, BENEFICIARY, escrow_id, None).unwrap();
    assert_eq!(event, TokenEvent::EscrowReleased { escrow_id, to: BENEFICIARY, amount: 1000 });
    assert_eq!(event.topic_count(), 3);
}

#[test]
fn test_refund_escrow_emits_event() {
    let mut t = setup();
    let escrow_id = funded_escrow(&mut t, 1000, 1000);
    let event = refund_escrow(&mut t, DEPOSITOR, escrow_id, 0).unwrap();
    assert_eq!(event, TokenEvent::EscrowRefunded { escrow_id, to: DEPOSITOR, amount: 1000 });
    assert_eq!(event.topic_count(), 3);
}

#[test]
fn test_create_escrow_past_expiry_panics() {
    let mut t = setup();
    receive_balance(&mut t, DEPOSITOR, 1_000).unwrap();
    let err = create_escrow(&mut t, DEPOSITOR, BENEFICIARY, 1_000, 0, 10).unwrap_err();
    assert!(err.message().contains("expiration ledger is in the past"));
}

#[test]
fn test_release_blocked_when_beneficiary_frozen() {
    let mut t = setup();
    let admin = 9;
    let escrow_id = funded_escrow(&mut t, 1_000, 1000);
    freeze_account(&mut t, admin, BENEFICIARY);
    assert!(is_frozen(&t, &BENEFICIARY));
    let err = release_escrow(&mut t, DEPOSITOR, escrow_id, None).unwrap_err();
    assert!(err.message().contains("not beneficiary"));
    let err = release_escrow(&mut t, BENEFICIARY, escrow_id, None).unwrap_err();
    assert_eq!(err, TokenError::AccountFrozen);
}

#[test]
fn test_expired_escrow_can_be_refunded_by_third_party() {
    let mut t = setup();
    let amount = 1_000i128;
    let escrow_id = funded_escrow(&mut t, amount, 5);
    let before = read_balance(&t, DEPOSITOR);
    refund_escrow(&mut t, 3, escrow_id, 6).unwrap();
    let record = get_escrow(&t, escrow_id).unwrap();
    assert!(record.refunded);
    assert_eq!(read_balance(&t, DEPOSITOR), before + amount);
}

#[test]
fn test_non_expired_escrow_cannot_be_refunded_by_third_party() {
    let mut t = setup();
    let escrow_id = funded_escrow(&mut t, 1_000, 1000);
    let err = refund_escrow(&mut t, 3, escrow_id, 0).unwrap_err();
    assert!(err.message().contains("not depositor"));
}

#[test]
fn test_admin_settle_escrow_when_beneficiary_frozen() {
    let mut t = setup();
    let admin = 9;
    let alternate = 4;
    let amount = 1_000i128;
    veritixpay::token::admin::write_admin(&mut t, admin);
    receive_balance(&mut t, DEPOSITOR, amount).unwrap();
    increase_supply(&mut t, amount).unwrap();
    let (escrow_id, _) = create_escrow(&mut t, DEPOSITOR, BENEFICIARY, amount, 1000, 0).unwrap();
    freeze_account(&mut t, admin, BENEFICIARY);
    assert!(is_frozen(&t, &BENEFICIARY));
    let before = read_balance(&t, alternate);
    admin_settle_escrow(&mut t, admin, escrow_id, alternate).unwrap();
    let after = read_balance(&t, alternate);
    assert_eq!(after - before, amount);
    assert!(get_escrow(&t, escrow_id).unwrap().released);
}

#[test]
fn admin_settle_refuses_a_stranger_and_changes_nothing() {
    let mut t = setup();
    veritixpay::token::admin::write_admin(&mut t, 9);
    let escrow_id = funded_escrow(&mut t, 1_000, 1000);
    assert_eq!(admin_settle_escrow(&mut t, 8, escrow_id, 4), Err(TokenError::NotAdmin));
    assert_eq!(read_balance(&t, CONTRACT), 1_000);
    assert!(!get_escrow(&t, escrow_id).unwrap().released);
}

#[test]
fn create_escrow_without_funds_is_refused() {
    let mut t = setup();
    receive_balance(&mut t, DEPOSITOR, 10).unwrap();
    assert_eq!(create_escrow(&mut t, DEPOSITOR, BENEFICIARY, 11, 1000, 0), Err(TokenError::InsufficientBalance));
    assert_eq!(read_balance(&t, DEPOSITOR), 10);
    assert_eq!(t.escrow_count(), 0);
}

#[test]
fn release_with_non_positive_amount_is_refused() {
    let mut t = setup();
    let escrow_id = funded_escrow(&mut t, 1_000, 1000);
    assert_eq!(release_escrow(&mut t, BENEFICIARY, escrow_id, Some(0)), Err(TokenError::NonPositiveAmount));
    assert_eq!(release_escrow(&mut t, BENEFICIARY, escrow_id, Some(1_001)), Err(TokenError::ReleaseExceedsRemaining));
}

#[test]
fn try_functions_give_the_error_message_and_settle_on_success() {
    let mut t = setup();
    let escrow_id = funded_escrow(&mut t, 1_000, 1000);
    assert_eq!(try_release_escrow(&mut t, DEPOSITOR, escrow_id, None).err(), Some("not beneficiary"));
    assert_eq!(try_refund_escrow(&mut t, BENEFICIARY, escrow_id, 0).err(), Some("not depositor"));
    let ev = try_release_escrow(&mut t, BENEFICIARY, escrow_id, Some(400)).unwrap();
    assert_eq!(ev, TokenEvent::EscrowReleased { escrow_id, to: BENEFICIARY, amount: 400 });
    assert_eq!(get_escrow(&t, escrow_id).unwrap().amount, 600);
    let ev = try_refund_escrow(&mut t, DEPOSITOR, escrow_id, 0).unwrap();
    assert_eq!(ev, TokenEvent::EscrowRefunded { escrow_id, to: DEPOSITOR, amount: 600 });
    assert_eq!(read_balance(&t, DEPOSITOR), 600);
    assert_eq!(try_refund_escrow(&mut t, DEPOSITOR, escrow_id, 0).err(), Some("already settled"));
    assert_eq!(try_get_escrow(&t, 999).err(), Some("escrow not found"));
}
