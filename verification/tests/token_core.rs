use veritixpay::token::allowance::read_allowance;
use veritixpay::token::contract::VeritixToken;
use veritixpay::token::metadata::validate_metadata;
use veritixpay::token::types::{TokenError, TokenEvent, TokenMetadata};

const CONTRACT: u64 = 1000;
const ADMIN: u64 = 7;
const USER: u64 = 1;
const SPENDER: u64 = 2;
const RECEIVER: u64 = 3;

fn initialized() -> VeritixToken {
    let mut t = VeritixToken::new(CONTRACT);
    t.initialize(ADMIN, "Veritix".to_string(), "VTX".to_string(), 7).unwrap();
    t
}

fn minted(amount: i128) -> VeritixToken {
    let mut t = initialized();
    t.mint(ADMIN, USER, amount).unwrap();
    t
}

#[test]
fn test_mint_event_schema() {
    let mut t = initialized();
    let event = t.mint(ADMIN, USER, 1000).unwrap();
    assert_eq!(event.topic_count(), 3);
    assert_eq!(event.name(), "mint");
    assert_eq!(event, TokenEvent::Mint { admin: ADMIN, to: USER, amount: 1000 });
}

#[test]
fn test_burn_event_schema() {
    let mut t = minted(1000);
    let event = t.burn(USER, 500).unwrap();
    assert_eq!(event.topic_count(), 2);
    assert_eq!(event.name(), "burn");
    assert_eq!(event, TokenEvent::Burn { from: USER, amount: 500 });
}

#[test]
fn test_burn_from_event_schema() {
    let mut t = minted(1000);
    t.approve(USER, SPENDER, 500, 1000, 0).unwrap();
    let event = t.burn_from(SPENDER, USER, 200, 0).unwrap();
    assert_eq!(event.topic_count(), 3);
    assert_eq!(event.name(), "burn");
    assert_eq!(event, TokenEvent::BurnFrom { spender: SPENDER, from: USER, amount: 200 });
    assert_eq!(t.allowance(USER, SPENDER, 0), 300);
}

#[test]
fn test_transfer_event_schema() {
    let mut t = minted(1000);
    let event = t.transfer(USER, RECEIVER, 400).unwrap();
    assert_eq!(event.topic_count(), 3);
    assert_eq!(event.name(), "transfer");
    assert_eq!(event, TokenEvent::Transfer { from: USER, to: RECEIVER, amount: 400 });
}

#[test]
fn test_transfer_from_event_schema() {
    let mut t = minted(1000);
    t.approve(USER, SPENDER, 500, 1000, 0).unwrap();
    let event = t.transfer_from(SPENDER, USER, RECEIVER, 300, 0).unwrap();
    assert_eq!(event.topic_count(), 3);
    assert_eq!(event.name(), "transfer");
    assert_eq!(event, TokenEvent::Transfer { from: USER, to: RECEIVER, amount: 300 });
}

#[test]
fn test_approve_event_schema() {
    let mut t = minted(1000);
    let event = t.approve(USER, SPENDER, 400, 1000, 0).unwrap();
    assert_eq!(event.topic_count(), 3);
    assert_eq!(event.name(), "approve");
    assert_eq!(event, TokenEvent::Approve { from: USER, spender: SPENDER, amount: 400 });
}

#[test]
fn test_clawback_event_schema() {
    let mut t = minted(1000);
    let event = t.clawback(ADMIN, USER, 300).unwrap();
    assert_eq!(event.topic_count(), 3);
    assert_eq!(event.name(), "clawback");
    assert_eq!(event, TokenEvent::Clawback { admin: ADMIN, from: USER, amount: 300 });
}

#[test]
fn test_all_core_events_use_consistent_symbol_short_format() {
    let mut t = minted(1000);
    let events = vec![
        t.transfer(USER, RECEIVER, 100).unwrap(),
        t.approve(USER, SPENDER, 200, 1000, 0).unwrap(),
        t.burn(USER, 50).unwrap(),
        t.clawback(ADMIN, USER, 25).unwrap(),
    ];
    for event in events {
        // A short symbol has at most 9 characters from [a-zA-Z0-9_].
        let name = event.name();
        assert!(name.len() <= 9 && name.chars().all(|c| c.is_ascii_alphanumeric() || c == '_'), "{name}");
    }
}

#[test]
fn test_ticket_purchase_happy_path() {
    let mut t = initialized();
    let buyer = USER;
    let organiser = 4;
    let ticket_price = 500i128;
    t.mint(ADMIN, buyer, ticket_price).unwrap();
    let initial_supply = t.total_supply();
    let buyer_before = t.balance(buyer);
    let (escrow_id, _) = t.create_escrow(buyer, organiser, ticket_price, 1000, 0).unwrap();
    assert_eq!(t.balance(buyer), buyer_before - ticket_price);
    assert_eq!(t.total_supply(), initial_supply);
    t.release_escrow(organiser, escrow_id).unwrap();
    assert_eq!(t.balance(organiser), ticket_price);
    assert_eq!(t.total_supply(), initial_supply);
}

#[test]
fn test_ticket_purchase_dispute_path() {
    let mut t = initialized();
    let buyer = USER;
    let organiser = 4;
    let resolver = 5;
    let ticket_price = 500i128;
    t.mint(ADMIN, buyer, ticket_price).unwrap();
    let initial_supply = t.total_supply();
    let (escrow_id, _) = t.create_escrow(buyer, organiser, ticket_price, 1000, 0).unwrap();
    assert_eq!(t.balance(buyer), 0);
    let (dispute_id, _) = t.open_dispute(buyer, escrow_id, resolver, Vec::new(), 1000, 0).unwrap();
    t.resolve_dispute(resolver, dispute_id, false).unwrap();
    assert_eq!(t.balance(buyer), ticket_price);
    assert_eq!(t.total_supply(), initial_supply);
}

#[test]
fn test_transfer_from_rejects_zero_amount() {
    let mut t = minted(1000);
    t.approve(USER, SPENDER, 500, 1000, 0).unwrap();
    let err = t.transfer_from(SPENDER, USER, RECEIVER, 0, 0).unwrap_err();
    assert_eq!(err, TokenError::NonPositiveAmount);
    assert_eq!(err.message(), "amount must be positive");
}

#[test]
fn test_transfer_from_rejects_negative_amount() {
    let mut t = minted(1000);
    t.approve(USER, SPENDER, 500, 1000, 0).unwrap();
    let err = t.transfer_from(SPENDER, USER, RECEIVER, -500, 0).unwrap_err();
    assert_eq!(err, TokenError::NonPositiveAmount);
    assert_eq!(err.message(), "amount must be positive");
    assert_eq!(t.balance(USER), 1000);
}

#[test]
fn test_setup_recurring_rejects_zero_amount() {
    let mut t = minted(1000);
    let err = t.setup_recurring(USER, RECEIVER, 0, 100, 0).unwrap_err();
    assert_eq!(err, TokenError::NonPositiveAmount);
    assert_eq!(err.message(), "amount must be positive");
}

#[test]
fn test_delayed_execution_does_not_drift_schedule() {
    let mut t = minted(1000);
    let (id, _) = t.setup_recurring(USER, RECEIVER, 10, 100, 1000).unwrap();
    assert_eq!(t.execute_recurring(id, 1099).err(), Some(TokenError::IntervalNotElapsed));
    t.execute_recurring(id, 1000 + 100 + 5).unwrap();
    let record = t.get_recurring(id).unwrap();
    assert_eq!(record.last_charged_ledger, 1100);
    assert_eq!(record.last_charged_ledger + record.interval, 1200);
    assert_eq!(t.balance(RECEIVER), 10);
}

#[test]
fn recurring_payment_can_be_cancelled_by_a_party_only() {
    let mut t = minted(1000);
    let (id, _) = t.setup_recurring(USER, RECEIVER, 10, 100, 0).unwrap();
    assert_eq!(t.cancel_recurring(9, id).err(), Some(TokenError::Unauthorized));
    t.cancel_recurring(USER, id).unwrap();
    assert_eq!(t.execute_recurring(id, 500).err(), Some(TokenError::RecurringInactive));
    assert_eq!(t.get_recurring(id + 1).err(), Some(TokenError::RecurringNotFound));
}

#[test]
fn recurring_payment_needs_a_funded_payer() {
    let mut t = minted(5);
    let (id, _) = t.setup_recurring(USER, RECEIVER, 10, 100, 0).unwrap();
    let err = t.execute_recurring(id, 100).unwrap_err();
    assert_eq!(err, TokenError::PayerUnderfunded(id));
    assert_eq!(
        err.text(),
        format!("InsufficientBalance: payer has insufficient balance for recurring payment {id}")
    );
    assert_eq!(t.balance(USER), 5);
}

#[test]
fn error_text_names_the_recurring_payment() {
    assert_eq!(
        TokenError::PayerUnderfunded(1207).text(),
        "InsufficientBalance: payer has insufficient balance for recurring payment 1207"
    );
    assert_eq!(TokenError::PayerUnderfunded(0).text().len(), TokenError::PayerUnderfunded(0).message().len() + 2);
    assert_eq!(TokenError::NotAdmin.text(), "not admin");
}

#[test]
fn initialize_once_and_validate_decimal() {
    let mut t = VeritixToken::new(CONTRACT);
    assert_eq!(t.initialize(ADMIN, "V".to_string(), "V".to_string(), 256).err(), Some(TokenError::InvalidDecimal));
    t.initialize(ADMIN, "Veritix".to_string(), "VTX".to_string(), 255).unwrap();
    assert_eq!(t.decimals(), Ok(255));
    assert_eq!(t.name().unwrap(), "Veritix");
    assert_eq!(t.symbol().unwrap(), "VTX");
    assert_eq!(t.admin(), Ok(ADMIN));
    assert_eq!(t.initialize(8, "X".to_string(), "X".to_string(), 1).err(), Some(TokenError::AlreadyInitialized));
    let meta = TokenMetadata { decimal: 300, name: "a".to_string(), symbol: "b".to_string() };
    assert_eq!(validate_metadata(&meta).err(), Some(TokenError::InvalidDecimal));
}

#[test]
fn uninitialized_token_has_no_admin() {
    let mut t = VeritixToken::new(CONTRACT);
    assert_eq!(t.admin(), Err(TokenError::NotInitialized));
    assert_eq!(t.mint(ADMIN, USER, 1).err(), Some(TokenError::NotInitialized));
}

#[test]
fn mint_and_burn_keep_supply_equal_to_balances() {
    let mut t = minted(1000);
    t.transfer(USER, RECEIVER, 300).unwrap();
    t.burn(RECEIVER, 100).unwrap();
    assert_eq!(t.total_supply(), 900);
    assert_eq!(t.balance(USER) + t.balance(RECEIVER), 900);
    assert_eq!(t.mint(USER, USER, 5).err(), Some(TokenError::NotAdmin));
    assert_eq!(t.burn(RECEIVER, 201).err(), Some(TokenError::InsufficientBalance));
}

#[test]
fn mint_refuses_to_overflow_the_supply() {
    let mut t = minted(i128::MAX);
    assert_eq!(t.mint(ADMIN, RECEIVER, 1).err(), Some(TokenError::Overflow));
    assert_eq!(t.total_supply(), i128::MAX);
}

#[test]
fn frozen_accounts_cannot_send() {
    let mut t = minted(1000);
    t.freeze(USER).unwrap();
    assert!(t.is_frozen(USER));
    assert_eq!(t.transfer(USER, RECEIVER, 1).err(), Some(TokenError::AccountFrozen));
    t.unfreeze(USER).unwrap();
    assert!(!t.is_frozen(USER));
    assert!(t.transfer(USER, RECEIVER, 1).is_ok());
}

#[test]
fn allowance_expires_and_is_spent() {
    let mut t = minted(1000);
    t.approve(USER, SPENDER, 500, 10, 0).unwrap();
    assert_eq!(t.allowance(USER, SPENDER, 10), 500);
    assert_eq!(t.allowance(USER, SPENDER, 11), 0);
    assert_eq!(read_allowance(&t, USER, SPENDER, 11).amount, 0);
    assert_eq!(t.transfer_from(SPENDER, USER, RECEIVER, 1, 11).err(), Some(TokenError::InsufficientAllowance));
    assert_eq!(t.approve(USER, SPENDER, 5, 3, 4).err(), Some(TokenError::AllowanceExpiryInPast));
    assert_eq!(t.transfer_from(SPENDER, USER, RECEIVER, 501, 0).err(), Some(TokenError::InsufficientAllowance));
}

#[test]
fn set_admin_hands_over_the_token() {
    let mut t = initialized();
    assert_eq!(t.set_admin(8), Ok(ADMIN));
    assert_eq!(t.admin(), Ok(8));
    assert_eq!(t.mint(ADMIN, USER, 1).err(), Some(TokenError::NotAdmin));
    assert!(t.mint(8, USER, 1).is_ok());
}

#[test]
fn consistency_check_accepts_library_states_and_catches_tampering() {
    let mut t = minted(1000);
    t.transfer(USER, RECEIVER, 300).unwrap();
    assert!(t.is_consistent());
    t.balance_total += 1;
    assert!(!t.is_consistent());
    t.balance_total -= 1;
    t.balances.insert(99, -1);
    assert!(!t.is_consistent());
    t.balances.remove(&99);
    assert!(t.is_consistent());
    t.create_escrow(USER, RECEIVER, 10, 100, 0).unwrap();
    assert!(t.is_consistent());
    t.escrows[0].id = 5;
    assert!(!t.is_consistent());
}
