use veritixpay::token::balance::{read_balance, receive_balance};
use veritixpay::token::batch::{clawback_batch, freeze_batch, transfer_batch, unfreeze_batch};
use veritixpay::token::contract::VeritixToken;
use veritixpay::token::freeze::is_frozen;
use veritixpay::token::types::{BatchEntry, TokenError, TokenEvent};

const CONTRACT: u64 = 1000;
const ADMIN: u64 = 7;
const FROM: u64 = 1;

fn setup() -> VeritixToken {
    let mut t = VeritixToken::new(CONTRACT);
    t.initialize(ADMIN, "Veritix".to_string(), "VTX".to_string(), 7).unwrap();
    t
}

#[test]
fn test_transfer_batch_distributes_correctly() {
    let mut t = setup();
    receive_balance(&mut t, FROM, 1000).unwrap();
    let recs = vec![BatchEntry { address: 11, amount: 400 }, BatchEntry { address: 12, amount: 600 }];
    transfer_batch(&mut t, FROM, recs).unwrap();
    assert_eq!(read_balance(&t, 11), 400);
    assert_eq!(read_balance(&t, 12), 600);
    assert_eq!(read_balance(&t, FROM), 0);
}

#[test]
fn test_transfer_batch_rejects_over_50() {
    let mut t = setup();
    receive_balance(&mut t, FROM, 100_000).unwrap();
    let recs: Vec<BatchEntry> = (0..51u64).map(|i| BatchEntry { address: 100 + i, amount: 1 }).collect();
    let err = transfer_batch(&mut t, FROM, recs).unwrap_err();
    assert!(err.message().contains("BatchLimit"));
    assert_eq!(read_balance(&t, FROM), 100_000);
}

#[test]
fn transfer_batch_of_fifty_is_accepted_and_reports_each_transfer() {
    let mut t = setup();
    receive_balance(&mut t, FROM, 50).unwrap();
    let recs: Vec<BatchEntry> = (0..50u64).map(|i| BatchEntry { address: 100 + i, amount: 1 }).collect();
    let events = transfer_batch(&mut t, FROM, recs).unwrap();
    assert_eq!(events.len(), 50);
    assert_eq!(events[0], TokenEvent::Transfer { from: FROM, to: 100, amount: 1 });
    assert_eq!(read_balance(&t, FROM), 0);
    assert_eq!(read_balance(&t, 149), 1);
}

#[test]
fn transfer_batch_needs_the_whole_amount_and_positive_entries() {
    let mut t = setup();
    receive_balance(&mut t, FROM, 999).unwrap();
    let recs = vec![BatchEntry { address: 11, amount: 400 }, BatchEntry { address: 12, amount: 600 }];
    assert_eq!(transfer_batch(&mut t, FROM, recs).err(), Some(TokenError::InsufficientBalance));
    assert_eq!(read_balance(&t, 11), 0);
    let recs = vec![BatchEntry { address: 11, amount: 0 }];
    assert_eq!(transfer_batch(&mut t, FROM, recs).err(), Some(TokenError::NonPositiveAmount));
}

#[test]
fn frozen_sender_cannot_send_a_batch() {
    let mut t = setup();
    receive_balance(&mut t, FROM, 10).unwrap();
    freeze_batch(&mut t, ADMIN, vec![FROM]).unwrap();
    let recs = vec![BatchEntry { address: 11, amount: 1 }];
    assert_eq!(transfer_batch(&mut t, FROM, recs).err(), Some(TokenError::AccountFrozen));
}

#[test]
fn freeze_and_unfreeze_batches_need_the_admin() {
    let mut t = setup();
    let events = freeze_batch(&mut t, ADMIN, vec![1, 2, 3]).unwrap();
    assert!(!events.is_empty());
    assert!(is_frozen(&t, &1) && is_frozen(&t, &2) && is_frozen(&t, &3));
    assert_eq!(unfreeze_batch(&mut t, 8, vec![1]).err(), Some(TokenError::NotAdmin));
    unfreeze_batch(&mut t, ADMIN, vec![1, 3]).unwrap();
    assert!(!is_frozen(&t, &1) && is_frozen(&t, &2) && !is_frozen(&t, &3));
    let too_many: Vec<u64> = (0..51u64).collect();
    assert_eq!(freeze_batch(&mut t, ADMIN, too_many).err(), Some(TokenError::BatchTooLarge));
}

#[test]
fn clawback_batch_takes_each_amount_in_order() {
    let mut t = setup();
    t.mint(ADMIN, 1, 100).unwrap();
    t.mint(ADMIN, 2, 50).unwrap();
    clawback_batch(&mut t, ADMIN, vec![(1, 30), (2, 50), (1, 20)]).unwrap();
    assert_eq!(read_balance(&t, 1), 50);
    assert_eq!(read_balance(&t, 2), 0);
    assert_eq!(t.total_supply(), 50);
    // The second claw on account 2 would leave it short: nothing is taken.
    assert_eq!(clawback_batch(&mut t, ADMIN, vec![(1, 10), (2, 1)]).err(), Some(TokenError::InsufficientBalance));
    assert_eq!(read_balance(&t, 1), 50);
    assert_eq!(t.total_supply(), 50);
}
