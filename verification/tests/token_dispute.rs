use veritixpay::token::balance::{read_balance, receive_balance};
use veritixpay::token::contract::{read_counter, DataKey, VeritixToken};
use veritixpay::token::dispute::{
    expire_dispute, get_dispute, get_dispute_history_for_escrow, get_open_disputes, open_dispute,
    resolve_dispute, resolve_dispute_with_note,
};
use veritixpay::token::escrow::{create_escrow, get_escrow, release_escrow};
use veritixpay::token::types::{DisputeStatus, TokenError, TokenEvent};

const CONTRACT: u64 = 1000;
const RESOLVER: u64 = 900;

fn setup() -> VeritixToken {
    VeritixToken::new(CONTRACT)
}

/// Funds a fresh depositor and opens an escrow of 1000 to a fresh
/// beneficiary; `n` tells the parties of different escrows apart.
fn setup_escrow(t: &mut VeritixToken, n: u64) -> (u64, u64, u32) {
    let depositor = 10 * n + 1;
    let beneficiary = 10 * n + 2;
    receive_balance(t, depositor, 1_000).unwrap();
    let (escrow_id, _) = create_escrow(t, depositor, beneficiary, 1_000, 1000, 0).unwrap();
    (depositor, beneficiary, escrow_id)
}

fn open(t: &mut VeritixToken, claimant: u64, escrow_id: u32, resolver: u64) -> Result<(u32, TokenEvent), TokenError> {
    open_dispute(t, claimant, escrow_id, resolver, Vec::new(), 1000, 0)
}

fn expect_err<T>(r: Result<T, TokenError>, expected: &str) {
    match r {
        Ok(_) => panic!("expected an error containing {expected:?}"),
        Err(e) => assert!(e.message().contains(expected), "{:?} does not contain {:?}", e.message(), expected),
    }
}

#[test]
fn test_open_dispute_stores_record() {
    let mut t = setup();
    let (depositor, _beneficiary, escrow_id) = setup_escrow(&mut t, 1);
    let (dispute_id, _) = open(&mut t, depositor, escrow_id, RESOLVER).unwrap();
    let record = get_dispute(&t, dispute_id).unwrap();
    assert_eq!(record.escrow_id, escrow_id);
    assert_eq!(record.claimant, depositor);
    assert_eq!(record.resolver, RESOLVER);
    assert_eq!(record.status, DisputeStatus::Open);
}

#[test]
fn test_resolve_dispute_for_beneficiary() {
    let mut t = setup();
    let (_depositor, beneficiary, escrow_id) = setup_escrow(&mut t, 1);
    let (dispute_id, _) = open(&mut t, beneficiary, escrow_id, RESOLVER).unwrap();
    resolve_dispute(&mut t, RESOLVER, dispute_id, true).unwrap();
    let record = get_dispute(&t, dispute_id).unwrap();
    assert_eq!(record.status, DisputeStatus::ResolvedForBeneficiary);
    let escrow = get_escrow(&t, escrow_id).unwrap();
    assert!(escrow.released);
    assert_eq!(read_balance(&t, beneficiary), 1_000);
}

#[test]
fn test_resolve_dispute_for_depositor() {
    let mut t = setup();
    let (depositor, _beneficiary, escrow_id) = setup_escrow(&mut t, 1);
    let (dispute_id, _) = open(&mut t, depositor, escrow_id, RESOLVER).unwrap();
    resolve_dispute(&mut t, RESOLVER, dispute_id, false).unwrap();
    let record = get_dispute(&t, dispute_id).unwrap();
    assert_eq!(record.status, DisputeStatus::ResolvedForDepositor);
    let escrow = get_escrow(&t, escrow_id).unwrap();
    assert!(escrow.refunded);
    assert_eq!(read_balance(&t, depositor), 1_000);
}

#[test]
fn test_resolve_dispute_wrong_resolver_panics() {
    let mut t = setup();
    let (depositor, _beneficiary, escrow_id) = setup_escrow(&mut t, 1);
    let (dispute_id, _) = open(&mut t, depositor, escrow_id, RESOLVER).unwrap();
    expect_err(resolve_dispute(&mut t, 901, dispute_id, true), "UnauthorizedResolver");
    assert_eq!(get_dispute(&t, dispute_id).unwrap().status, DisputeStatus::Open);
}

#[test]
fn test_double_resolve_panics() {
    let mut t = setup();
    let (depositor, _beneficiary, escrow_id) = setup_escrow(&mut t, 1);
    let (dispute_id, _) = open(&mut t, depositor, escrow_id, RESOLVER).unwrap();
    resolve_dispute(&mut t, RESOLVER, dispute_id, true).unwrap();
    expect_err(resolve_dispute(&mut t, RESOLVER, dispute_id, false), "AlreadyResolved");
}

#[test]
fn test_open_dispute_on_settled_escrow_panics() {
    let mut t = setup();
    let (_depositor, beneficiary, escrow_id) = setup_escrow(&mut t, 1);
    release_escrow(&mut t, beneficiary, escrow_id, None).unwrap();
    expect_err(open(&mut t, beneficiary, escrow_id, RESOLVER), "InvalidState");
}

#[test]
fn test_duplicate_open_dispute_panics() {
    let mut t = setup();
    let (depositor, _beneficiary, escrow_id) = setup_escrow(&mut t, 1);
    open(&mut t, depositor, escrow_id, RESOLVER).unwrap();
    expect_err(open(&mut t, depositor, escrow_id, RESOLVER), "DisputeAlreadyOpen");
}

#[test]
fn test_reopen_dispute_after_resolution() {
    let mut t = setup();
    let (depositor, _beneficiary, escrow_id) = setup_escrow(&mut t, 1);
    let (depositor2, _beneficiary2, escrow_id2) = setup_escrow(&mut t, 2);
    let (dispute_id, _) = open(&mut t, depositor, escrow_id, RESOLVER).unwrap();
    resolve_dispute(&mut t, RESOLVER, dispute_id, false).unwrap();
    let (new_id, _) = open(&mut t, depositor2, escrow_id2, RESOLVER).unwrap();
    let record = get_dispute(&t, new_id).unwrap();
    assert_eq!(record.status, DisputeStatus::Open);
}

#[test]
fn test_open_dispute_rejects_claimant_as_resolver() {
    let mut t = setup();
    let (depositor, _beneficiary, escrow_id) = setup_escrow(&mut t, 1);
    expect_err(open(&mut t, depositor, escrow_id, depositor), "InvalidResolver: resolver cannot be the claimant");
}

#[test]
fn test_open_dispute_rejects_depositor_as_resolver() {
    let mut t = setup();
    let (_depositor, beneficiary, escrow_id) = setup_escrow(&mut t, 1);
    let escrow = get_escrow(&t, escrow_id).unwrap();
    expect_err(
        open(&mut t, beneficiary, escrow_id, escrow.depositor),
        "InvalidResolver: resolver cannot be the depositor",
    );
}

#[test]
fn test_open_dispute_rejects_beneficiary_as_resolver() {
    let mut t = setup();
    let (depositor, _beneficiary, escrow_id) = setup_escrow(&mut t, 1);
    let escrow = get_escrow(&t, escrow_id).unwrap();
    expect_err(
        open(&mut t, depositor, escrow_id, escrow.beneficiary),
        "InvalidResolver: resolver cannot be the beneficiary",
    );
}

#[test]
fn test_open_dispute_stranger_as_claimant_panics() {
    let mut t = setup();
    let (_depositor, _beneficiary, escrow_id) = setup_escrow(&mut t, 1);
    expect_err(
        open(&mut t, 777, escrow_id, RESOLVER),
        "Unauthorized: only escrow parties can open a dispute",
    );
}

#[test]
fn test_dispute_counter_does_not_skip_on_rejected_call() {
    let mut t = setup();
    let (depositor, _beneficiary, escrow_id) = setup_escrow(&mut t, 1);
    let (depositor2, _beneficiary2, escrow_id2) = setup_escrow(&mut t, 2);
    let (id1, _) = open(&mut t, depositor, escrow_id, RESOLVER).unwrap();
    assert_eq!(id1, 1);
    assert!(open(&mut t, depositor, escrow_id, RESOLVER).is_err());
    let (id2, _) = open(&mut t, depositor2, escrow_id2, RESOLVER).unwrap();
    assert_eq!(id2, 2);
}

#[test]
fn test_open_dispute_emits_event() {
    let mut t = setup();
    let (depositor, _beneficiary, escrow_id) = setup_escrow(&mut t, 1);
    let (_, event) = open(&mut t, depositor, escrow_id, RESOLVER).unwrap();
    assert_eq!(event.name(), "disp_opened");
    assert_eq!(event.topic_count(), 3);
}

#[test]
fn test_resolve_dispute_emits_event() {
    let mut t = setup();
    let (depositor, _beneficiary, escrow_id) = setup_escrow(&mut t, 1);
    let (dispute_id, _) = open(&mut t, depositor, escrow_id, RESOLVER).unwrap();
    let (settled, resolved) = resolve_dispute(&mut t, RESOLVER, dispute_id, false).unwrap();
    assert_eq!(settled, TokenEvent::EscrowRefunded { escrow_id, to: depositor, amount: 1_000 });
    assert_eq!(resolved.topic_count(), 3);
}

#[test]
fn test_dispute_count_starts_at_zero() {
    let t = setup();
    assert_eq!(read_counter(&t, &DataKey::DisputeCount), 0);
}

#[test]
fn test_dispute_count_increments_on_open() {
    let mut t = setup();
    let (depositor1, _b1, escrow_id1) = setup_escrow(&mut t, 1);
    let (depositor2, _b2, escrow_id2) = setup_escrow(&mut t, 2);
    let (depositor3, _b3, escrow_id3) = setup_escrow(&mut t, 3);
    assert_eq!(read_counter(&t, &DataKey::DisputeCount), 0);
    let (dispute_id, _) = open(&mut t, depositor1, escrow_id1, RESOLVER).unwrap();
    assert_eq!(dispute_id, 1);
    assert_eq!(read_counter(&t, &DataKey::DisputeCount), 1);
    let (dispute_id, _) = open(&mut t, depositor2, escrow_id2, RESOLVER).unwrap();
    assert_eq!(dispute_id, 2);
    assert_eq!(read_counter(&t, &DataKey::DisputeCount), 2);
    let (dispute_id, _) = open(&mut t, depositor3, escrow_id3, RESOLVER).unwrap();
    assert_eq!(dispute_id, 3);
    assert_eq!(read_counter(&t, &DataKey::DisputeCount), 3);
}

#[test]
fn test_resolve_dispute_with_note_stores_note() {
    let mut t = setup();
    let (depositor, _beneficiary, escrow_id) = setup_escrow(&mut t, 1);
    let (dispute_id, _) = open(&mut t, depositor, escrow_id, RESOLVER).unwrap();
    let note = b"resolved: funds to beneficiary".to_vec();
    resolve_dispute_with_note(&mut t, RESOLVER, dispute_id, true, note.clone()).unwrap();
    let record = get_dispute(&t, dispute_id).unwrap();
    assert_eq!(record.resolution_note, note);
    assert_eq!(record.status, DisputeStatus::ResolvedForBeneficiary);
}

#[test]
fn test_open_dispute_stores_evidence() {
    let mut t = setup();
    let (depositor, _beneficiary, escrow_id) = setup_escrow(&mut t, 1);
    let evidence = b"invoice-ref-42".to_vec();
    let (dispute_id, _) = open_dispute(&mut t, depositor, escrow_id, RESOLVER, evidence.clone(), 500, 0).unwrap();
    let record = get_dispute(&t, dispute_id).unwrap();
    assert_eq!(record.evidence, evidence);
    assert_eq!(record.expiry_ledger, 500);
}

#[test]
fn test_open_dispute_evidence_too_long_panics() {
    let mut t = setup();
    let (depositor, _beneficiary, escrow_id) = setup_escrow(&mut t, 1);
    let evidence = vec![0u8; 129];
    expect_err(open_dispute(&mut t, depositor, escrow_id, RESOLVER, evidence, 500, 0), "EvidenceTooLong");
}

#[test]
fn test_open_dispute_past_expiry_panics() {
    let mut t = setup();
    let (depositor, _beneficiary, escrow_id) = setup_escrow(&mut t, 1);
    expect_err(open_dispute(&mut t, depositor, escrow_id, RESOLVER, Vec::new(), 0, 0), "InvalidExpiry");
}

#[test]
fn test_expire_dispute_auto_resolves_for_depositor() {
    let mut t = setup();
    let (depositor, _beneficiary, escrow_id) = setup_escrow(&mut t, 1);
    let expiry = 100;
    let (dispute_id, _) = open_dispute(&mut t, depositor, escrow_id, RESOLVER, Vec::new(), expiry, 0).unwrap();
    expire_dispute(&mut t, dispute_id, expiry + 1).unwrap();
    let record = get_dispute(&t, dispute_id).unwrap();
    assert_eq!(record.status, DisputeStatus::Expired);
    assert_eq!(read_balance(&t, depositor), 1_000);
}

#[test]
fn test_expire_dispute_before_expiry_panics() {
    let mut t = setup();
    let (depositor, _beneficiary, escrow_id) = setup_escrow(&mut t, 1);
    let (dispute_id, _) = open_dispute(&mut t, depositor, escrow_id, RESOLVER, Vec::new(), 100, 0).unwrap();
    expect_err(expire_dispute(&mut t, dispute_id, 0), "NotExpired");
}

#[test]
fn dispute_history_and_open_list_follow_the_dispute() {
    let mut t = setup();
    let (depositor, _beneficiary, escrow_id) = setup_escrow(&mut t, 1);
    let (dispute_id, _) = open(&mut t, depositor, escrow_id, RESOLVER).unwrap();
    assert_eq!(get_dispute_history_for_escrow(&t, escrow_id), vec![dispute_id]);
    assert_eq!(get_open_disputes(&t), vec![dispute_id]);
    resolve_dispute(&mut t, RESOLVER, dispute_id, true).unwrap();
    assert_eq!(get_dispute_history_for_escrow(&t, escrow_id), vec![dispute_id]);
    assert!(get_open_disputes(&t).is_empty());
}

#[test]
fn missing_dispute_is_reported() {
    let mut t = setup();
    assert_eq!(get_dispute(&t, 5).err(), Some(TokenError::DisputeNotFound));
    expect_err(resolve_dispute(&mut t, RESOLVER, 5, true), "Dispute not found");
}

#[test]
fn rejected_open_leaves_balances_unchanged() {
    let mut t = setup();
    let (depositor, beneficiary, escrow_id) = setup_escrow(&mut t, 1);
    let before = (read_balance(&t, depositor), read_balance(&t, beneficiary), read_balance(&t, CONTRACT));
    assert!(open(&mut t, 777, escrow_id, RESOLVER).is_err());
    let after = (read_balance(&t, depositor), read_balance(&t, beneficiary), read_balance(&t, CONTRACT));
    assert_eq!(before, after);
    assert_eq!(read_counter(&t, &DataKey::DisputeCount), 0);
}
