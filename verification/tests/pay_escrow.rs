use std::collections::HashMap;

use veritixpay::pay::contract::{EscrowContract, VeriTixPay};
use veritixpay::pay::dispute::{get_disputes_by_claimant, open_dispute};
use veritixpay::pay::freeze::{freeze_account, unfreeze_account};
use veritixpay::pay::recurring::{execute_recurring, get_recurring_history};
use veritixpay::pay::types::{PayError, RecurringPayment, TokenTransfer, MAX_ESCROW_AMOUNT};

const CONTRACT: u64 = 5000;
const TOKEN: u64 = 4000;
const ADMIN: u64 = 1;
const DEPOSITOR: u64 = 2;
const BENEFICIARY: u64 = 3;
const ORGANISER: u64 = 4;
const VENUE: u64 = 5;
const EXPIRY: u32 = 1000;

/// Token balances as the host's token contract keeps them.
struct Ledger(HashMap<u64, i128>);

impl Ledger {
    fn with(holder: u64, amount: i128) -> Ledger {
        let mut m = HashMap::new();
        m.insert(holder, amount);
        Ledger(m)
    }
    fn balance(&self, a: u64) -> i128 {
        *self.0.get(&a).unwrap_or(&0)
    }
    fn apply(&mut self, t: &TokenTransfer) {
        assert_eq!(t.token, TOKEN);
        assert!(self.balance(t.from) >= t.amount, "token transfer without funds");
        *self.0.entry(t.from).or_insert(0) -= t.amount;
        *self.0.entry(t.to).or_insert(0) += t.amount;
    }
    fn apply_all(&mut self, ts: &[TokenTransfer]) {
        for t in ts {
            self.apply(t);
        }
    }
}

fn setup() -> (VeriTixPay, Ledger) {
    (VeriTixPay::new(CONTRACT, Vec::new()), Ledger::with(DEPOSITOR, 100_000))
}

fn escrow(p: &mut VeriTixPay, l: &mut Ledger, amount: i128) -> u32 {
    let (id, deposit) = p.create_escrow(DEPOSITOR, BENEFICIARY, TOKEN, amount, EXPIRY, Vec::new(), 0).unwrap();
    l.apply(&deposit);
    id
}

#[test]
fn test_create_escrow_indexes_both_parties() {
    let (mut p, mut l) = setup();
    let id = escrow(&mut p, &mut l, 500);
    let by_depositor = p.get_escrows_by_depositor(DEPOSITOR);
    assert_eq!(by_depositor.len(), 1);
    assert_eq!(by_depositor[0], id);
    let by_beneficiary = p.get_escrows_by_beneficiary(BENEFICIARY);
    assert_eq!(by_beneficiary.len(), 1);
    assert_eq!(by_beneficiary[0], id);
}

#[test]
fn test_beneficiary_index_accumulates_multiple_escrows() {
    let (mut p, mut l) = setup();
    escrow(&mut p, &mut l, 100);
    escrow(&mut p, &mut l, 200);
    escrow(&mut p, &mut l, 300);
    assert_eq!(p.get_escrows_by_beneficiary(BENEFICIARY).len(), 3);
}

#[test]
fn test_unrelated_address_gets_empty_list() {
    let (p, _) = setup();
    assert_eq!(p.get_escrows_by_beneficiary(777).len(), 0);
}

#[test]
fn test_depositor_does_not_appear_in_beneficiary_index() {
    let (mut p, mut l) = setup();
    escrow(&mut p, &mut l, 500);
    assert_eq!(p.get_escrows_by_beneficiary(DEPOSITOR).len(), 0);
}

#[test]
fn escrow_release_and_refund_move_the_deposit() {
    let (mut p, mut l) = setup();
    let a = escrow(&mut p, &mut l, 400);
    let b = escrow(&mut p, &mut l, 600);
    assert_eq!(l.balance(CONTRACT), 1000);
    assert_eq!(p.escrowed_total(), Ok(1000));
    let t = p.release_escrow(DEPOSITOR, a, 10).unwrap();
    assert_eq!(t, TokenTransfer { token: TOKEN, from: CONTRACT, to: BENEFICIARY, amount: 400 });
    l.apply(&t);
    let t = p.refund_escrow(DEPOSITOR, b).unwrap();
    assert_eq!(t, TokenTransfer { token: TOKEN, from: CONTRACT, to: DEPOSITOR, amount: 600 });
    l.apply(&t);
    assert_eq!(l.balance(BENEFICIARY), 400);
    assert_eq!(l.balance(CONTRACT), 0);
    assert_eq!(p.escrowed_total(), Ok(0));
    assert_eq!(p.release_escrow(DEPOSITOR, a, 10), Err(PayError::AlreadyReleased));
    assert_eq!(p.release_escrow(DEPOSITOR, b, 10), Err(PayError::AlreadyRefunded));
    assert_eq!(p.refund_escrow(DEPOSITOR, 9), Err(PayError::EscrowNotFound));
}

#[test]
fn escrow_needs_the_depositor_or_admin_and_an_unexpired_ledger() {
    let (mut p, mut l) = setup();
    EscrowContract::initialize(&mut p, ADMIN).unwrap();
    let a = escrow(&mut p, &mut l, 400);
    assert_eq!(p.release_escrow(BENEFICIARY, a, 10), Err(PayError::NotAuthorisedToRelease));
    assert_eq!(p.refund_escrow(BENEFICIARY, a), Err(PayError::NotAuthorisedToRefund));
    assert_eq!(p.release_escrow(ADMIN, a, EXPIRY + 1), Err(PayError::EscrowExpired));
    assert!(p.release_escrow(ADMIN, a, EXPIRY).is_ok());
}

#[test]
fn partial_release_keeps_the_rest_until_nothing_is_left() {
    let (mut p, mut l) = setup();
    let a = escrow(&mut p, &mut l, 1000);
    l.apply(&p.release_partial_escrow(DEPOSITOR, a, 300, 0).unwrap());
    assert_eq!(p.get_escrows_batch(vec![a])[0].unwrap().amount, 700);
    assert_eq!(p.release_partial_escrow(DEPOSITOR, a, 701, 0), Err(PayError::ReleaseExceedsRemaining));
    assert_eq!(p.release_partial_escrow(DEPOSITOR, a, 0, 0), Err(PayError::NonPositiveAmount));
    l.apply(&p.release_partial_escrow(DEPOSITOR, a, 700, 0).unwrap());
    let rec = p.get_escrows_batch(vec![a, 42]);
    assert!(rec[0].unwrap().released);
    assert!(rec[1].is_none());
    assert_eq!(l.balance(BENEFICIARY), 1000);
}

#[test]
fn create_escrow_rejects_bad_amounts_and_expiries() {
    let (mut p, _) = setup();
    let r = p.create_escrow(DEPOSITOR, BENEFICIARY, TOKEN, 0, EXPIRY, Vec::new(), 0);
    assert_eq!(r.unwrap_err().message(), "Amount must be strictly positive");
    let r = p.create_escrow(DEPOSITOR, BENEFICIARY, TOKEN, MAX_ESCROW_AMOUNT + 1, EXPIRY, Vec::new(), 0);
    assert_eq!(r.err(), Some(PayError::AmountTooLarge));
    assert!(p.create_escrow(DEPOSITOR, BENEFICIARY, TOKEN, MAX_ESCROW_AMOUNT, EXPIRY, Vec::new(), 0).is_ok());
    let r = p.create_escrow(DEPOSITOR, BENEFICIARY, TOKEN, 5, 10, Vec::new(), 10);
    assert_eq!(r.err(), Some(PayError::ExpiryNotInFuture));
    // Past the cap and already expired: the expiry is refused first.
    let r = p.create_escrow(DEPOSITOR, BENEFICIARY, TOKEN, MAX_ESCROW_AMOUNT + 1, 10, Vec::new(), 10);
    assert_eq!(r.err(), Some(PayError::ExpiryNotInFuture));
    assert_eq!(MAX_ESCROW_AMOUNT, i128::MAX / 100);
}

#[test]
fn test_create_multi_escrow_transfers_total() {
    let (mut p, mut l) = setup();
    let (id, deposit) = p.create_multi_escrow(DEPOSITOR, vec![(ORGANISER, 700), (VENUE, 300)], TOKEN, EXPIRY, 0).unwrap();
    l.apply(&deposit);
    assert_eq!(id, 0);
    assert_eq!(l.balance(CONTRACT), 1000);
}

#[test]
fn test_release_multi_escrow_pays_each_recipient() {
    let (mut p, mut l) = setup();
    let (id, deposit) = p.create_multi_escrow(DEPOSITOR, vec![(ORGANISER, 700), (VENUE, 300)], TOKEN, EXPIRY, 0).unwrap();
    l.apply(&deposit);
    l.apply_all(&p.release_multi_escrow(DEPOSITOR, id, 0).unwrap());
    assert_eq!(l.balance(ORGANISER), 700);
    assert_eq!(l.balance(VENUE), 300);
    assert_eq!(l.balance(CONTRACT), 0);
}

#[test]
fn test_refund_multi_escrow_returns_all_to_depositor() {
    let (mut p, mut l) = setup();
    let before = l.balance(DEPOSITOR);
    let (id, deposit) = p.create_multi_escrow(DEPOSITOR, vec![(ORGANISER, 700), (VENUE, 300)], TOKEN, EXPIRY, 0).unwrap();
    l.apply(&deposit);
    l.apply(&p.refund_multi_escrow(DEPOSITOR, id).unwrap());
    assert_eq!(l.balance(DEPOSITOR), before);
    assert_eq!(l.balance(CONTRACT), 0);
}

#[test]
fn test_cannot_release_twice() {
    let (mut p, mut l) = setup();
    let (id, deposit) = p.create_multi_escrow(DEPOSITOR, vec![(ORGANISER, 1000)], TOKEN, EXPIRY, 0).unwrap();
    l.apply(&deposit);
    l.apply_all(&p.release_multi_escrow(DEPOSITOR, id, 0).unwrap());
    let err = p.release_multi_escrow(DEPOSITOR, id, 0).unwrap_err();
    assert!(err.message().contains("already released"));
}

#[test]
fn test_cannot_refund_after_release() {
    let (mut p, mut l) = setup();
    let (id, deposit) = p.create_multi_escrow(DEPOSITOR, vec![(ORGANISER, 500), (VENUE, 500)], TOKEN, EXPIRY, 0).unwrap();
    l.apply(&deposit);
    l.apply_all(&p.release_multi_escrow(DEPOSITOR, id, 0).unwrap());
    let err = p.refund_multi_escrow(DEPOSITOR, id).unwrap_err();
    assert!(err.message().contains("already released"));
}

#[test]
fn test_empty_recipients_rejected() {
    let (mut p, _) = setup();
    let err = p.create_multi_escrow(DEPOSITOR, Vec::new(), TOKEN, EXPIRY, 0).unwrap_err();
    assert!(err.message().contains("must have at least one recipient"));
}

#[test]
fn test_zero_share_rejected() {
    let (mut p, _) = setup();
    let err = p.create_multi_escrow(DEPOSITOR, vec![(ORGANISER, 0)], TOKEN, EXPIRY, 0).unwrap_err();
    assert!(err.message().contains("each recipient share must be greater than zero"));
}

#[test]
fn test_three_party_split_platform_organiser_venue() {
    let (mut p, mut l) = setup();
    let platform = 6;
    let (id, deposit) = p
        .create_multi_escrow(DEPOSITOR, vec![(platform, 50), (ORGANISER, 850), (VENUE, 100)], TOKEN, EXPIRY, 0)
        .unwrap();
    l.apply(&deposit);
    l.apply_all(&p.release_multi_escrow(DEPOSITOR, id, 0).unwrap());
    assert_eq!(l.balance(platform), 50);
    assert_eq!(l.balance(ORGANISER), 850);
    assert_eq!(l.balance(VENUE), 100);
}

#[test]
fn test_revenue_split_helper_distributes_immediately() {
    let (mut p, mut l) = setup();
    let artist = 7;
    let (split_id, transfers) = p
        .revenue_split(DEPOSITOR, ORGANISER, 8500, artist, 1000, VENUE, TOKEN, 1_000, 1000, 0)
        .unwrap();
    assert_eq!(split_id, 0);
    l.apply_all(&transfers);
    assert_eq!(l.balance(ORGANISER), 850);
    assert_eq!(l.balance(artist), 100);
    assert_eq!(l.balance(VENUE), 50);
    assert_eq!(l.balance(CONTRACT), 0);
}

#[test]
fn revenue_split_rejects_shares_of_the_whole_or_more() {
    let (mut p, _) = setup();
    let r = p.revenue_split(DEPOSITOR, ORGANISER, 9000, 7, 1000, VENUE, TOKEN, 1_000, 1000, 0);
    assert_eq!(r.err(), Some(PayError::InvalidBasisPoints));
    let r = p.revenue_split(DEPOSITOR, ORGANISER, 10, 7, 10, VENUE, TOKEN, 0, 1000, 0);
    assert_eq!(r.err(), Some(PayError::NonPositiveAmount));
}

#[test]
fn ticket_escrow_expires_after_the_event() {
    let (mut p, mut l) = setup();
    let (id, deposit) = p.ticket_escrow(DEPOSITOR, ORGANISER, TOKEN, 500, 2000, b"seat-7".to_vec(), 0).unwrap();
    l.apply(&deposit);
    let rec = p.get_escrows_batch(vec![id])[0].unwrap();
    assert_eq!(rec.expiry_ledger, 2100);
    assert_eq!(rec.beneficiary, ORGANISER);
    assert_eq!(l.balance(CONTRACT), 500);
}

#[test]
fn test_freeze_account_panics_if_already_frozen() {
    let (mut p, _) = setup();
    freeze_account(&mut p, 9).unwrap();
    let err = freeze_account(&mut p, 9).unwrap_err();
    assert_eq!(err.message(), "AlreadyFrozen: account is already frozen");
}

#[test]
fn test_unfreeze_account_panics_if_not_frozen() {
    let (mut p, _) = setup();
    let err = unfreeze_account(&mut p, 9).unwrap_err();
    assert_eq!(err.message(), "NotFrozen: account is not frozen");
}

#[test]
fn freeze_then_unfreeze_is_accepted() {
    let (mut p, _) = setup();
    freeze_account(&mut p, 9).unwrap();
    unfreeze_account(&mut p, 9).unwrap();
    assert!(freeze_account(&mut p, 9).is_ok());
}

fn airdrop_setup(holders: Vec<(u64, i128)>) -> (VeriTixPay, Ledger) {
    let mut p = VeriTixPay::new(CONTRACT, holders);
    EscrowContract::initialize(&mut p, ADMIN).unwrap();
    (p, Ledger::with(ADMIN, 100_000))
}

#[test]
fn test_airdrop_success() {
    let (mut p, mut l) = airdrop_setup(vec![(11, 300), (12, 700)]);
    let (_, transfers) = p.airdrop(ADMIN, 10_000, TOKEN, 0).unwrap();
    l.apply_all(&transfers);
    assert_eq!(l.balance(11), 3000);
    assert_eq!(l.balance(12), 7000);
}

#[test]
fn test_airdrop_too_many_holders() {
    let holders: Vec<(u64, i128)> = (0..51u64).map(|i| (100 + i, 10)).collect();
    let (mut p, _) = airdrop_setup(holders);
    let err = p.airdrop(ADMIN, 10_000, TOKEN, 0).unwrap_err();
    assert!(err.message().contains("maximum 50 holders per airdrop call"));
}

#[test]
fn airdrop_rounds_each_share_down_and_needs_the_admin() {
    let (mut p, mut l) = airdrop_setup(vec![(11, 1), (12, 1), (13, 1)]);
    assert_eq!(p.airdrop(2, 100, TOKEN, 0).err(), Some(PayError::NotAdmin));
    let (_, transfers) = p.airdrop(ADMIN, 100, TOKEN, 0).unwrap();
    l.apply_all(&transfers);
    assert_eq!((l.balance(11), l.balance(12), l.balance(13)), (33, 33, 33));
    // Only the rounded shares are deposited: one unit of the total stays with the admin.
    assert_eq!(l.balance(ADMIN), 100_000 - 99);
    assert_eq!(l.balance(CONTRACT), 0);
}

#[test]
fn airdrop_without_holdings_is_refused() {
    let (mut p, _) = airdrop_setup(Vec::new());
    assert_eq!(p.airdrop(ADMIN, 100, TOKEN, 0).err(), Some(PayError::NoHoldings));
}

#[test]
fn initialize_only_once() {
    let (mut p, _) = setup();
    EscrowContract::initialize(&mut p, ADMIN).unwrap();
    assert_eq!(EscrowContract::initialize(&mut p, 2), Err(PayError::AlreadyInitialized));
}

#[test]
fn test_open_dispute_adds_to_claimant_history() {
    let (mut p, _) = setup();
    let claimant = 8;
    open_dispute(&mut p, claimant, 1, 100);
    let history = get_disputes_by_claimant(&p, claimant);
    assert_eq!(history.len(), 1);
    assert_eq!(history[0], 100);
    open_dispute(&mut p, claimant, 1, 101);
    let history = get_disputes_by_claimant(&p, claimant);
    assert_eq!(history.len(), 2);
    assert_eq!(history[1], 101);
}

#[test]
fn recurring_history_keeps_each_execution_in_order() {
    let (mut p, _) = setup();
    execute_recurring(&mut p, DEPOSITOR, 3, 50, 1100);
    execute_recurring(&mut p, DEPOSITOR, 3, 50, 1200);
    assert_eq!(
        get_recurring_history(&p, 3),
        vec![
            RecurringPayment { recurring_id: 3, execution_ledger: 1100, amount: 50 },
            RecurringPayment { recurring_id: 3, execution_ledger: 1200, amount: 50 },
        ]
    );
    assert!(get_recurring_history(&p, 4).is_empty());
}

#[test]
fn consistency_check_catches_a_renumbered_escrow() {
    let (mut p, mut l) = setup();
    escrow(&mut p, &mut l, 100);
    assert!(p.is_consistent());
    p.escrows[0].id = 3;
    assert!(!p.is_consistent());
}

#[test]
fn escrow_age_counts_ledgers_since_creation() {
    let (mut p, _) = setup();
    let (id, _) = p.create_escrow(DEPOSITOR, BENEFICIARY, TOKEN, 100, EXPIRY, Vec::new(), 40).unwrap();
    assert_eq!(p.get_escrow_age(id, 40), Ok(0));
    assert_eq!(p.get_escrow_age(id, 65), Ok(25));
    assert_eq!(p.get_escrow_age(id, 10), Ok(0));
    assert_eq!(p.get_escrow_age(id + 1, 65), Err(PayError::EscrowNotFound));
    assert_eq!(p.get_escrows_batch(vec![id])[0].unwrap().created_ledger, 40);
}

#[test]
fn placeholder_admin_is_refused() {
    let (mut p, _) = setup();
    let err = EscrowContract::initialize(&mut p, 0).unwrap_err();
    assert_eq!(err, PayError::InvalidAdmin);
    assert_eq!(err.message(), "InvalidAdmin: Cannot use sentinel address");
    EscrowContract::initialize(&mut p, ADMIN).unwrap();
    assert_eq!(EscrowContract::initialize(&mut p, 0), Err(PayError::InvalidAdmin));
}

#[test]
fn indexes_list_each_partys_escrows_in_order() {
    let (mut p, mut l) = setup();
    let a = escrow(&mut p, &mut l, 10);
    let (b, deposit) = p.create_escrow(DEPOSITOR, ORGANISER, TOKEN, 20, EXPIRY, Vec::new(), 0).unwrap();
    l.apply(&deposit);
    let c = escrow(&mut p, &mut l, 30);
    l.apply(&p.release_escrow(DEPOSITOR, a, 0).unwrap());
    assert_eq!(p.get_escrows_by_beneficiary(BENEFICIARY), vec![a, c]);
    assert_eq!(p.get_escrows_by_beneficiary(ORGANISER), vec![b]);
    assert_eq!(p.get_escrows_by_depositor(DEPOSITOR), vec![a, b, c]);
    assert!(p.get_escrows_by_depositor(BENEFICIARY).is_empty());
}
