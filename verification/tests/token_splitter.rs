use veritixpay::token::balance::{increase_supply, read_balance, read_total_supply, receive_balance};
use veritixpay::token::contract::VeritixToken;
use veritixpay::token::splitter::{cancel_split, create_split, create_split_with_memo, distribute, get_split};
use veritixpay::token::types::{SplitRecipient, TokenError, TokenEvent};

const CONTRACT: u64 = 1000;
const SENDER: u64 = 1;
const R1: u64 = 11;
const R2: u64 = 12;
const R3: u64 = 13;

fn setup() -> VeritixToken {
    VeritixToken::new(CONTRACT)
}

fn make_recipients(shares: &[(u64, u32)]) -> Vec<SplitRecipient> {
    shares.iter().map(|(address, share_bps)| SplitRecipient { address: *address, share_bps: *share_bps }).collect()
}

fn expect_err<T>(r: Result<T, TokenError>, expected: &str) {
    match r {
        Ok(_) => panic!("expected an error containing {expected:?}"),
        Err(e) => assert!(e.message().contains(expected), "{:?} does not contain {:?}", e.message(), expected),
    }
}

fn funded_split(t: &mut VeritixToken, shares: &[(u64, u32)], amount: i128) -> u32 {
    receive_balance(t, SENDER, amount).unwrap();
    create_split(t, SENDER, make_recipients(shares), amount).unwrap()
}

#[test]
fn test_create_split_stores_record() {
    let mut t = setup();
    let split_id = funded_split(&mut t, &[(R1, 5000), (R2, 5000)], 1000);
    let record = get_split(&t, split_id).unwrap();
    assert_eq!(record.sender, SENDER);
    assert_eq!(record.total_amount, 1000);
    assert!(!record.distributed);
    assert!(!record.cancelled);
}

#[test]
fn test_distribute_two_recipients_equal_split() {
    let mut t = setup();
    let split_id = funded_split(&mut t, &[(R1, 5000), (R2, 5000)], 1000);
    distribute(&mut t, SENDER, split_id).unwrap();
    assert_eq!(read_balance(&t, R1), 500);
    assert_eq!(read_balance(&t, R2), 500);
    assert!(get_split(&t, split_id).unwrap().distributed);
}

#[test]
fn test_cancel_split_refunds_sender_and_marks_record() {
    let mut t = setup();
    let split_id = funded_split(&mut t, &[(R1, 10000)], 1000);
    assert_eq!(read_balance(&t, SENDER), 0);
    cancel_split(&mut t, SENDER, split_id).unwrap();
    let record = get_split(&t, split_id).unwrap();
    assert!(record.cancelled);
    assert!(!record.distributed);
    assert_eq!(read_balance(&t, SENDER), 1000);
    assert_eq!(read_balance(&t, R1), 0);
}

#[test]
fn test_distribute_rounding_dust_goes_to_last_recipient() {
    let mut t = setup();
    let split_id = funded_split(&mut t, &[(R1, 3333), (R2, 3333), (R3, 3334)], 10);
    distribute(&mut t, SENDER, split_id).unwrap();
    assert_eq!(read_balance(&t, R1), 3);
    assert_eq!(read_balance(&t, R2), 3);
    assert_eq!(read_balance(&t, R3), 4);
}

#[test]
fn test_distribute_unauthorized_panics() {
    let mut t = setup();
    let split_id = funded_split(&mut t, &[(R1, 10000)], 1000);
    expect_err(distribute(&mut t, 666, split_id), "unauthorized");
    assert!(!get_split(&t, split_id).unwrap().distributed);
}

#[test]
fn test_double_distribute_panics() {
    let mut t = setup();
    let split_id = funded_split(&mut t, &[(R1, 10000)], 1000);
    distribute(&mut t, SENDER, split_id).unwrap();
    expect_err(distribute(&mut t, SENDER, split_id), "already distributed");
}

#[test]
fn test_cancel_after_distribute_panics() {
    let mut t = setup();
    let split_id = funded_split(&mut t, &[(R1, 10000)], 1000);
    distribute(&mut t, SENDER, split_id).unwrap();
    expect_err(cancel_split(&mut t, SENDER, split_id), "already distributed");
}

#[test]
fn test_distribute_after_cancel_panics() {
    let mut t = setup();
    let split_id = funded_split(&mut t, &[(R1, 10000)], 1000);
    cancel_split(&mut t, SENDER, split_id).unwrap();
    expect_err(distribute(&mut t, SENDER, split_id), "split cancelled");
}

#[test]
fn test_create_split_rejects_empty_recipients() {
    let mut t = setup();
    receive_balance(&mut t, SENDER, 1000).unwrap();
    expect_err(create_split(&mut t, SENDER, Vec::new(), 1000), "recipients list cannot be empty");
}

#[test]
fn test_create_split_rejects_zero_share_recipient() {
    let mut t = setup();
    receive_balance(&mut t, SENDER, 1000).unwrap();
    expect_err(
        create_split(&mut t, SENDER, make_recipients(&[(R1, 10000), (R2, 0)]), 1000),
        "recipient share_bps cannot be zero",
    );
}

#[test]
fn test_create_split_rejects_duplicate_recipients() {
    let mut t = setup();
    receive_balance(&mut t, SENDER, 1000).unwrap();
    expect_err(
        create_split(&mut t, SENDER, make_recipients(&[(R1, 5000), (R1, 5000)]), 1000),
        "duplicate recipient address",
    );
}

#[test]
fn test_create_split_rejects_non_positive_amount() {
    let mut t = setup();
    expect_err(create_split(&mut t, SENDER, make_recipients(&[(R1, 10000)]), 0), "amount must be positive");
}

#[test]
fn test_create_split_too_many_recipients_panics() {
    let mut t = setup();
    receive_balance(&mut t, SENDER, 1000).unwrap();
    let pairs: Vec<SplitRecipient> = (0..21u64).map(|i| SplitRecipient { address: 100 + i, share_bps: 476 }).collect();
    expect_err(create_split(&mut t, SENDER, pairs, 1000), "TooManyRecipients: maximum 20 recipients allowed");
}

#[test]
fn test_split_create_and_distribute_preserves_supply() {
    let mut t = setup();
    let amount = 1_000i128;
    receive_balance(&mut t, SENDER, amount).unwrap();
    increase_supply(&mut t, amount).unwrap();
    let all = [SENDER, R1, R2, CONTRACT];
    let held = |t: &VeritixToken| all.iter().map(|a| read_balance(t, *a)).sum::<i128>();
    assert_eq!(read_total_supply(&t), held(&t));
    let split_id = create_split(&mut t, SENDER, make_recipients(&[(R1, 5000), (R2, 5000)]), amount).unwrap();
    assert_eq!(read_total_supply(&t), held(&t));
    distribute(&mut t, SENDER, split_id).unwrap();
    assert_eq!(read_total_supply(&t), held(&t));
}

#[test]
fn split_shares_must_add_up_to_the_whole() {
    let mut t = setup();
    receive_balance(&mut t, SENDER, 1000).unwrap();
    expect_err(create_split(&mut t, SENDER, make_recipients(&[(R1, 5000), (R2, 4000)]), 1000), "total bps must equal 10000");
    assert_eq!(read_balance(&t, SENDER), 1000);
}

#[test]
fn split_needs_the_sender_to_hold_the_amount() {
    let mut t = setup();
    receive_balance(&mut t, SENDER, 999).unwrap();
    assert_eq!(
        create_split(&mut t, SENDER, make_recipients(&[(R1, 10000)]), 1000).err(),
        Some(TokenError::InsufficientBalance)
    );
}

#[test]
fn split_ids_count_from_one_and_distribution_event_names_the_total() {
    let mut t = setup();
    let first = funded_split(&mut t, &[(R1, 10000)], 10);
    let second = funded_split(&mut t, &[(R2, 2500), (R3, 7500)], 7);
    assert_eq!((first, second), (1, 2));
    let ev = distribute(&mut t, SENDER, second).unwrap();
    assert_eq!(ev, TokenEvent::SplitDistributed { split_id: 2, sender: SENDER, amount: 7 });
    // 7 * 2500 / 10000 rounds down to 1; the last recipient takes the rest.
    assert_eq!(read_balance(&t, R2), 1);
    assert_eq!(read_balance(&t, R3), 6);
    assert_eq!(read_balance(&t, CONTRACT), 10);
}

#[test]
fn split_memo_is_kept_and_bounded() {
    let mut t = setup();
    receive_balance(&mut t, SENDER, 100).unwrap();
    let id = create_split_with_memo(&mut t, SENDER, make_recipients(&[(R1, 10000)]), 50, b"tour".to_vec()).unwrap();
    assert_eq!(get_split(&t, id).unwrap().memo, b"tour".to_vec());
    expect_err(
        create_split_with_memo(&mut t, SENDER, make_recipients(&[(R1, 10000)]), 50, vec![b'x'; 65]),
        "MemoTooLong",
    );
    assert_eq!(get_split(&t, 9).err(), Some(TokenError::SplitNotFound));
}
