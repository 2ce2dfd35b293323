use x402_escrow::error::{ErrorCode, LedgerError};
use x402_escrow::key::AccountKey;
use x402_escrow::ledger::PaymentLedger;
use x402_escrow::record::{
    deposit_payment, initialize_payment, refund_payment, verify_and_release, Holder,
    PaymentRequirement, Transfer, MAX_REQUEST_ID_LEN,
};

const T: i64 = 1_700_000_000;

fn key(b: u8) -> AccountKey {
    AccountKey::new([b; 32])
}

fn id(s: &str) -> String {
    s.to_string()
}

fn fresh(amount: u64) -> PaymentRequirement {
    initialize_payment(key(1), id("req-1"), amount, T + 3600, T, 254).unwrap()
}

fn paid(amount: u64) -> PaymentRequirement {
    let mut p = fresh(amount);
    deposit_payment(&mut p, key(2), &id("req-1"), T + 10).unwrap();
    p
}

#[test]
fn create_fills_every_field() {
    let p = fresh(1000);
    assert_eq!(p.seller, key(1));
    assert_eq!(p.request_id, "req-1");
    assert_eq!(p.amount, 1000);
    assert_eq!(p.expires_at, T + 3600);
    assert!(!p.is_paid);
    assert!(p.payer.is_default());
    assert_eq!(p.payer, AccountKey::default_key());
    assert_eq!(p.bump, 254);
}

#[test]
fn create_zero_amount_is_invalid() {
    let r = initialize_payment(key(1), id("req-1"), 0, T + 3600, T, 0);
    assert_eq!(r.unwrap_err(), ErrorCode::InvalidAmount);
}

#[test]
fn create_zero_amount_reported_before_expiration() {
    let r = initialize_payment(key(1), id("req-1"), 0, T - 1, T, 0);
    assert_eq!(r.unwrap_err(), ErrorCode::InvalidAmount);
}

#[test]
fn create_expiration_now_is_invalid() {
    let r = initialize_payment(key(1), id("req-1"), 5, T, T, 0);
    assert_eq!(r.unwrap_err(), ErrorCode::InvalidExpiration);
    let r = initialize_payment(key(1), id("req-1"), 5, T - 100, T, 0);
    assert_eq!(r.unwrap_err(), ErrorCode::InvalidExpiration);
}

#[test]
fn create_expiration_one_second_ahead_is_valid() {
    assert!(initialize_payment(key(1), id("req-1"), 5, T + 1, T, 0).is_ok());
}

#[test]
fn create_request_id_of_64_bytes_is_valid() {
    let long = "a".repeat(MAX_REQUEST_ID_LEN);
    let p = initialize_payment(key(1), long.clone(), 5, T + 1, T, 0).unwrap();
    assert_eq!(p.request_id, long);
}

#[test]
fn create_request_id_of_65_bytes_is_too_long() {
    let r = initialize_payment(key(1), "a".repeat(65), 5, T + 1, T, 0);
    assert_eq!(r.unwrap_err(), ErrorCode::RequestIdTooLong);
}

#[test]
fn create_request_id_is_measured_in_bytes() {
    // 33 characters of two bytes each: 66 bytes.
    let r = initialize_payment(key(1), "é".repeat(33), 5, T + 1, T, 0);
    assert_eq!(r.unwrap_err(), ErrorCode::RequestIdTooLong);
    // 32 characters of two bytes each: 64 bytes.
    assert!(initialize_payment(key(1), "é".repeat(32), 5, T + 1, T, 0).is_ok());
}

#[test]
fn create_empty_request_id_is_valid() {
    assert!(initialize_payment(key(1), String::new(), 5, T + 1, T, 0).is_ok());
}

#[test]
fn deposit_marks_paid_and_moves_amount() {
    let mut p = fresh(1000);
    let t = deposit_payment(&mut p, key(2), &id("req-1"), T + 10).unwrap();
    assert_eq!(t, Transfer { from: Holder::Account(key(2)), to: Holder::Custody, amount: 1000 });
    assert!(p.is_paid);
    assert_eq!(p.payer, key(2));
    assert_eq!(p.amount, 1000);
}

#[test]
fn deposit_twice_is_already_paid() {
    let mut p = paid(1000);
    let r = deposit_payment(&mut p, key(3), &id("req-1"), T + 11);
    assert_eq!(r.unwrap_err(), ErrorCode::AlreadyPaid);
    assert_eq!(p.payer, key(2));
    // Even after the deadline the answer stays the same.
    let r = deposit_payment(&mut p, key(2), &id("req-1"), T + 99_999);
    assert_eq!(r.unwrap_err(), ErrorCode::AlreadyPaid);
}

#[test]
fn deposit_at_deadline_is_expired() {
    let mut p = fresh(1000);
    let r = deposit_payment(&mut p, key(2), &id("req-1"), T + 3600);
    assert_eq!(r.unwrap_err(), ErrorCode::PaymentExpired);
    assert!(!p.is_paid);
    assert!(p.payer.is_default());
}

#[test]
fn deposit_with_other_request_id_is_refused() {
    let mut p = fresh(1000);
    let r = deposit_payment(&mut p, key(2), &id("req-2"), T + 10);
    assert_eq!(r.unwrap_err(), ErrorCode::InvalidRequestId);
    assert!(!p.is_paid);
}

#[test]
fn release_pays_seller() {
    let p = paid(1000);
    let t = verify_and_release(&p, &id("req-1"), key(1)).unwrap();
    assert_eq!(t, Transfer { from: Holder::Custody, to: Holder::Account(key(1)), amount: 1000 });
}

#[test]
fn release_unpaid_is_not_paid() {
    let p = fresh(1000);
    assert_eq!(verify_and_release(&p, &id("req-1"), key(1)).unwrap_err(), ErrorCode::NotPaid);
}

#[test]
fn release_with_other_request_id_is_refused() {
    let p = paid(1000);
    assert_eq!(verify_and_release(&p, &id("req-x"), key(1)).unwrap_err(), ErrorCode::InvalidRequestId);
}

#[test]
fn release_to_other_seller_is_unauthorized() {
    let p = paid(1000);
    assert_eq!(verify_and_release(&p, &id("req-1"), key(9)).unwrap_err(), ErrorCode::UnauthorizedSeller);
}

#[test]
fn refund_after_deadline_pays_payer() {
    let p = paid(1000);
    let t = refund_payment(&p, &id("req-1"), key(2), T + 3600).unwrap();
    assert_eq!(t, Transfer { from: Holder::Custody, to: Holder::Account(key(2)), amount: 1000 });
}

#[test]
fn refund_unpaid_is_not_paid() {
    let p = fresh(1000);
    assert_eq!(refund_payment(&p, &id("req-1"), key(2), T + 4000).unwrap_err(), ErrorCode::NotPaid);
}

#[test]
fn refund_with_other_request_id_is_refused() {
    let p = paid(1000);
    assert_eq!(refund_payment(&p, &id("nope"), key(2), T + 4000).unwrap_err(), ErrorCode::InvalidRequestId);
}

#[test]
fn refund_by_other_caller_is_unauthorized() {
    let p = paid(1000);
    assert_eq!(refund_payment(&p, &id("req-1"), key(7), T + 4000).unwrap_err(), ErrorCode::UnauthorizedPayer);
}

#[test]
fn refund_before_deadline_is_not_expired() {
    let p = paid(1000);
    assert_eq!(refund_payment(&p, &id("req-1"), key(2), T + 3599).unwrap_err(), ErrorCode::PaymentNotExpired);
}

#[test]
fn error_messages() {
    assert_eq!(ErrorCode::InvalidAmount.message(), "Invalid amount: must be greater than 0");
    assert_eq!(ErrorCode::PaymentNotExpired.message(), "Payment not expired yet");
    assert_eq!(ErrorCode::RequestIdTooLong.message(), "Request ID too long: maximum 64 characters");
}

#[test]
fn keys_compare_by_bytes() {
    let mut b = [1u8; 32];
    assert!(AccountKey::new(b).same_as(&key(1)));
    b[31] = 0;
    assert!(!AccountKey::new(b).same_as(&key(1)));
    assert!(AccountKey::new(b) != key(1));
    assert!(!AccountKey::new(b).is_default());
    assert!(AccountKey::new([0u8; 32]).is_default());
}

#[test]
fn ledger_full_release_scenario() {
    let s = key(1);
    let p = key(2);
    let mut l = PaymentLedger::new();
    assert!(l.initialize_payment(s, id("req-1"), 1000, T + 3600, T, 255).is_ok());
    assert_eq!(l.len(), 1);
    let t = l.deposit_payment(&s, &id("req-1"), p, T + 10).unwrap();
    assert_eq!(t, Transfer { from: Holder::Account(p), to: Holder::Custody, amount: 1000 });
    let rec = l.find(&s, &id("req-1")).unwrap();
    assert!(rec.is_paid);
    assert_eq!(rec.payer, p);
    assert_eq!(rec.amount, 1000);
    let t = l.verify_and_release(&s, &id("req-1")).unwrap();
    assert_eq!(t, Transfer { from: Holder::Custody, to: Holder::Account(s), amount: 1000 });
    assert_eq!(l.len(), 0);
    assert!(l.find(&s, &id("req-1")).is_none());
    let r = l.refund_payment(&s, &id("req-1"), p, T + 5000);
    assert_eq!(r.unwrap_err(), LedgerError::AccountNotFound);
}

#[test]
fn ledger_zero_amount_creates_nothing() {
    let mut l = PaymentLedger::new();
    let r = l.initialize_payment(key(1), id("req-1"), 0, T + 3600, T, 0);
    assert_eq!(r.unwrap_err(), LedgerError::Escrow(ErrorCode::InvalidAmount));
    assert_eq!(l.len(), 0);
    assert!(l.find(&key(1), &id("req-1")).is_none());
}

#[test]
fn ledger_deposit_after_deadline_is_expired() {
    let mut l = PaymentLedger::new();
    l.initialize_payment(key(1), id("req-1"), 1000, T + 3600, T, 0).unwrap();
    let r = l.deposit_payment(&key(1), &id("req-1"), key(2), T + 3601);
    assert_eq!(r.unwrap_err(), LedgerError::Escrow(ErrorCode::PaymentExpired));
    assert!(!l.find(&key(1), &id("req-1")).unwrap().is_paid);
}

#[test]
fn ledger_refund_before_deadline_is_not_expired() {
    let mut l = PaymentLedger::new();
    l.initialize_payment(key(1), id("req-1"), 1000, T + 3600, T, 0).unwrap();
    l.deposit_payment(&key(1), &id("req-1"), key(2), T + 10).unwrap();
    let r = l.refund_payment(&key(1), &id("req-1"), key(2), T + 20);
    assert_eq!(r.unwrap_err(), LedgerError::Escrow(ErrorCode::PaymentNotExpired));
    assert_eq!(l.len(), 1);
}

#[test]
fn ledger_second_create_collides() {
    let mut l = PaymentLedger::new();
    l.initialize_payment(key(1), id("req-1"), 1000, T + 3600, T, 7).unwrap();
    let r = l.initialize_payment(key(1), id("req-1"), 5, T + 9000, T + 1, 8);
    assert_eq!(r.unwrap_err(), LedgerError::AccountInUse);
    // Even invalid arguments meet the live record first.
    let r = l.initialize_payment(key(1), id("req-1"), 0, T, T, 8);
    assert_eq!(r.unwrap_err(), LedgerError::AccountInUse);
    assert_eq!(l.len(), 1);
    let rec = l.find(&key(1), &id("req-1")).unwrap();
    assert_eq!(rec.amount, 1000);
    assert_eq!(rec.expires_at, T + 3600);
    assert_eq!(rec.bump, 7);
}

#[test]
fn ledger_pairs_are_independent() {
    let mut l = PaymentLedger::new();
    l.initialize_payment(key(1), id("req-1"), 10, T + 3600, T, 0).unwrap();
    l.initialize_payment(key(1), id("req-2"), 20, T + 3600, T, 0).unwrap();
    l.initialize_payment(key(3), id("req-1"), 30, T + 3600, T, 0).unwrap();
    assert_eq!(l.len(), 3);
    l.deposit_payment(&key(3), &id("req-1"), key(2), T + 1).unwrap();
    assert!(l.find(&key(3), &id("req-1")).unwrap().is_paid);
    assert!(!l.find(&key(1), &id("req-1")).unwrap().is_paid);
    assert_eq!(l.find(&key(1), &id("req-2")).unwrap().amount, 20);
}

#[test]
fn ledger_refund_then_release_finds_nothing() {
    let mut l = PaymentLedger::new();
    l.initialize_payment(key(1), id("req-1"), 1000, T + 3600, T, 0).unwrap();
    l.deposit_payment(&key(1), &id("req-1"), key(2), T + 10).unwrap();
    let t = l.refund_payment(&key(1), &id("req-1"), key(2), T + 3600).unwrap();
    assert_eq!(t, Transfer { from: Holder::Custody, to: Holder::Account(key(2)), amount: 1000 });
    let r = l.verify_and_release(&key(1), &id("req-1"));
    assert_eq!(r.unwrap_err(), LedgerError::AccountNotFound);
}

#[test]
fn ledger_second_deposit_is_already_paid() {
    let mut l = PaymentLedger::new();
    l.initialize_payment(key(1), id("req-1"), 1000, T + 3600, T, 0).unwrap();
    l.deposit_payment(&key(1), &id("req-1"), key(2), T + 10).unwrap();
    let r = l.deposit_payment(&key(1), &id("req-1"), key(4), T + 9000);
    assert_eq!(r.unwrap_err(), LedgerError::Escrow(ErrorCode::AlreadyPaid));
    assert_eq!(l.find(&key(1), &id("req-1")).unwrap().payer, key(2));
}

#[test]
fn ledger_unknown_pair_is_not_found() {
    let mut l = PaymentLedger::new();
    assert_eq!(l.deposit_payment(&key(1), &id("x"), key(2), T).unwrap_err(), LedgerError::AccountNotFound);
    assert_eq!(l.verify_and_release(&key(1), &id("x")).unwrap_err(), LedgerError::AccountNotFound);
    assert_eq!(l.refund_payment(&key(1), &id("x"), key(2), T).unwrap_err(), LedgerError::AccountNotFound);
}

#[test]
fn ledger_release_of_unpaid_is_not_paid() {
    let mut l = PaymentLedger::new();
    l.initialize_payment(key(1), id("req-1"), 1000, T + 3600, T, 0).unwrap();
    let r = l.verify_and_release(&key(1), &id("req-1"));
    assert_eq!(r.unwrap_err(), LedgerError::Escrow(ErrorCode::NotPaid));
    assert_eq!(l.len(), 1);
}
