//! Tests for the usage ledger, user records, and key validation.

use copytrader::address::{validate_private_key, validate_target_address, AddressCheck};
use copytrader::dispatch::settle_ledger;
use copytrader::ledger::{quota_exceeded, UsageLedger, QUOTA_LIMIT};
use copytrader::monitor::PUMP_PROGRAM;
use copytrader::users::{
    new_wallet_record, run_trading_gate, set_target_address, target_list, RunGate,
    TargetSetOutcome, UserRecord,
};

#[test]
fn fresh_ledger_is_all_zero() {
    let ledger = UsageLedger::new();
    assert_eq!(ledger.usage_of(7), 0);
    assert_eq!(ledger.usage_of(-3), 0);
}

#[test]
fn success_increments_exactly_once() {
    let mut ledger = UsageLedger::new();
    ledger.record_success(7);
    assert_eq!(ledger.usage_of(7), 1);
    ledger.record_success(7);
    assert_eq!(ledger.usage_of(7), 2);
    assert_eq!(ledger.usage_of(8), 0);
}

#[test]
fn usage_grows_by_the_number_of_successes() {
    // Four dispatch units settle, three successfully: the count grows by
    // exactly three, and nobody else's count moves.
    let mut ledger = UsageLedger::new();
    ledger.set_usage(7, 1);
    ledger.set_usage(9, 5);
    ledger.replay_outcomes(7, &vec![true, false, true, true]);
    assert_eq!(ledger.usage_of(7), 4);
    assert_eq!(ledger.usage_of(9), 5);
}

#[test]
fn failed_settlement_leaves_the_ledger_alone() {
    let mut ledger = UsageLedger::new();
    ledger.set_usage(7, 1);
    settle_ledger(&mut ledger, 7, false);
    assert_eq!(ledger.usage_of(7), 1);
    settle_ledger(&mut ledger, 7, true);
    assert_eq!(ledger.usage_of(7), 2);
}

#[test]
fn quota_boundary_is_strict() {
    assert!(!quota_exceeded(QUOTA_LIMIT, QUOTA_LIMIT));
    assert!(quota_exceeded(QUOTA_LIMIT + 1, QUOTA_LIMIT));
    assert!(!quota_exceeded(0, QUOTA_LIMIT));
    assert_eq!(QUOTA_LIMIT, 2);
}

#[test]
fn ledger_reset_reopens_dispatch() {
    // An external reset (rewriting the stored count) takes effect on the
    // next quota check.
    let mut ledger = UsageLedger::new();
    ledger.set_usage(7, 3);
    assert!(quota_exceeded(ledger.usage_of(7), QUOTA_LIMIT));
    ledger.set_usage(7, 0);
    assert!(!quota_exceeded(ledger.usage_of(7), QUOTA_LIMIT));
}

#[test]
fn wallet_record_starts_clean() {
    let rec = new_wallet_record("secret".to_string());
    assert_eq!(rec.private_key.as_deref(), Some("secret"));
    assert_eq!(rec.target_address, None);
    assert_eq!(rec.usage, 0);
}

#[test]
fn run_gate_names_whats_missing() {
    assert_eq!(run_trading_gate(&None), RunGate::NoUser);
    let no_key = UserRecord { private_key: None, target_address: None, usage: 0 };
    assert_eq!(run_trading_gate(&Some(no_key)), RunGate::WalletMissing);
    let no_target = new_wallet_record("k".to_string());
    assert_eq!(run_trading_gate(&Some(no_target)), RunGate::TargetMissing);
    let mut ready = new_wallet_record("k".to_string());
    ready.target_address = Some("A".to_string());
    assert_eq!(run_trading_gate(&Some(ready)), RunGate::Ready);
}

#[test]
fn target_list_mirrors_the_record() {
    let mut rec = new_wallet_record("k".to_string());
    assert!(target_list(&rec).is_empty());
    rec.target_address = Some("A".to_string());
    assert_eq!(target_list(&rec), vec!["A".to_string()]);
}

#[test]
fn setting_a_valid_target_address() {
    let mut rec = new_wallet_record("k".to_string());
    assert_eq!(set_target_address(&mut rec, PUMP_PROGRAM), TargetSetOutcome::Updated);
    assert_eq!(rec.target_address.as_deref(), Some(PUMP_PROGRAM));
    assert_eq!(rec.usage, 0);
}

#[test]
fn target_address_is_set_only_once() {
    let mut rec = new_wallet_record("k".to_string());
    set_target_address(&mut rec, PUMP_PROGRAM);
    assert_eq!(set_target_address(&mut rec, "3yEqvSt2kxMLDdDQF5fxZDTvRPesa2eKhoBuLpeJZdVb"), TargetSetOutcome::AlreadySet);
    assert_eq!(rec.target_address.as_deref(), Some(PUMP_PROGRAM));
}

#[test]
fn bad_target_addresses_are_rejected() {
    let mut rec = new_wallet_record("k".to_string());
    assert_eq!(
        set_target_address(&mut rec, "abc"),
        TargetSetOutcome::Rejected(AddressCheck::WrongLength)
    );
    assert_eq!(
        set_target_address(&mut rec, "0OIl"),
        TargetSetOutcome::Rejected(AddressCheck::NotBase58)
    );
    assert_eq!(rec.target_address, None);
}

#[test]
fn target_address_validation() {
    // A 44-character base58 program id decodes to exactly 32 bytes; the
    // verdict reflects the decoded length, not the character count.
    assert_eq!(validate_target_address(PUMP_PROGRAM), AddressCheck::Valid);
    assert_eq!(
        validate_target_address("JUP6LkbZbjS1jKKwapdHNy74zcZ3tLUZoi5QNyVTaV4"),
        AddressCheck::Valid
    );
    assert_eq!(validate_target_address("abc"), AddressCheck::WrongLength);
    assert_eq!(validate_target_address(""), AddressCheck::WrongLength);
    assert_eq!(validate_target_address("0"), AddressCheck::NotBase58);
    assert_eq!(validate_target_address("he11o wor1d"), AddressCheck::NotBase58);
}

#[test]
fn private_key_validation() {
    // 64 zero bytes encode as 64 ones in base58.
    let key64 = "1".repeat(64);
    assert_eq!(validate_private_key(&key64), AddressCheck::Valid);
    // A 32-byte value is a public key, not a keypair.
    let key32 = "1".repeat(32);
    assert_eq!(validate_private_key(&key32), AddressCheck::WrongLength);
    assert_eq!(validate_private_key("not+base58"), AddressCheck::NotBase58);
}
