//! User records of the external store, and the decisions the engine reads
//! from them: whether a session may start, what its target list is, and
//! how a record is created and given its target address.

use vstd::prelude::*;

use crate::address::{check_spec, base58_decoded, validate_target_address, AddressCheck};
use vstd::string::StringExecFns;

verus! {

/// One user's persisted record: the imported wallet key, the configured
/// copy-target address, and the usage count of the quota ledger.
#[derive(Clone, Debug, PartialEq)]
pub struct UserRecord {
    pub private_key: Option<String>,
    pub target_address: Option<String>,
    pub usage: u64,
}

/// The record created when a user first imports a wallet: no target yet,
/// usage zero.
pub fn new_wallet_record(private_key: String) -> (r: UserRecord)
    ensures
        r.private_key == Some(private_key),
        r.target_address is None,
        r.usage == 0,
{
    UserRecord { private_key: Some(private_key), target_address: None, usage: 0 }
}

/// Whether trading can start for a user, and if not, what is missing.
#[derive(Clone, Copy, Debug, PartialEq, Eq, Structural)]
pub enum RunGate {
    /// No record exists for this user at all.
    NoUser,
    /// The record has no imported wallet yet.
    WalletMissing,
    /// The record has no target address yet.
    TargetMissing,
    /// Both are present: the monitoring session may start.
    Ready,
}

/// What the stored record permits.
pub open spec fn run_gate_spec(rec: Option<UserRecord>) -> RunGate {
    match rec {
        None => RunGate::NoUser,
        Some(r) => {
            if r.private_key is None {
                RunGate::WalletMissing
            } else if r.target_address is None {
                RunGate::TargetMissing
            } else {
                RunGate::Ready
            }
        },
    }
}

/// Decide whether a monitoring session may start for this user.
pub fn run_trading_gate(rec: &Option<UserRecord>) -> (g: RunGate)
    ensures
        g == run_gate_spec(*rec),
{
    match rec {
        None => RunGate::NoUser,
        Some(r) => {
            if r.private_key.is_none() {
                RunGate::WalletMissing
            } else if r.target_address.is_none() {
                RunGate::TargetMissing
            } else {
                RunGate::Ready
            }
        },
    }
}

/// The target list a user's session monitors: the configured address when
/// one is set, otherwise empty.
pub fn target_list(rec: &UserRecord) -> (r: Vec<String>)
    ensures
        match rec.target_address {
            Some(t) => r@.len() == 1 && r@[0] == t,
            None => r@.len() == 0,
        },
{
    let mut v: Vec<String> = Vec::new();
    match &rec.target_address {
        Some(t) => v.push(t.clone()),
        None => {},
    }
    v
}

/// Outcome of an attempt to set a user's target address.
#[derive(Clone, Copy, Debug, PartialEq, Eq, Structural)]
pub enum TargetSetOutcome {
    /// The record already carries a target address; it is kept.
    AlreadySet,
    /// The input is not a well-formed address; the record is unchanged.
    Rejected(AddressCheck),
    /// The address was stored.
    Updated,
}

/// Set the target address of a record, exactly when none is set yet and
/// the input is base58 for a 32-byte public key; otherwise say why not and
/// leave the record as it was.
pub fn set_target_address(rec: &mut UserRecord, input: &str) -> (r: TargetSetOutcome)
    ensures
        old(rec).target_address is Some ==> r == TargetSetOutcome::AlreadySet && *final(rec)
            == *old(rec),
        old(rec).target_address is None && check_spec(base58_decoded(input@), 32)
            != AddressCheck::Valid ==> r == TargetSetOutcome::Rejected(
            check_spec(base58_decoded(input@), 32),
        ) && *final(rec) == *old(rec),
        old(rec).target_address is None && check_spec(base58_decoded(input@), 32)
            == AddressCheck::Valid ==> r == TargetSetOutcome::Updated
            && (final(rec).target_address matches Some(t) && t@ == input@)
            && final(rec).private_key == old(rec).private_key
            && final(rec).usage == old(rec).usage,
{
    if rec.target_address.is_some() {
        return TargetSetOutcome::AlreadySet;
    }
    let verdict = validate_target_address(input);
    match verdict {
        AddressCheck::Valid => {
            rec.target_address = Some(String::from_str(input));
            TargetSetOutcome::Updated
        },
        _ => TargetSetOutcome::Rejected(verdict),
    }
}

} // verus!
