//! Validation of base58-encoded wallet input: target addresses must be
//! 32-byte public keys, imported private keys 64-byte keypairs.

use vstd::prelude::*;

verus! {

/// The byte sequence a base58 string decodes to under the Bitcoin
/// alphabet, or nothing when the string is not valid base58. The decoding
/// is a pure function of the input characters alone.
pub uninterp spec fn base58_decoded(s: Seq<char>) -> Option<Seq<u8>>;

/// Relies on `bs58::decode(..).into_vec()`: decodes the string with the
/// Bitcoin alphabet into its byte payload, failing exactly on input that
/// is not base58; the result depends on the input characters alone.
#[verifier::external_body]
fn decode_base58(s: &str) -> (r: Option<Vec<u8>>)
    ensures
        match r {
            Some(v) => base58_decoded(s@) == Some(v@),
            None => base58_decoded(s@) is None,
        },
{
    bs58::decode(s).into_vec().ok()
}

/// Verdict on a candidate base58 key string.
#[derive(Clone, Copy, Debug, PartialEq, Eq, Structural)]
pub enum AddressCheck {
    /// Well-formed base58 of the expected byte length.
    Valid,
    /// Decodes, but not to the expected number of bytes.
    WrongLength,
    /// Not valid base58 at all.
    NotBase58,
}

/// Classification of a decoded value against an expected byte length.
pub open spec fn check_spec(decoded: Option<Seq<u8>>, expected_len: int) -> AddressCheck {
    match decoded {
        None => AddressCheck::NotBase58,
        Some(bytes) => if bytes.len() == expected_len {
            AddressCheck::Valid
        } else {
            AddressCheck::WrongLength
        },
    }
}

/// Validate a candidate target-wallet address: base58 for the 32 bytes of
/// a public key.
pub fn validate_target_address(s: &str) -> (r: AddressCheck)
    ensures
        r == check_spec(base58_decoded(s@), 32),
{
    match decode_base58(s) {
        None => AddressCheck::NotBase58,
        Some(bytes) => {
            if bytes.len() == 32 {
                AddressCheck::Valid
            } else {
                AddressCheck::WrongLength
            }
        },
    }
}

/// Validate a candidate wallet private key: base58 for the 64 bytes of a
/// keypair. Whether the two key halves belong together is checked by the
/// external key loader, not here.
pub fn validate_private_key(s: &str) -> (r: AddressCheck)
    ensures
        r == check_spec(base58_decoded(s@), 64),
{
    match decode_base58(s) {
        None => AddressCheck::NotBase58,
        Some(bytes) => {
            if bytes.len() == 64 {
                AddressCheck::Valid
            } else {
                AddressCheck::WrongLength
            }
        },
    }
}

} // verus!
