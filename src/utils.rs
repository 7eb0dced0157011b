//! Record type tags and the administrator's key.
use crate::codec::{key_value, Key};
use vstd::prelude::*;

verus! {

/// The kinds of record the ledger keeps; each is marked by a tag byte.
#[derive(Clone, Copy, Debug, PartialEq, Eq, Structural)]
pub enum AccTypes {
    BorrowerAcc,
    LendersAcc,
    GuarantorAcc,
    LoanInfoAcc,
}

/// Tag byte of a borrower record.
pub const BORROWER_ACC_TAG: u8 = 2;

/// Tag byte of the lender ledger.
pub const LENDERS_ACC_TAG: u8 = 3;

/// Tag byte of a guarantor record.
pub const GUARANTOR_ACC_TAG: u8 = 4;

/// Tag byte of a loan record.
pub const LOAN_INFO_ACC_TAG: u8 = 5;

pub open spec fn acc_tag(t: AccTypes) -> u8 {
    match t {
        AccTypes::BorrowerAcc => BORROWER_ACC_TAG,
        AccTypes::LendersAcc => LENDERS_ACC_TAG,
        AccTypes::GuarantorAcc => GUARANTOR_ACC_TAG,
        AccTypes::LoanInfoAcc => LOAN_INFO_ACC_TAG,
    }
}

impl AccTypes {
    /// The tag byte that marks a record of this kind.
    pub fn tag(&self) -> (r: u8)
        ensures
            r == acc_tag(*self),
    {
        match self {
            AccTypes::BorrowerAcc => BORROWER_ACC_TAG,
            AccTypes::LendersAcc => LENDERS_ACC_TAG,
            AccTypes::GuarantorAcc => GUARANTOR_ACC_TAG,
            AccTypes::LoanInfoAcc => LOAN_INFO_ACC_TAG,
        }
    }
}

/// What base58 decoding gives for a text: `None` where it is not base58.
pub uninterp spec fn base58_decoding(s: Seq<char>) -> Option<Seq<u8>>;

/// Relies on `bs58::decode(..).into_vec()` (Bitcoin alphabet): its result
/// depends on the text alone; `Err` becomes `None`.
#[verifier::external_body]
fn decode_base58(s: &str) -> (r: Option<Vec<u8>>)
    ensures
        match r {
            Some(v) => base58_decoding(s@) == Some(v@),
            None => base58_decoding(s@) is None,
        },
{
    bs58::decode(s).into_vec().ok()
}

/// The administrator's key, in base58.
pub const ADMIN_KEY_BASE58: &'static str = "857Tm9dNi6Ypur9zCcJ9oAhqYd3bE6J6s2ww77PKCSa";

/// The key that a base58 text names: `None` where the text does not decode to 32 bytes.
pub open spec fn key_from_base58(s: Seq<char>) -> Option<Key> {
    match base58_decoding(s) {
        Some(b) => if b.len() == 32 {
            Some(key_value(b))
        } else {
            None
        },
        None => None,
    }
}

/// The administrator's key, decoded from its base58 text.
pub fn get_admin_pubkey() -> (r: Option<Key>)
    ensures
        r == key_from_base58(ADMIN_KEY_BASE58@),
{
    match decode_base58(ADMIN_KEY_BASE58) {
        Some(v) => Key::from_bytes(v.as_slice()),
        None => None,
    }
}

} // verus!
