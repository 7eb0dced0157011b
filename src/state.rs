//! The fixed-layout records and their byte encodings.
use crate::codec::{
    key_bytes, key_value, le_u128_bytes, le_u128_value, le_u32_bytes, le_u32_value, le_u64_bytes,
    le_u64_value, lemma_key_round_trip, lemma_u128_round_trip, lemma_u32_round_trip,
    lemma_u64_round_trip, push_key, push_u128, push_u32, push_u64, read_key, read_u128, read_u32,
    read_u64, Key,
};
use vstd::prelude::*;

verus! {

/// Bytes of one lender slot.
pub const LENDER_SLOT_SIZE: usize = 65;

/// Bytes of a loan header.
pub const LOAN_HEADER_SIZE: usize = 116;

/// Bytes of one contribution entry of a loan record.
pub const LOAN_CONTRIBUTION_SIZE: usize = 45;

/// Bytes of one repayment entry of a loan record.
pub const REPAYMENT_ENTRY_SIZE: usize = 16;

/// Bytes of a borrower record.
pub const BORROWER_RECORD_SIZE: usize = 34;

/// Bytes of a guarantor record.
pub const GUARANTOR_RECORD_SIZE: usize = 42;

/// One byte for a flag: 1 when set.
pub open spec fn flag_byte(f: bool) -> u8 {
    if f {
        1
    } else {
        0
    }
}

/// Per-lender balances, addressed by lender id in the lender ledger.
#[derive(Clone, Copy, Debug, PartialEq, Eq, Structural)]
pub struct LenderSlot {
    pub is_active: bool,
    pub owner_key: Key,
    pub total_lending_amount: u128,
    pub total_unique_principal: u64,
    pub withdrawable_balance: u64,
}

pub open spec fn lender_slot_bytes(s: LenderSlot) -> Seq<u8> {
    seq![flag_byte(s.is_active)] + key_bytes(s.owner_key) + le_u128_bytes(s.total_lending_amount)
        + le_u64_bytes(s.total_unique_principal) + le_u64_bytes(s.withdrawable_balance)
}

#[verifier::opaque]
pub open spec fn lender_slot_at(b: Seq<u8>, off: int) -> LenderSlot {
    LenderSlot {
        is_active: b[off] == 1,
        owner_key: key_value(b.subrange(off + 1, off + 33)),
        total_lending_amount: le_u128_value(b.subrange(off + 33, off + 49)),
        total_unique_principal: le_u64_value(b.subrange(off + 49, off + 57)),
        withdrawable_balance: le_u64_value(b.subrange(off + 57, off + 65)),
    }
}

/// Decoding the bytes of a lender slot gives the slot back.
pub proof fn lemma_lender_slot_round_trip(s: LenderSlot)
    ensures
        lender_slot_bytes(s).len() == LENDER_SLOT_SIZE,
        lender_slot_at(lender_slot_bytes(s), 0) == s,
{
    reveal(lender_slot_at);
    let b = lender_slot_bytes(s);
    assert(b.subrange(1, 33) =~= key_bytes(s.owner_key));
    assert(b.subrange(33, 49) =~= le_u128_bytes(s.total_lending_amount));
    assert(b.subrange(49, 57) =~= le_u64_bytes(s.total_unique_principal));
    assert(b.subrange(57, 65) =~= le_u64_bytes(s.withdrawable_balance));
    lemma_key_round_trip(s.owner_key);
    lemma_u128_round_trip(s.total_lending_amount);
    lemma_u64_round_trip(s.total_unique_principal);
    lemma_u64_round_trip(s.withdrawable_balance);
}

impl LenderSlot {
    /// A slot that no lender has bound.
    pub open spec fn empty_spec() -> LenderSlot {
        LenderSlot {
            is_active: false,
            owner_key: Key { w0: 0, w1: 0, w2: 0, w3: 0 },
            total_lending_amount: 0,
            total_unique_principal: 0,
            withdrawable_balance: 0,
        }
    }

    /// A slot that no lender has bound.
    pub fn empty() -> (r: LenderSlot)
        ensures
            r == LenderSlot::empty_spec(),
    {
        LenderSlot {
            is_active: false,
            owner_key: Key { w0: 0, w1: 0, w2: 0, w3: 0 },
            total_lending_amount: 0,
            total_unique_principal: 0,
            withdrawable_balance: 0,
        }
    }

    /// Appends the encoding of the slot.
    pub fn pack(&self, out: &mut Vec<u8>)
        ensures
            final(out)@ == old(out)@ + lender_slot_bytes(*self),
    {
        out.push(if self.is_active { 1u8 } else { 0u8 });
        push_key(out, self.owner_key);
        push_u128(out, self.total_lending_amount);
        push_u64(out, self.total_unique_principal);
        push_u64(out, self.withdrawable_balance);
        assert(final(out)@ =~= old(out)@ + lender_slot_bytes(*self));
    }

    /// Decodes the slot stored at `off`.
    pub fn unpack(b: &[u8], off: usize) -> (r: LenderSlot)
        requires
            off + LENDER_SLOT_SIZE <= b@.len(),
        ensures
            r == lender_slot_at(b@, off as int),
    {
        proof {
            reveal(lender_slot_at);
        }
        let len: usize = b.len();
        assert(off + 57 < len);
        LenderSlot {
            is_active: b[off] == 1,
            owner_key: read_key(b, off + 1),
            total_lending_amount: read_u128(b, off + 33),
            total_unique_principal: read_u64(b, off + 49),
            withdrawable_balance: read_u64(b, off + 57),
        }
    }
}

/// The aggregate part of a loan record.
#[derive(Clone, Copy, Debug, PartialEq, Eq, Structural)]
pub struct LoanHeader {
    pub state_tag: u8,
    pub borrower_key: Key,
    pub guarantor_key: Key,
    pub approval_timestamp: u64,
    pub fundraising_deadline: u64,
    pub first_repayment_deadline: u64,
    pub target_amount: u64,
    pub amount_raised: u64,
    pub amount_repaid: u64,
    pub installment_count: u8,
    pub next_contribution_index: u8,
    pub next_repayment_index: u8,
}

pub open spec fn loan_header_bytes(h: LoanHeader) -> Seq<u8> {
    seq![h.state_tag] + key_bytes(h.borrower_key) + key_bytes(h.guarantor_key) + le_u64_bytes(
        h.approval_timestamp,
    ) + le_u64_bytes(h.fundraising_deadline) + le_u64_bytes(h.first_repayment_deadline)
        + le_u64_bytes(h.target_amount) + le_u64_bytes(h.amount_raised) + le_u64_bytes(
        h.amount_repaid,
    ) + seq![h.installment_count, h.next_contribution_index, h.next_repayment_index]
}

#[verifier::opaque]
pub open spec fn loan_header_at(b: Seq<u8>, off: int) -> LoanHeader {
    LoanHeader {
        state_tag: b[off],
        borrower_key: key_value(b.subrange(off + 1, off + 33)),
        guarantor_key: key_value(b.subrange(off + 33, off + 65)),
        approval_timestamp: le_u64_value(b.subrange(off + 65, off + 73)),
        fundraising_deadline: le_u64_value(b.subrange(off + 73, off + 81)),
        first_repayment_deadline: le_u64_value(b.subrange(off + 81, off + 89)),
        target_amount: le_u64_value(b.subrange(off + 89, off + 97)),
        amount_raised: le_u64_value(b.subrange(off + 97, off + 105)),
        amount_repaid: le_u64_value(b.subrange(off + 105, off + 113)),
        installment_count: b[off + 113],
        next_contribution_index: b[off + 114],
        next_repayment_index: b[off + 115],
    }
}

/// Decoding the bytes of a loan header gives the header back.
pub proof fn lemma_loan_header_round_trip(h: LoanHeader)
    ensures
        loan_header_bytes(h).len() == LOAN_HEADER_SIZE,
        loan_header_at(loan_header_bytes(h), 0) == h,
{
    reveal(loan_header_at);
    let b = loan_header_bytes(h);
    assert(b.subrange(1, 33) =~= key_bytes(h.borrower_key));
    assert(b.subrange(33, 65) =~= key_bytes(h.guarantor_key));
    assert(b.subrange(65, 73) =~= le_u64_bytes(h.approval_timestamp));
    assert(b.subrange(73, 81) =~= le_u64_bytes(h.fundraising_deadline));
    assert(b.subrange(81, 89) =~= le_u64_bytes(h.first_repayment_deadline));
    assert(b.subrange(89, 97) =~= le_u64_bytes(h.target_amount));
    assert(b.subrange(97, 105) =~= le_u64_bytes(h.amount_raised));
    assert(b.subrange(105, 113) =~= le_u64_bytes(h.amount_repaid));
    lemma_key_round_trip(h.borrower_key);
    lemma_key_round_trip(h.guarantor_key);
    lemma_u64_round_trip(h.approval_timestamp);
    lemma_u64_round_trip(h.fundraising_deadline);
    lemma_u64_round_trip(h.first_repayment_deadline);
    lemma_u64_round_trip(h.target_amount);
    lemma_u64_round_trip(h.amount_raised);
    lemma_u64_round_trip(h.amount_repaid);
}

impl LoanHeader {
    /// Appends the encoding of the header.
    pub fn pack(&self, out: &mut Vec<u8>)
        ensures
            final(out)@ == old(out)@ + loan_header_bytes(*self),
    {
        out.push(self.state_tag);
        push_key(out, self.borrower_key);
        push_key(out, self.guarantor_key);
        push_u64(out, self.approval_timestamp);
        push_u64(out, self.fundraising_deadline);
        push_u64(out, self.first_repayment_deadline);
        push_u64(out, self.target_amount);
        push_u64(out, self.amount_raised);
        push_u64(out, self.amount_repaid);
        out.push(self.installment_count);
        out.push(self.next_contribution_index);
        out.push(self.next_repayment_index);
        assert(final(out)@ =~= old(out)@ + loan_header_bytes(*self));
    }

    /// Decodes the header stored at `off`.
    pub fn unpack(b: &[u8], off: usize) -> (r: LoanHeader)
        requires
            off + LOAN_HEADER_SIZE <= b@.len(),
        ensures
            r == loan_header_at(b@, off as int),
    {
        proof {
            reveal(loan_header_at);
        }
        let len: usize = b.len();
        assert(off + 115 < len);
        LoanHeader {
            state_tag: b[off],
            borrower_key: read_key(b, off + 1),
            guarantor_key: read_key(b, off + 33),
            approval_timestamp: read_u64(b, off + 65),
            fundraising_deadline: read_u64(b, off + 73),
            first_repayment_deadline: read_u64(b, off + 81),
            target_amount: read_u64(b, off + 89),
            amount_raised: read_u64(b, off + 97),
            amount_repaid: read_u64(b, off + 105),
            installment_count: b[off + 113],
            next_contribution_index: b[off + 114],
            next_repayment_index: b[off + 115],
        }
    }
}

/// One contribution of a lender to a loan.
#[derive(Clone, Copy, Debug, PartialEq, Eq, Structural)]
pub struct LoanContribution {
    pub lender_key: Key,
    pub ledger_shard_number: u8,
    pub lender_id: u32,
    pub amount_lent: u64,
}

pub open spec fn loan_contribution_bytes(c: LoanContribution) -> Seq<u8> {
    key_bytes(c.lender_key) + seq![c.ledger_shard_number] + le_u32_bytes(c.lender_id)
        + le_u64_bytes(c.amount_lent)
}

#[verifier::opaque]
pub open spec fn loan_contribution_at(b: Seq<u8>, off: int) -> LoanContribution {
    LoanContribution {
        lender_key: key_value(b.subrange(off, off + 32)),
        ledger_shard_number: b[off + 32],
        lender_id: le_u32_value(b.subrange(off + 33, off + 37)),
        amount_lent: le_u64_value(b.subrange(off + 37, off + 45)),
    }
}

/// Decoding the bytes of a contribution gives the contribution back.
pub proof fn lemma_loan_contribution_round_trip(c: LoanContribution)
    ensures
        loan_contribution_bytes(c).len() == LOAN_CONTRIBUTION_SIZE,
        loan_contribution_at(loan_contribution_bytes(c), 0) == c,
{
    reveal(loan_contribution_at);
    let b = loan_contribution_bytes(c);
    assert(b.subrange(0, 32) =~= key_bytes(c.lender_key));
    assert(b.subrange(33, 37) =~= le_u32_bytes(c.lender_id));
    assert(b.subrange(37, 45) =~= le_u64_bytes(c.amount_lent));
    lemma_key_round_trip(c.lender_key);
    lemma_u32_round_trip(c.lender_id);
    lemma_u64_round_trip(c.amount_lent);
}

impl LoanContribution {
    /// Appends the encoding of the contribution.
    pub fn pack(&self, out: &mut Vec<u8>)
        ensures
            final(out)@ == old(out)@ + loan_contribution_bytes(*self),
    {
        push_key(out, self.lender_key);
        out.push(self.ledger_shard_number);
        push_u32(out, self.lender_id);
        push_u64(out, self.amount_lent);
        assert(final(out)@ =~= old(out)@ + loan_contribution_bytes(*self));
    }

    /// Decodes the contribution stored at `off`.
    pub fn unpack(b: &[u8], off: usize) -> (r: LoanContribution)
        requires
            off + LOAN_CONTRIBUTION_SIZE <= b@.len(),
        ensures
            r == loan_contribution_at(b@, off as int),
    {
        proof {
            reveal(loan_contribution_at);
        }
        let len: usize = b.len();
        assert(off + 37 < len);
        LoanContribution {
            lender_key: read_key(b, off),
            ledger_shard_number: b[off + 32],
            lender_id: read_u32(b, off + 33),
            amount_lent: read_u64(b, off + 37),
        }
    }
}

/// One installment paid on a loan.
#[derive(Clone, Copy, Debug, PartialEq, Eq, Structural)]
pub struct RepaymentEntry {
    pub timestamp: u64,
    pub amount: u64,
}

pub open spec fn repayment_entry_bytes(e: RepaymentEntry) -> Seq<u8> {
    le_u64_bytes(e.timestamp) + le_u64_bytes(e.amount)
}

#[verifier::opaque]
pub open spec fn repayment_entry_at(b: Seq<u8>, off: int) -> RepaymentEntry {
    RepaymentEntry {
        timestamp: le_u64_value(b.subrange(off, off + 8)),
        amount: le_u64_value(b.subrange(off + 8, off + 16)),
    }
}

/// Decoding the bytes of a repayment entry gives the entry back.
pub proof fn lemma_repayment_entry_round_trip(e: RepaymentEntry)
    ensures
        repayment_entry_bytes(e).len() == REPAYMENT_ENTRY_SIZE,
        repayment_entry_at(repayment_entry_bytes(e), 0) == e,
{
    reveal(repayment_entry_at);
    let b = repayment_entry_bytes(e);
    assert(b.subrange(0, 8) =~= le_u64_bytes(e.timestamp));
    assert(b.subrange(8, 16) =~= le_u64_bytes(e.amount));
    lemma_u64_round_trip(e.timestamp);
    lemma_u64_round_trip(e.amount);
}

impl RepaymentEntry {
    /// Appends the encoding of the entry.
    pub fn pack(&self, out: &mut Vec<u8>)
        ensures
            final(out)@ == old(out)@ + repayment_entry_bytes(*self),
    {
        push_u64(out, self.timestamp);
        push_u64(out, self.amount);
        assert(final(out)@ =~= old(out)@ + repayment_entry_bytes(*self));
    }

    /// Decodes the entry stored at `off`.
    pub fn unpack(b: &[u8], off: usize) -> (r: RepaymentEntry)
        requires
            off + REPAYMENT_ENTRY_SIZE <= b@.len(),
        ensures
            r == repayment_entry_at(b@, off as int),
    {
        proof {
            reveal(repayment_entry_at);
        }
        let len: usize = b.len();
        assert(off + 8 < len);
        RepaymentEntry { timestamp: read_u64(b, off), amount: read_u64(b, off + 8) }
    }
}

/// Whether a borrower has an open loan, and which.
#[derive(Clone, Copy, Debug, PartialEq, Eq, Structural)]
pub struct BorrowerAccount {
    pub acc_type: u8,
    pub has_active_loan: bool,
    pub active_loan_ref: Key,
}

pub open spec fn borrower_account_bytes(a: BorrowerAccount) -> Seq<u8> {
    seq![a.acc_type, flag_byte(a.has_active_loan)] + key_bytes(a.active_loan_ref)
}

#[verifier::opaque]
pub open spec fn borrower_account_at(b: Seq<u8>, off: int) -> BorrowerAccount {
    BorrowerAccount {
        acc_type: b[off],
        has_active_loan: b[off + 1] != 0,
        active_loan_ref: key_value(b.subrange(off + 2, off + 34)),
    }
}

/// Decoding the bytes of a borrower record gives the record back.
pub proof fn lemma_borrower_account_round_trip(a: BorrowerAccount)
    ensures
        borrower_account_bytes(a).len() == BORROWER_RECORD_SIZE,
        borrower_account_at(borrower_account_bytes(a), 0) == a,
{
    reveal(borrower_account_at);
    let b = borrower_account_bytes(a);
    assert(b.subrange(2, 34) =~= key_bytes(a.active_loan_ref));
    lemma_key_round_trip(a.active_loan_ref);
}

impl BorrowerAccount {
    /// Appends the encoding of the record.
    pub fn pack(&self, out: &mut Vec<u8>)
        ensures
            final(out)@ == old(out)@ + borrower_account_bytes(*self),
    {
        out.push(self.acc_type);
        out.push(if self.has_active_loan { 1u8 } else { 0u8 });
        push_key(out, self.active_loan_ref);
        assert(final(out)@ =~= old(out)@ + borrower_account_bytes(*self));
    }

    /// Decodes the record stored at `off`.
    pub fn unpack(b: &[u8], off: usize) -> (r: BorrowerAccount)
        requires
            off + BORROWER_RECORD_SIZE <= b@.len(),
        ensures
            r == borrower_account_at(b@, off as int),
    {
        proof {
            reveal(borrower_account_at);
        }
        let len: usize = b.len();
        assert(off + 2 < len);
        BorrowerAccount {
            acc_type: b[off],
            has_active_loan: b[off + 1] != 0,
            active_loan_ref: read_key(b, off + 2),
        }
    }
}

/// A guarantor's record; its approval score is seeded once and kept.
#[derive(Clone, Copy, Debug, PartialEq, Eq, Structural)]
pub struct GuarantorAccount {
    pub is_initialized: bool,
    pub acc_type: u8,
    pub owner_key: Key,
    pub approval_score: u64,
}

pub open spec fn guarantor_account_bytes(a: GuarantorAccount) -> Seq<u8> {
    seq![flag_byte(a.is_initialized), a.acc_type] + key_bytes(a.owner_key) + le_u64_bytes(
        a.approval_score,
    )
}

#[verifier::opaque]
pub open spec fn guarantor_account_at(b: Seq<u8>, off: int) -> GuarantorAccount {
    GuarantorAccount {
        is_initialized: b[off] != 0,
        acc_type: b[off + 1],
        owner_key: key_value(b.subrange(off + 2, off + 34)),
        approval_score: le_u64_value(b.subrange(off + 34, off + 42)),
    }
}

/// Decoding the bytes of a guarantor record gives the record back.
pub proof fn lemma_guarantor_account_round_trip(a: GuarantorAccount)
    ensures
        guarantor_account_bytes(a).len() == GUARANTOR_RECORD_SIZE,
        guarantor_account_at(guarantor_account_bytes(a), 0) == a,
{
    reveal(guarantor_account_at);
    let b = guarantor_account_bytes(a);
    assert(b.subrange(2, 34) =~= key_bytes(a.owner_key));
    assert(b.subrange(34, 42) =~= le_u64_bytes(a.approval_score));
    lemma_key_round_trip(a.owner_key);
    lemma_u64_round_trip(a.approval_score);
}

impl GuarantorAccount {
    /// Appends the encoding of the record.
    pub fn pack(&self, out: &mut Vec<u8>)
        ensures
            final(out)@ == old(out)@ + guarantor_account_bytes(*self),
    {
        out.push(if self.is_initialized { 1u8 } else { 0u8 });
        out.push(self.acc_type);
        push_key(out, self.owner_key);
        push_u64(out, self.approval_score);
        assert(final(out)@ =~= old(out)@ + guarantor_account_bytes(*self));
    }

    /// Decodes the record stored at `off`.
    pub fn unpack(b: &[u8], off: usize) -> (r: GuarantorAccount)
        requires
            off + GUARANTOR_RECORD_SIZE <= b@.len(),
        ensures
            r == guarantor_account_at(b@, off as int),
    {
        proof {
            reveal(guarantor_account_at);
        }
        let len: usize = b.len();
        assert(off + 34 < len);
        GuarantorAccount {
            is_initialized: b[off] != 0,
            acc_type: b[off + 1],
            owner_key: read_key(b, off + 2),
            approval_score: read_u64(b, off + 34),
        }
    }
}

} // verus!

verus! {

/// A header read at `off` depends only on the header's own bytes.
pub proof fn lemma_loan_header_window(b: Seq<u8>, off: int)
    requires
        0 <= off,
        off + LOAN_HEADER_SIZE <= b.len(),
    ensures
        loan_header_at(b, off) == loan_header_at(b.subrange(off, off + LOAN_HEADER_SIZE), 0),
{
    reveal(loan_header_at);
    let w = b.subrange(off, off + LOAN_HEADER_SIZE);
    assert(b.subrange(off + 1, off + 33) =~= w.subrange(1, 33));
    assert(b.subrange(off + 33, off + 65) =~= w.subrange(33, 65));
    assert(b.subrange(off + 65, off + 73) =~= w.subrange(65, 73));
    assert(b.subrange(off + 73, off + 81) =~= w.subrange(73, 81));
    assert(b.subrange(off + 81, off + 89) =~= w.subrange(81, 89));
    assert(b.subrange(off + 89, off + 97) =~= w.subrange(89, 97));
    assert(b.subrange(off + 97, off + 105) =~= w.subrange(97, 105));
    assert(b.subrange(off + 105, off + 113) =~= w.subrange(105, 113));
}

/// A contribution read at `off` depends only on the entry's own bytes.
pub proof fn lemma_loan_contribution_window(b: Seq<u8>, off: int)
    requires
        0 <= off,
        off + LOAN_CONTRIBUTION_SIZE <= b.len(),
    ensures
        loan_contribution_at(b, off) == loan_contribution_at(
            b.subrange(off, off + LOAN_CONTRIBUTION_SIZE),
            0,
        ),
{
    reveal(loan_contribution_at);
    let w = b.subrange(off, off + LOAN_CONTRIBUTION_SIZE);
    assert(b.subrange(off, off + 32) =~= w.subrange(0, 32));
    assert(b.subrange(off + 33, off + 37) =~= w.subrange(33, 37));
    assert(b.subrange(off + 37, off + 45) =~= w.subrange(37, 45));
}

/// A repayment entry read at `off` depends only on the entry's own bytes.
pub proof fn lemma_repayment_entry_window(b: Seq<u8>, off: int)
    requires
        0 <= off,
        off + REPAYMENT_ENTRY_SIZE <= b.len(),
    ensures
        repayment_entry_at(b, off) == repayment_entry_at(
            b.subrange(off, off + REPAYMENT_ENTRY_SIZE),
            0,
        ),
{
    reveal(repayment_entry_at);
    let w = b.subrange(off, off + REPAYMENT_ENTRY_SIZE);
    assert(b.subrange(off, off + 8) =~= w.subrange(0, 8));
    assert(b.subrange(off + 8, off + 16) =~= w.subrange(8, 16));
}

} // verus!
