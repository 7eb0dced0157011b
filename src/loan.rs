//! A loan record: its header and its two append-only logs.
use crate::codec::Key;
use crate::error::Funds4GoodError;
use crate::ledger::LENDER_CAPACITY;
use crate::state::{
    lemma_loan_contribution_round_trip, lemma_loan_contribution_window,
    lemma_loan_header_round_trip, lemma_loan_header_window, lemma_repayment_entry_round_trip,
    lemma_repayment_entry_window, loan_contribution_at, loan_contribution_bytes, loan_header_at,
    loan_header_bytes, repayment_entry_at, repayment_entry_bytes, LoanContribution, LoanHeader,
    RepaymentEntry, LOAN_CONTRIBUTION_SIZE, LOAN_HEADER_SIZE, REPAYMENT_ENTRY_SIZE,
};
use vstd::prelude::*;

verus! {

/// Entries the contribution log can hold.
pub const MAX_CONTRIBUTIONS: usize = 200;

/// Entries the repayment log can hold.
pub const MAX_REPAYMENTS: usize = 255;

/// Offset of the repayment log within a loan record.
pub const REPAYMENT_LOG_OFFSET: usize = 9_116;

/// Bytes of a whole loan record.
pub const LOAN_RECORD_SIZE: usize = 13_196;

/// Offset of contribution entry `i` within a loan record.
pub open spec fn contribution_offset(i: int) -> int {
    LOAN_HEADER_SIZE + i * LOAN_CONTRIBUTION_SIZE
}

/// Offset of repayment entry `i` within a loan record.
pub open spec fn repayment_offset(i: int) -> int {
    REPAYMENT_LOG_OFFSET + i * REPAYMENT_ENTRY_SIZE
}

/// Whether the bytes `b` hold a loan record with this header and these logs.
pub open spec fn loan_encoded(
    b: Seq<u8>,
    h: LoanHeader,
    c: Seq<LoanContribution>,
    r: Seq<RepaymentEntry>,
) -> bool {
    &&& b.len() == LOAN_RECORD_SIZE
    &&& loan_header_at(b, 0) == h
    &&& c.len() == h.next_contribution_index
    &&& r.len() == h.next_repayment_index
    &&& forall|i: int| 0 <= i < c.len() ==> #[trigger] c[i] == loan_contribution_at(b, contribution_offset(i))
    &&& forall|i: int| 0 <= i < r.len() ==> #[trigger] r[i] == repayment_entry_at(b, repayment_offset(i))
}

/// Bytes appended after a header, a contribution or a repayment entry leave
/// it readable where it was.
pub proof fn lemma_entries_kept(a: Seq<u8>, x: Seq<u8>)
    ensures
        a.len() >= LOAN_HEADER_SIZE ==> loan_header_at(a + x, 0) == loan_header_at(a, 0),
        forall|off: int|
            0 <= off && off + LOAN_CONTRIBUTION_SIZE <= a.len() ==> #[trigger] loan_contribution_at(
                a + x,
                off,
            ) == loan_contribution_at(a, off),
        forall|off: int|
            0 <= off && off + REPAYMENT_ENTRY_SIZE <= a.len() ==> #[trigger] repayment_entry_at(
                a + x,
                off,
            ) == repayment_entry_at(a, off),
{
    if a.len() >= LOAN_HEADER_SIZE {
        lemma_loan_header_window(a + x, 0);
        lemma_loan_header_window(a, 0);
        assert((a + x).subrange(0, LOAN_HEADER_SIZE as int) =~= a.subrange(0, LOAN_HEADER_SIZE as int));
    }
    assert forall|off: int|
        0 <= off && off + LOAN_CONTRIBUTION_SIZE <= a.len() implies #[trigger] loan_contribution_at(
            a + x,
            off,
        ) == loan_contribution_at(a, off) by {
        lemma_loan_contribution_window(a + x, off);
        lemma_loan_contribution_window(a, off);
        assert((a + x).subrange(off, off + LOAN_CONTRIBUTION_SIZE) =~= a.subrange(
            off,
            off + LOAN_CONTRIBUTION_SIZE,
        ));
    }
    assert forall|off: int|
        0 <= off && off + REPAYMENT_ENTRY_SIZE <= a.len() implies #[trigger] repayment_entry_at(
            a + x,
            off,
        ) == repayment_entry_at(a, off) by {
        lemma_repayment_entry_window(a + x, off);
        lemma_repayment_entry_window(a, off);
        assert((a + x).subrange(off, off + REPAYMENT_ENTRY_SIZE) =~= a.subrange(
            off,
            off + REPAYMENT_ENTRY_SIZE,
        ));
    }
}

/// Appends `n` zero bytes.
pub fn push_zeros(out: &mut Vec<u8>, n: usize)
    ensures
        final(out)@ == old(out)@ + Seq::new(n as nat, |k: int| 0u8),
{
    let mut k: usize = 0;
    while k < n
        invariant
            k <= n,
            out@ == old(out)@ + Seq::new(k as nat, |j: int| 0u8),
        decreases n - k,
    {
        out.push(0u8);
        k = k + 1;
        assert(out@ =~= old(out)@ + Seq::new(k as nat, |j: int| 0u8));
    }
}

/// A loan: header, contributions in the order they came, installments paid.
pub struct LoanRecord {
    pub header: LoanHeader,
    pub contributions: Vec<LoanContribution>,
    pub repayments: Vec<RepaymentEntry>,
}

/// A header of zeros: the state of a loan record not yet set up.
pub open spec fn zero_header() -> LoanHeader {
    LoanHeader {
        state_tag: 0,
        borrower_key: Key { w0: 0, w1: 0, w2: 0, w3: 0 },
        guarantor_key: Key { w0: 0, w1: 0, w2: 0, w3: 0 },
        approval_timestamp: 0,
        fundraising_deadline: 0,
        first_repayment_deadline: 0,
        target_amount: 0,
        amount_raised: 0,
        amount_repaid: 0,
        installment_count: 0,
        next_contribution_index: 0,
        next_repayment_index: 0,
    }
}

impl LoanRecord {
    /// The logs are as long as the header's indices say, within their
    /// capacity, and every contribution names a slot of the ledger.
    pub open spec fn wf(&self) -> bool {
        &&& self.contributions@.len() == self.header.next_contribution_index
        &&& self.contributions@.len() <= MAX_CONTRIBUTIONS
        &&& self.repayments@.len() == self.header.next_repayment_index
        &&& self.repayments@.len() <= MAX_REPAYMENTS
        &&& forall|i: int|
            0 <= i < self.contributions@.len() ==> #[trigger] self.contributions@[i].lender_id
                < LENDER_CAPACITY
    }

    /// A loan record not yet set up.
    pub fn new() -> (r: LoanRecord)
        ensures
            r.wf(),
            r.header == zero_header(),
            r.contributions@.len() == 0,
            r.repayments@.len() == 0,
    {
        LoanRecord {
            header: LoanHeader {
                state_tag: 0,
                borrower_key: Key { w0: 0, w1: 0, w2: 0, w3: 0 },
                guarantor_key: Key { w0: 0, w1: 0, w2: 0, w3: 0 },
                approval_timestamp: 0,
                fundraising_deadline: 0,
                first_repayment_deadline: 0,
                target_amount: 0,
                amount_raised: 0,
                amount_repaid: 0,
                installment_count: 0,
                next_contribution_index: 0,
                next_repayment_index: 0,
            },
            contributions: Vec::new(),
            repayments: Vec::new(),
        }
    }

    /// Encodes the whole loan record; unused log entries are zero bytes.
    pub fn pack(&self) -> (r: Vec<u8>)
        requires
            self.wf(),
        ensures
            loan_encoded(r@, self.header, self.contributions@, self.repayments@),
    {
        let mut out: Vec<u8> = Vec::new();
        self.header.pack(&mut out);
        proof {
            lemma_loan_header_round_trip(self.header);
            assert(out@ =~= loan_header_bytes(self.header));
        }
        let nc = self.contributions.len();
        let mut i: usize = 0;
        while i < MAX_CONTRIBUTIONS
            invariant
                self.wf(),
                nc == self.contributions@.len(),
                i <= MAX_CONTRIBUTIONS,
                out@.len() == contribution_offset(i as int),
                loan_header_at(out@, 0) == self.header,
                forall|j: int|
                    0 <= j < i && j < nc ==> #[trigger] self.contributions@[j] == loan_contribution_at(
                        out@,
                        contribution_offset(j),
                    ),
            decreases MAX_CONTRIBUTIONS - i,
        {
            let ghost before = out@;
            if i < nc {
                self.contributions[i].pack(&mut out);
                proof {
                    let x = loan_contribution_bytes(self.contributions@[i as int]);
                    lemma_entries_kept(before, x);
                    lemma_loan_contribution_round_trip(self.contributions@[i as int]);
                    lemma_loan_contribution_window(out@, before.len() as int);
                    assert(out@.subrange(before.len() as int, before.len() + LOAN_CONTRIBUTION_SIZE)
                        =~= x);
                }
            } else {
                push_zeros(&mut out, LOAN_CONTRIBUTION_SIZE);
                proof {
                    lemma_entries_kept(before, Seq::new(LOAN_CONTRIBUTION_SIZE as nat, |k: int| 0u8));
                }
            }
            proof {
                assert forall|j: int|
                    0 <= j < i + 1 && j < nc implies #[trigger] self.contributions@[j]
                    == loan_contribution_at(out@, contribution_offset(j)) by {
                    if j < i {
                        assert(contribution_offset(j) + LOAN_CONTRIBUTION_SIZE <= before.len());
                    }
                }
            }
            i = i + 1;
        }
        let nr = self.repayments.len();
        let mut i: usize = 0;
        while i < MAX_REPAYMENTS
            invariant
                self.wf(),
                nc == self.contributions@.len(),
                nr == self.repayments@.len(),
                i <= MAX_REPAYMENTS,
                out@.len() == repayment_offset(i as int),
                loan_header_at(out@, 0) == self.header,
                forall|j: int|
                    0 <= j < nc ==> #[trigger] self.contributions@[j] == loan_contribution_at(
                        out@,
                        contribution_offset(j),
                    ),
                forall|j: int|
                    0 <= j < i && j < nr ==> #[trigger] self.repayments@[j] == repayment_entry_at(
                        out@,
                        repayment_offset(j),
                    ),
            decreases MAX_REPAYMENTS - i,
        {
            let ghost before = out@;
            if i < nr {
                self.repayments[i].pack(&mut out);
                proof {
                    let x = repayment_entry_bytes(self.repayments@[i as int]);
                    lemma_entries_kept(before, x);
                    lemma_repayment_entry_round_trip(self.repayments@[i as int]);
                    lemma_repayment_entry_window(out@, before.len() as int);
                    assert(out@.subrange(before.len() as int, before.len() + REPAYMENT_ENTRY_SIZE)
                        =~= x);
                }
            } else {
                push_zeros(&mut out, REPAYMENT_ENTRY_SIZE);
                proof {
                    lemma_entries_kept(before, Seq::new(REPAYMENT_ENTRY_SIZE as nat, |k: int| 0u8));
                }
            }
            proof {
                assert forall|j: int| 0 <= j < nc implies #[trigger] self.contributions@[j]
                    == loan_contribution_at(out@, contribution_offset(j)) by {
                    assert(contribution_offset(j) + LOAN_CONTRIBUTION_SIZE <= before.len());
                }
                assert forall|j: int|
                    0 <= j < i + 1 && j < nr implies #[trigger] self.repayments@[j]
                    == repayment_entry_at(out@, repayment_offset(j)) by {
                    if j < i {
                        assert(repayment_offset(j) + REPAYMENT_ENTRY_SIZE <= before.len());
                    }
                }
            }
            i = i + 1;
        }
        out
    }

    /// Decodes a whole loan record. The bytes must have the record's size,
    /// the contribution log must fit its capacity, and each contribution must
    /// name a slot of the lender ledger.
    #[verifier::loop_isolation(false)]
    pub fn unpack(b: &[u8]) -> (r: Result<LoanRecord, Funds4GoodError>)
        ensures
            b@.len() != LOAN_RECORD_SIZE ==> r == Err::<LoanRecord, Funds4GoodError>(
                Funds4GoodError::StorageSizeMismatch,
            ),
            b@.len() == LOAN_RECORD_SIZE && loan_header_at(b@, 0).next_contribution_index
                > MAX_CONTRIBUTIONS ==> r == Err::<LoanRecord, Funds4GoodError>(
                Funds4GoodError::ContributionLogFull,
            ),
            b@.len() == LOAN_RECORD_SIZE && loan_header_at(b@, 0).next_contribution_index
                <= MAX_CONTRIBUTIONS ==> (r is Ok <==> forall|i: int|
                0 <= i < loan_header_at(b@, 0).next_contribution_index ==> #[trigger] loan_contribution_at(
                    b@,
                    contribution_offset(i),
                ).lender_id < LENDER_CAPACITY),
            r is Err ==> r == Err::<LoanRecord, Funds4GoodError>(Funds4GoodError::StorageSizeMismatch)
                || r == Err::<LoanRecord, Funds4GoodError>(Funds4GoodError::ContributionLogFull)
                || r == Err::<LoanRecord, Funds4GoodError>(Funds4GoodError::InvalidLenderId),
            r matches Ok(l) ==> l.wf() && loan_encoded(b@, l.header, l.contributions@, l.repayments@),
    {
        if b.len() != LOAN_RECORD_SIZE {
            return Err(Funds4GoodError::StorageSizeMismatch);
        }
        let header = LoanHeader::unpack(b, 0);
        let nc = header.next_contribution_index as usize;
        if nc > MAX_CONTRIBUTIONS {
            return Err(Funds4GoodError::ContributionLogFull);
        }
        let mut contributions: Vec<LoanContribution> = Vec::new();
        let mut i: usize = 0;
        while i < nc
            invariant
                b@.len() == LOAN_RECORD_SIZE,
                header == loan_header_at(b@, 0),
                nc == header.next_contribution_index,
                nc <= MAX_CONTRIBUTIONS,
                i <= nc,
                contributions@.len() == i,
                forall|j: int|
                    0 <= j < i ==> #[trigger] contributions@[j] == loan_contribution_at(
                        b@,
                        contribution_offset(j),
                    ) && contributions@[j].lender_id < LENDER_CAPACITY,
            decreases nc - i,
        {
            let c = LoanContribution::unpack(b, LOAN_HEADER_SIZE + i * LOAN_CONTRIBUTION_SIZE);
            if c.lender_id as usize >= LENDER_CAPACITY {
                assert(c == loan_contribution_at(b@, contribution_offset(i as int)));
                return Err(Funds4GoodError::InvalidLenderId);
            }
            contributions.push(c);
            i = i + 1;
        }
        let nr = header.next_repayment_index as usize;
        let mut repayments: Vec<RepaymentEntry> = Vec::new();
        let mut i: usize = 0;
        while i < nr
            invariant
                b@.len() == LOAN_RECORD_SIZE,
                nr == header.next_repayment_index,
                nr <= MAX_REPAYMENTS,
                i <= nr,
                repayments@.len() == i,
                forall|j: int|
                    0 <= j < i ==> #[trigger] repayments@[j] == repayment_entry_at(
                        b@,
                        repayment_offset(j),
                    ),
            decreases nr - i,
        {
            repayments.push(RepaymentEntry::unpack(b, REPAYMENT_LOG_OFFSET + i * REPAYMENT_ENTRY_SIZE));
            i = i + 1;
        }
        assert forall|j: int| 0 <= j < nc implies #[trigger] loan_contribution_at(
            b@,
            contribution_offset(j),
        ).lender_id < LENDER_CAPACITY by {
            assert(contributions@[j] == loan_contribution_at(b@, contribution_offset(j)));
        }
        Ok(LoanRecord { header, contributions, repayments })
    }
}

/// The bytes of a loan record determine its header and both logs.
pub proof fn lemma_loan_encoding_determines_record(
    b: Seq<u8>,
    h1: LoanHeader,
    c1: Seq<LoanContribution>,
    r1: Seq<RepaymentEntry>,
    h2: LoanHeader,
    c2: Seq<LoanContribution>,
    r2: Seq<RepaymentEntry>,
)
    requires
        loan_encoded(b, h1, c1, r1),
        loan_encoded(b, h2, c2, r2),
    ensures
        h1 == h2,
        c1 == c2,
        r1 == r2,
{
    assert(c1 =~= c2);
    assert(r1 =~= r2);
}

} // verus!
