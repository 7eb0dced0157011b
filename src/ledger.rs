//! The lender ledger: a fixed number of slots, addressed by lender id.
use crate::codec::Key;
use crate::error::Funds4GoodError;
use crate::state::{
    lender_slot_at, lender_slot_bytes, lemma_lender_slot_round_trip, LenderSlot, LENDER_SLOT_SIZE,
};
use crate::utils::LENDERS_ACC_TAG;
use vstd::prelude::*;

verus! {

/// Number of lender slots in the ledger.
pub const LENDER_CAPACITY: usize = 50_000;

/// Bytes before the first slot: the type tag and the shard number.
pub const LENDER_LEDGER_HEADER_SIZE: usize = 2;

/// Bytes of the whole ledger record.
pub const LENDERS_STORAGE_SIZE: usize = 3_250_002;

/// The shard number of the one ledger in use.
pub const LEDGER_SHARD_NUMBER: u8 = 1;

/// Offset of a lender's slot within the ledger record.
pub open spec fn slot_offset(id: int) -> int {
    LENDER_LEDGER_HEADER_SIZE + id * LENDER_SLOT_SIZE
}

/// Whether `key` may act on slot `s`: an unbound slot takes any key.
pub open spec fn owner_accepts(s: LenderSlot, key: Key) -> bool {
    !s.is_active || s.owner_key == key
}

/// The slot once bound to `key`; a bound slot keeps its owner.
pub open spec fn bound_slot(s: LenderSlot, key: Key) -> LenderSlot {
    if s.is_active {
        s
    } else {
        LenderSlot { is_active: true, owner_key: key, ..s }
    }
}

pub open spec fn contribution_fits(s: LenderSlot, amount: u64) -> bool {
    s.total_lending_amount + amount <= u128::MAX && s.total_unique_principal + amount <= u64::MAX
}

/// The slot after a contribution of `amount`.
pub open spec fn credited_slot(s: LenderSlot, amount: u64) -> LenderSlot {
    LenderSlot {
        total_lending_amount: (s.total_lending_amount + amount) as u128,
        total_unique_principal: (s.total_unique_principal + amount) as u64,
        ..s
    }
}

pub open spec fn emi_share_fits(s: LenderSlot, amount: u64) -> bool {
    s.withdrawable_balance + amount <= u64::MAX
}

/// The slot after an installment share of `amount`.
pub open spec fn emi_credited_slot(s: LenderSlot, amount: u64) -> LenderSlot {
    LenderSlot { withdrawable_balance: (s.withdrawable_balance + amount) as u64, ..s }
}

pub open spec fn debit_fits(s: LenderSlot) -> bool {
    s.withdrawable_balance <= s.total_unique_principal
}

/// The slot after its withdrawable balance was paid out.
pub open spec fn debited_slot(s: LenderSlot) -> LenderSlot {
    LenderSlot {
        total_unique_principal: (s.total_unique_principal - s.withdrawable_balance) as u64,
        withdrawable_balance: 0,
        ..s
    }
}

impl LenderSlot {
    /// Binds an unbound slot to `key`, or checks the key of a bound one.
    pub fn bind_or_verify(&self, key: Key) -> (r: Result<LenderSlot, Funds4GoodError>)
        ensures
            owner_accepts(*self, key) ==> r == Ok::<LenderSlot, Funds4GoodError>(
                bound_slot(*self, key),
            ),
            !owner_accepts(*self, key) ==> r == Err::<LenderSlot, Funds4GoodError>(
                Funds4GoodError::OwnerMismatch,
            ),
    {
        if !self.is_active {
            Ok(LenderSlot { is_active: true, owner_key: key, ..*self })
        } else if self.owner_key == key {
            Ok(*self)
        } else {
            Err(Funds4GoodError::OwnerMismatch)
        }
    }

    /// Adds a contribution to the lent totals.
    pub fn credit_contribution(&self, amount: u64) -> (r: Result<LenderSlot, Funds4GoodError>)
        ensures
            contribution_fits(*self, amount) ==> r == Ok::<LenderSlot, Funds4GoodError>(
                credited_slot(*self, amount),
            ),
            !contribution_fits(*self, amount) ==> r == Err::<LenderSlot, Funds4GoodError>(
                Funds4GoodError::ArithmeticOverflow,
            ),
    {
        let total = match self.total_lending_amount.checked_add(amount as u128) {
            Some(t) => t,
            None => return Err(Funds4GoodError::ArithmeticOverflow),
        };
        let principal = match self.total_unique_principal.checked_add(amount) {
            Some(p) => p,
            None => return Err(Funds4GoodError::ArithmeticOverflow),
        };
        Ok(LenderSlot { total_lending_amount: total, total_unique_principal: principal, ..*self })
    }

    /// Adds an installment share to the withdrawable balance.
    pub fn credit_emi_share(&self, amount: u64) -> (r: Result<LenderSlot, Funds4GoodError>)
        ensures
            emi_share_fits(*self, amount) ==> r == Ok::<LenderSlot, Funds4GoodError>(
                emi_credited_slot(*self, amount),
            ),
            !emi_share_fits(*self, amount) ==> r == Err::<LenderSlot, Funds4GoodError>(
                Funds4GoodError::ArithmeticOverflow,
            ),
    {
        match self.withdrawable_balance.checked_add(amount) {
            Some(w) => Ok(LenderSlot { withdrawable_balance: w, ..*self }),
            None => Err(Funds4GoodError::ArithmeticOverflow),
        }
    }

    /// Empties the withdrawable balance, taking it off the outstanding
    /// principal; gives the slot and the amount paid out.
    pub fn debit_withdrawal(&self) -> (r: Result<(LenderSlot, u64), Funds4GoodError>)
        ensures
            debit_fits(*self) ==> r == Ok::<(LenderSlot, u64), Funds4GoodError>(
                (debited_slot(*self), self.withdrawable_balance),
            ),
            !debit_fits(*self) ==> r == Err::<(LenderSlot, u64), Funds4GoodError>(
                Funds4GoodError::ArithmeticOverflow,
            ),
    {
        let amount = self.withdrawable_balance;
        match self.total_unique_principal.checked_sub(amount) {
            Some(p) => Ok(
                (
                    LenderSlot { total_unique_principal: p, withdrawable_balance: 0, ..*self },
                    amount,
                ),
            ),
            None => Err(Funds4GoodError::ArithmeticOverflow),
        }
    }
}

/// The lender ledger record: its tag, its shard number and every slot.
pub struct LenderLedger {
    pub acc_type: u8,
    pub shard_count: u8,
    pub slots: Vec<LenderSlot>,
}

/// The check that an operation makes before it touches the ledger.
pub open spec fn ledger_ready_error(acc_type: u8, shard_count: u8) -> Option<Funds4GoodError> {
    if acc_type != LENDERS_ACC_TAG {
        Some(Funds4GoodError::RecordTypeMismatch)
    } else if shard_count != LEDGER_SHARD_NUMBER {
        Some(Funds4GoodError::ShardMismatch)
    } else {
        None
    }
}

/// Whether the bytes `b` hold the ledger with this tag, shard number and slots.
pub open spec fn ledger_encoded(b: Seq<u8>, acc_type: u8, shard_count: u8, slots: Seq<LenderSlot>) -> bool {
    &&& b.len() == LENDERS_STORAGE_SIZE
    &&& slots.len() == LENDER_CAPACITY
    &&& b[0] == acc_type
    &&& b[1] == shard_count
    &&& forall|i: int| 0 <= i < LENDER_CAPACITY ==> #[trigger] slots[i] == lender_slot_at(b, slot_offset(i))
}

/// A slot read from a longer sequence sits where it was.
pub proof fn lemma_lender_slot_at_prefix(a: Seq<u8>, x: Seq<u8>, off: int)
    requires
        0 <= off,
        off + LENDER_SLOT_SIZE <= a.len(),
    ensures
        lender_slot_at(a + x, off) == lender_slot_at(a, off),
{
    reveal(lender_slot_at);
    let b = a + x;
    assert(b.subrange(off + 1, off + 33) =~= a.subrange(off + 1, off + 33));
    assert(b.subrange(off + 33, off + 49) =~= a.subrange(off + 33, off + 49));
    assert(b.subrange(off + 49, off + 57) =~= a.subrange(off + 49, off + 57));
    assert(b.subrange(off + 57, off + 65) =~= a.subrange(off + 57, off + 65));
}

/// A slot appended to a sequence is read back at the old end.
pub proof fn lemma_lender_slot_appended(a: Seq<u8>, s: LenderSlot)
    ensures
        lender_slot_at(a + lender_slot_bytes(s), a.len() as int) == s,
{
    let x = lender_slot_bytes(s);
    let b = a + x;
    let n = a.len() as int;
    lemma_lender_slot_round_trip(s);
    reveal(lender_slot_at);
    assert(b.subrange(n + 1, n + 33) =~= x.subrange(1, 33));
    assert(b.subrange(n + 33, n + 49) =~= x.subrange(33, 49));
    assert(b.subrange(n + 49, n + 57) =~= x.subrange(49, 57));
    assert(b.subrange(n + 57, n + 65) =~= x.subrange(57, 65));
}

impl LenderLedger {
    pub open spec fn wf(&self) -> bool {
        self.slots@.len() == LENDER_CAPACITY
    }

    /// A ledger not yet set up: tag and shard zero, every slot unbound.
    pub fn new() -> (r: LenderLedger)
        ensures
            r.wf(),
            r.acc_type == 0,
            r.shard_count == 0,
            forall|i: int| 0 <= i < LENDER_CAPACITY ==> #[trigger] r.slots@[i] == LenderSlot::empty_spec(),
    {
        let mut slots: Vec<LenderSlot> = Vec::new();
        let mut i: usize = 0;
        while i < LENDER_CAPACITY
            invariant
                i <= LENDER_CAPACITY,
                slots@.len() == i,
                forall|j: int| 0 <= j < i ==> #[trigger] slots@[j] == LenderSlot::empty_spec(),
            decreases LENDER_CAPACITY - i,
        {
            slots.push(LenderSlot::empty());
            i = i + 1;
        }
        LenderLedger { acc_type: 0, shard_count: 0, slots }
    }

    /// Checks the ledger's tag and shard number.
    pub fn check_ready(&self) -> (r: Result<(), Funds4GoodError>)
        ensures
            match ledger_ready_error(self.acc_type, self.shard_count) {
                Some(e) => r == Err::<(), Funds4GoodError>(e),
                None => r is Ok,
            },
    {
        if self.acc_type != LENDERS_ACC_TAG {
            Err(Funds4GoodError::RecordTypeMismatch)
        } else if self.shard_count != LEDGER_SHARD_NUMBER {
            Err(Funds4GoodError::ShardMismatch)
        } else {
            Ok(())
        }
    }

    /// The slot of lender `id`.
    pub fn get_slot(&self, id: u32) -> (r: Result<LenderSlot, Funds4GoodError>)
        requires
            self.wf(),
        ensures
            id < LENDER_CAPACITY ==> r == Ok::<LenderSlot, Funds4GoodError>(self.slots@[id as int]),
            id >= LENDER_CAPACITY ==> r == Err::<LenderSlot, Funds4GoodError>(
                Funds4GoodError::InvalidLenderId,
            ),
    {
        if id as usize >= LENDER_CAPACITY {
            return Err(Funds4GoodError::InvalidLenderId);
        }
        Ok(self.slots[id as usize])
    }

    /// Replaces the slot of lender `id`.
    pub fn put_slot(&mut self, id: u32, slot: LenderSlot) -> (r: Result<(), Funds4GoodError>)
        requires
            old(self).wf(),
        ensures
            final(self).wf(),
            final(self).acc_type == old(self).acc_type,
            final(self).shard_count == old(self).shard_count,
            id < LENDER_CAPACITY ==> r is Ok && final(self).slots@ == old(self).slots@.update(
                id as int,
                slot,
            ),
            id >= LENDER_CAPACITY ==> r == Err::<(), Funds4GoodError>(
                Funds4GoodError::InvalidLenderId,
            ) && final(self).slots@ == old(self).slots@,
    {
        if id as usize >= LENDER_CAPACITY {
            return Err(Funds4GoodError::InvalidLenderId);
        }
        self.slots.set(id as usize, slot);
        Ok(())
    }

    /// Binds slot `id` to `key` if unbound, or checks that it is bound to `key`.
    pub fn bind_or_verify(&mut self, id: u32, key: Key) -> (r: Result<(), Funds4GoodError>)
        requires
            old(self).wf(),
        ensures
            final(self).wf(),
            final(self).acc_type == old(self).acc_type,
            final(self).shard_count == old(self).shard_count,
            id >= LENDER_CAPACITY ==> r == Err::<(), Funds4GoodError>(
                Funds4GoodError::InvalidLenderId,
            ) && final(self).slots@ == old(self).slots@,
            id < LENDER_CAPACITY && !owner_accepts(old(self).slots@[id as int], key) ==> r == Err::<
                (),
                Funds4GoodError,
            >(Funds4GoodError::OwnerMismatch) && final(self).slots@ == old(self).slots@,
            id < LENDER_CAPACITY && owner_accepts(old(self).slots@[id as int], key) ==> r is Ok
                && final(self).slots@ == old(self).slots@.update(
                id as int,
                bound_slot(old(self).slots@[id as int], key),
            ),
    {
        let slot = self.get_slot(id)?;
        let bound = slot.bind_or_verify(key)?;
        self.put_slot(id, bound)
    }

    /// Adds a contribution of `amount` to the lent totals of slot `id`.
    pub fn credit_contribution(&mut self, id: u32, amount: u64) -> (r: Result<(), Funds4GoodError>)
        requires
            old(self).wf(),
        ensures
            final(self).wf(),
            final(self).acc_type == old(self).acc_type,
            final(self).shard_count == old(self).shard_count,
            id >= LENDER_CAPACITY ==> r == Err::<(), Funds4GoodError>(
                Funds4GoodError::InvalidLenderId,
            ) && final(self).slots@ == old(self).slots@,
            id < LENDER_CAPACITY && !contribution_fits(old(self).slots@[id as int], amount) ==> r
                == Err::<(), Funds4GoodError>(Funds4GoodError::ArithmeticOverflow) && final(self).slots@ == old(self).slots@,
            id < LENDER_CAPACITY && contribution_fits(old(self).slots@[id as int], amount) ==> r is Ok
                && final(self).slots@ == old(self).slots@.update(
                id as int,
                credited_slot(old(self).slots@[id as int], amount),
            ),
    {
        let slot = self.get_slot(id)?;
        let credited = slot.credit_contribution(amount)?;
        self.put_slot(id, credited)
    }

    /// Adds an installment share of `amount` to the withdrawable balance of slot `id`.
    pub fn credit_emi_share(&mut self, id: u32, amount: u64) -> (r: Result<(), Funds4GoodError>)
        requires
            old(self).wf(),
        ensures
            final(self).wf(),
            final(self).acc_type == old(self).acc_type,
            final(self).shard_count == old(self).shard_count,
            id >= LENDER_CAPACITY ==> r == Err::<(), Funds4GoodError>(
                Funds4GoodError::InvalidLenderId,
            ) && final(self).slots@ == old(self).slots@,
            id < LENDER_CAPACITY && !emi_share_fits(old(self).slots@[id as int], amount) ==> r
                == Err::<(), Funds4GoodError>(Funds4GoodError::ArithmeticOverflow) && final(self).slots@ == old(self).slots@,
            id < LENDER_CAPACITY && emi_share_fits(old(self).slots@[id as int], amount) ==> r is Ok
                && final(self).slots@ == old(self).slots@.update(
                id as int,
                emi_credited_slot(old(self).slots@[id as int], amount),
            ),
    {
        let slot = self.get_slot(id)?;
        let credited = slot.credit_emi_share(amount)?;
        self.put_slot(id, credited)
    }

    /// Empties the withdrawable balance of slot `id`, taking it off the
    /// outstanding principal; gives the amount paid out.
    pub fn debit_withdrawal(&mut self, id: u32) -> (r: Result<u64, Funds4GoodError>)
        requires
            old(self).wf(),
        ensures
            final(self).wf(),
            final(self).acc_type == old(self).acc_type,
            final(self).shard_count == old(self).shard_count,
            id >= LENDER_CAPACITY ==> r == Err::<u64, Funds4GoodError>(
                Funds4GoodError::InvalidLenderId,
            ) && final(self).slots@ == old(self).slots@,
            id < LENDER_CAPACITY && !debit_fits(old(self).slots@[id as int]) ==> r == Err::<
                u64,
                Funds4GoodError,
            >(Funds4GoodError::ArithmeticOverflow) && final(self).slots@ == old(self).slots@,
            id < LENDER_CAPACITY && debit_fits(old(self).slots@[id as int]) ==> r == Ok::<
                u64,
                Funds4GoodError,
            >(old(self).slots@[id as int].withdrawable_balance) && final(self).slots@ == old(self).slots@.update(id as int, debited_slot(old(self).slots@[id as int])),
    {
        let slot = self.get_slot(id)?;
        let (debited, amount) = slot.debit_withdrawal()?;
        let _ = self.put_slot(id, debited);
        Ok(amount)
    }

    /// Encodes the whole ledger record.
    pub fn pack(&self) -> (r: Vec<u8>)
        requires
            self.wf(),
        ensures
            ledger_encoded(r@, self.acc_type, self.shard_count, self.slots@),
    {
        let mut out: Vec<u8> = Vec::new();
        out.push(self.acc_type);
        out.push(self.shard_count);
        let mut i: usize = 0;
        while i < LENDER_CAPACITY
            invariant
                self.wf(),
                i <= LENDER_CAPACITY,
                out@.len() == slot_offset(i as int),
                out@[0] == self.acc_type,
                out@[1] == self.shard_count,
                forall|j: int|
                    0 <= j < i ==> #[trigger] self.slots@[j] == lender_slot_at(out@, slot_offset(j)),
            decreases LENDER_CAPACITY - i,
        {
            let ghost before = out@;
            self.slots[i].pack(&mut out);
            proof {
                lemma_lender_slot_appended(before, self.slots@[i as int]);
                assert forall|j: int| 0 <= j < i + 1 implies #[trigger] self.slots@[j]
                    == lender_slot_at(out@, slot_offset(j)) by {
                    if j < i {
                        assert(slot_offset(j) + LENDER_SLOT_SIZE <= before.len());
                        lemma_lender_slot_at_prefix(
                            before,
                            lender_slot_bytes(self.slots@[i as int]),
                            slot_offset(j),
                        );
                    }
                }
            }
            i = i + 1;
        }
        out
    }

    /// Decodes a whole ledger record; the bytes must have the record's size.
    pub fn unpack(b: &[u8]) -> (r: Result<LenderLedger, Funds4GoodError>)
        ensures
            b@.len() != LENDERS_STORAGE_SIZE ==> r == Err::<LenderLedger, Funds4GoodError>(
                Funds4GoodError::StorageSizeMismatch,
            ),
            b@.len() == LENDERS_STORAGE_SIZE ==> r is Ok,
            r matches Ok(l) ==> l.wf() && ledger_encoded(b@, l.acc_type, l.shard_count, l.slots@),
    {
        if b.len() != LENDERS_STORAGE_SIZE {
            return Err(Funds4GoodError::StorageSizeMismatch);
        }
        let mut slots: Vec<LenderSlot> = Vec::new();
        let mut i: usize = 0;
        while i < LENDER_CAPACITY
            invariant
                b@.len() == LENDERS_STORAGE_SIZE,
                i <= LENDER_CAPACITY,
                slots@.len() == i,
                forall|j: int| 0 <= j < i ==> #[trigger] slots@[j] == lender_slot_at(b@, slot_offset(j)),
            decreases LENDER_CAPACITY - i,
        {
            let s = LenderSlot::unpack(b, LENDER_LEDGER_HEADER_SIZE + i * LENDER_SLOT_SIZE);
            slots.push(s);
            i = i + 1;
        }
        Ok(LenderLedger { acc_type: b[0], shard_count: b[1], slots })
    }
}

} // verus!
