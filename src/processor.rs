//! The operations: each checks every guard first and changes the records
//! only once all of them passed.
use crate::codec::Key;
use crate::error::Funds4GoodError;
use crate::ledger::{
    bound_slot, contribution_fits, credited_slot, debit_fits, debited_slot, ledger_ready_error,
    owner_accepts, LenderLedger, LEDGER_SHARD_NUMBER, LENDER_CAPACITY,
};
use crate::loan::{LoanRecord, MAX_CONTRIBUTIONS, MAX_REPAYMENTS};
use crate::state::{
    BorrowerAccount, GuarantorAccount, LenderSlot, LoanContribution, LoanHeader, RepaymentEntry,
};
use crate::utils::{BORROWER_ACC_TAG, GUARANTOR_ACC_TAG, LENDERS_ACC_TAG, LOAN_INFO_ACC_TAG};
use vstd::prelude::*;

verus! {

/// Units in one coin.
pub const COIN: u64 = 1_000_000_000;

/// The least amount a contribution may move: ten coins.
pub const MIN_LENDING_AMOUNT: u64 = 10_000_000_000;

/// Seconds in a day.
pub const SECONDS_PER_DAY: u64 = 86_400;

/// Days of grace added to the first repayment deadline.
pub const REPAYMENT_GRACE_DAYS: u64 = 5;

/// The approval score a guarantor record starts with.
pub const GUARANTOR_APPROVAL_SCORE: u64 = 500_000_000_000;

/// Units handed out by one test-fund airdrop: five hundred coins.
pub const AIRDROP_AMOUNT: u64 = 500_000_000_000;

/// Units one identity may receive from airdrops in all: five airdrops.
pub const MAX_AIRDROP_TOTAL: u64 = 2_500_000_000_000;

/// The operations of the ledger.
pub struct Processor;

/// Why a contribution of `delta` by `key` to lender slot `id` is refused,
/// in the order the guards are checked; `None` when it is accepted.
pub open spec fn lend_error(
    l: LenderLedger,
    loan: LoanRecord,
    key: Key,
    id: u32,
    delta: u64,
    now: u64,
) -> Option<Funds4GoodError> {
    let h = loan.header;
    if delta < MIN_LENDING_AMOUNT {
        Some(Funds4GoodError::AmountTooSmall)
    } else if ledger_ready_error(l.acc_type, l.shard_count) is Some {
        ledger_ready_error(l.acc_type, l.shard_count)
    } else if id >= LENDER_CAPACITY {
        Some(Funds4GoodError::InvalidLenderId)
    } else if !owner_accepts(l.slots@[id as int], key) {
        Some(Funds4GoodError::OwnerMismatch)
    } else if !contribution_fits(bound_slot(l.slots@[id as int], key), delta) {
        Some(Funds4GoodError::ArithmeticOverflow)
    } else if h.state_tag != LOAN_INFO_ACC_TAG {
        Some(Funds4GoodError::RecordTypeMismatch)
    } else if h.fundraising_deadline < now && h.amount_raised < h.target_amount {
        Some(Funds4GoodError::FundraisingExpired)
    } else if h.amount_raised >= h.target_amount {
        Some(Funds4GoodError::AlreadyFunded)
    } else if loan.contributions@.len() >= MAX_CONTRIBUTIONS {
        Some(Funds4GoodError::ContributionLogFull)
    } else if h.amount_raised + delta > u64::MAX {
        Some(Funds4GoodError::ArithmeticOverflow)
    } else {
        None
    }
}

/// The contribution log entry that a contribution appends.
pub open spec fn contribution_entry(key: Key, id: u32, delta: u64) -> LoanContribution {
    LoanContribution {
        lender_key: key,
        ledger_shard_number: LEDGER_SHARD_NUMBER,
        lender_id: id,
        amount_lent: delta,
    }
}

/// The loan header after a contribution of `delta`.
pub open spec fn header_after_contribution(h: LoanHeader, delta: u64) -> LoanHeader {
    LoanHeader {
        amount_raised: (h.amount_raised + delta) as u64,
        next_contribution_index: (h.next_contribution_index + 1) as u8,
        ..h
    }
}

/// How many entries of the contribution log `c` name lender slot `id`.
pub open spec fn credits_to(c: Seq<LoanContribution>, id: int) -> nat
    decreases c.len(),
{
    if c.len() == 0 {
        0
    } else {
        credits_to(c.drop_last(), id) + if c.last().lender_id == id {
            1nat
        } else {
            0nat
        }
    }
}

/// A prefix of the log names a slot no more often than the whole log.
pub proof fn lemma_credits_to_prefix(c: Seq<LoanContribution>, j: int, id: int)
    requires
        0 <= j <= c.len(),
    ensures
        credits_to(c.take(j), id) <= credits_to(c, id),
    decreases c.len(),
{
    if j < c.len() {
        assert(c.drop_last().take(j) =~= c.take(j));
        lemma_credits_to_prefix(c.drop_last(), j, id);
    } else {
        assert(c.take(j) =~= c);
    }
}

/// Slot `s` once `extra` more units are withdrawable.
pub open spec fn with_extra_withdrawable(s: LenderSlot, extra: int) -> LenderSlot {
    LenderSlot { withdrawable_balance: (s.withdrawable_balance + extra) as u64, ..s }
}

/// The share of an installment of `amount` that each of `n` contribution
/// entries is credited; the remainder stays undistributed.
pub open spec fn emi_share(amount: u64, n: int) -> int {
    amount as int / n
}

/// Whether crediting `share` for each entry of `c` keeps every slot's
/// withdrawable balance within `u64`.
pub open spec fn emi_distribution_fits(slots: Seq<LenderSlot>, c: Seq<LoanContribution>, share: int) -> bool {
    forall|id: int|
        0 <= id < LENDER_CAPACITY ==> slots[id].withdrawable_balance + share * #[trigger] credits_to(
            c,
            id,
        ) <= u64::MAX
}

/// Why an installment of `amount`, whose transfer raised the vault's
/// balance by `delta`, is refused, in the order the guards are checked;
/// `None` when it is accepted.
pub open spec fn pay_emi_error(l: LenderLedger, loan: LoanRecord, amount: u64, delta: u64) -> Option<
    Funds4GoodError,
> {
    let h = loan.header;
    if delta != amount {
        Some(Funds4GoodError::AmountMismatch)
    } else if h.state_tag != LOAN_INFO_ACC_TAG {
        Some(Funds4GoodError::RecordTypeMismatch)
    } else if h.installment_count == 0 {
        Some(Funds4GoodError::NoInstallments)
    } else if h.target_amount / (h.installment_count as u64) > amount {
        Some(Funds4GoodError::BelowMinimumInstallment)
    } else if h.amount_repaid >= h.target_amount {
        Some(Funds4GoodError::LoanFullyRepaid)
    } else if h.amount_repaid + delta > u64::MAX {
        Some(Funds4GoodError::ArithmeticOverflow)
    } else if loan.repayments@.len() >= MAX_REPAYMENTS {
        Some(Funds4GoodError::RepaymentLogFull)
    } else if ledger_ready_error(l.acc_type, l.shard_count) is Some {
        ledger_ready_error(l.acc_type, l.shard_count)
    } else if loan.contributions@.len() == 0 {
        Some(Funds4GoodError::NoContributions)
    } else if !emi_distribution_fits(
        l.slots@,
        loan.contributions@,
        emi_share(delta, loan.contributions@.len() as int),
    ) {
        Some(Funds4GoodError::ArithmeticOverflow)
    } else {
        None
    }
}

/// The loan header after an installment of `delta`.
pub open spec fn header_after_installment(h: LoanHeader, delta: u64) -> LoanHeader {
    LoanHeader {
        amount_repaid: (h.amount_repaid + delta) as u64,
        next_repayment_index: (h.next_repayment_index + 1) as u8,
        ..h
    }
}

/// Why setting up a loan is refused; `None` when it is accepted.
pub open spec fn init_loan_error(
    loan: LoanRecord,
    borrower: BorrowerAccount,
    first_repayment_days: u16,
    fundraising_days: u16,
    now: u64,
) -> Option<Funds4GoodError> {
    if loan.header.state_tag != 0 {
        Some(Funds4GoodError::AlreadyInitialized)
    } else if borrower.has_active_loan {
        Some(Funds4GoodError::BorrowerAlreadyHasActiveLoan)
    } else if borrower.acc_type != BORROWER_ACC_TAG {
        Some(Funds4GoodError::RecordTypeMismatch)
    } else if now + fundraising_days * SECONDS_PER_DAY > u64::MAX {
        Some(Funds4GoodError::ArithmeticOverflow)
    } else if now + (first_repayment_days + REPAYMENT_GRACE_DAYS) * SECONDS_PER_DAY > u64::MAX {
        Some(Funds4GoodError::ArithmeticOverflow)
    } else {
        None
    }
}

/// The loan header once the loan is set up.
pub open spec fn header_after_init(
    h: LoanHeader,
    borrower_key: Key,
    guarantor_key: Key,
    first_repayment_days: u16,
    installment_count: u16,
    fundraising_days: u16,
    target_amount: u64,
    now: u64,
) -> LoanHeader {
    LoanHeader {
        state_tag: LOAN_INFO_ACC_TAG,
        borrower_key,
        guarantor_key,
        approval_timestamp: now,
        fundraising_deadline: (now + fundraising_days * SECONDS_PER_DAY) as u64,
        first_repayment_deadline: (now + (first_repayment_days + REPAYMENT_GRACE_DAYS)
            * SECONDS_PER_DAY) as u64,
        target_amount,
        installment_count: installment_count as u8,
        ..h
    }
}

/// Why paying out a lender's withdrawable balance is refused; `None` when
/// it is accepted.
pub open spec fn lender_withdraw_error(l: LenderLedger, key: Key, id: u32) -> Option<Funds4GoodError> {
    if ledger_ready_error(l.acc_type, l.shard_count) is Some {
        ledger_ready_error(l.acc_type, l.shard_count)
    } else if id >= LENDER_CAPACITY {
        Some(Funds4GoodError::InvalidLenderId)
    } else if !l.slots@[id as int].is_active || l.slots@[id as int].owner_key != key {
        Some(Funds4GoodError::OwnerMismatch)
    } else if !debit_fits(l.slots@[id as int]) {
        Some(Funds4GoodError::ArithmeticOverflow)
    } else {
        None
    }
}

/// Why the borrower's withdrawal of the raised funds is refused; `None`
/// when it is accepted.
pub open spec fn collect_error(loan: LoanRecord, caller: Key) -> Option<Funds4GoodError> {
    let h = loan.header;
    if h.state_tag != LOAN_INFO_ACC_TAG {
        Some(Funds4GoodError::RecordTypeMismatch)
    } else if h.amount_raised < h.target_amount {
        Some(Funds4GoodError::AlreadyWithdrawn)
    } else if h.borrower_key != caller {
        Some(Funds4GoodError::BorrowerMismatch)
    } else {
        None
    }
}

/// Why an airdrop to an identity that has received `stored` units so far is
/// refused, its transfer having lowered the airdrop vault by `decrease`.
pub open spec fn airdrop_error(stored: u64, decrease: u64) -> Option<Funds4GoodError> {
    if stored >= MAX_AIRDROP_TOTAL {
        Some(Funds4GoodError::AirdropCapReached)
    } else if decrease != AIRDROP_AMOUNT {
        Some(Funds4GoodError::AmountMismatch)
    } else {
        None
    }
}

impl Processor {
    /// Records a contribution whose transfer into the vault raised the
    /// vault's balance by `vault_increase`, made by `lender_key` through
    /// lender slot `lender_id` at time `now`.
    pub fn process_lend_to_borrower(
        ledger: &mut LenderLedger,
        loan: &mut LoanRecord,
        lender_key: Key,
        lender_id: u32,
        vault_increase: u64,
        now: u64,
    ) -> (r: Result<(), Funds4GoodError>)
        requires
            old(ledger).wf(),
            old(loan).wf(),
        ensures
            final(ledger).wf(),
            final(loan).wf(),
            vault_increase < MIN_LENDING_AMOUNT ==> r == Err::<(), Funds4GoodError>(
                Funds4GoodError::AmountTooSmall,
            ),
            match lend_error(*old(ledger), *old(loan), lender_key, lender_id, vault_increase, now) {
                Some(e) => r == Err::<(), Funds4GoodError>(e) && *final(ledger) == *old(ledger)
                    && *final(loan) == *old(loan),
                None => {
                    &&& r is Ok
                    &&& final(ledger).acc_type == old(ledger).acc_type
                    &&& final(ledger).shard_count == old(ledger).shard_count
                    &&& final(ledger).slots@ == old(ledger).slots@.update(
                        lender_id as int,
                        credited_slot(
                            bound_slot(old(ledger).slots@[lender_id as int], lender_key),
                            vault_increase,
                        ),
                    )
                    &&& final(loan).header == header_after_contribution(
                        old(loan).header,
                        vault_increase,
                    )
                    &&& final(loan).contributions@ == old(loan).contributions@.push(
                        contribution_entry(lender_key, lender_id, vault_increase),
                    )
                    &&& final(loan).repayments@ == old(loan).repayments@
                },
            },
            r is Ok ==> final(ledger).slots@[lender_id as int].total_lending_amount == old(
                ledger,
            ).slots@[lender_id as int].total_lending_amount + vault_increase,
            r is Ok ==> final(ledger).slots@[lender_id as int].total_unique_principal == old(
                ledger,
            ).slots@[lender_id as int].total_unique_principal + vault_increase,
    {
        if vault_increase < MIN_LENDING_AMOUNT {
            return Err(Funds4GoodError::AmountTooSmall);
        }
        ledger.check_ready()?;
        let slot = ledger.get_slot(lender_id)?;
        let bound = slot.bind_or_verify(lender_key)?;
        let credited = bound.credit_contribution(vault_increase)?;
        let h = loan.header;
        if h.state_tag != LOAN_INFO_ACC_TAG {
            return Err(Funds4GoodError::RecordTypeMismatch);
        }
        if h.fundraising_deadline < now && h.amount_raised < h.target_amount {
            return Err(Funds4GoodError::FundraisingExpired);
        }
        if h.amount_raised >= h.target_amount {
            return Err(Funds4GoodError::AlreadyFunded);
        }
        if loan.contributions.len() >= MAX_CONTRIBUTIONS {
            return Err(Funds4GoodError::ContributionLogFull);
        }
        let raised = match h.amount_raised.checked_add(vault_increase) {
            Some(v) => v,
            None => return Err(Funds4GoodError::ArithmeticOverflow),
        };
        let _ = ledger.put_slot(lender_id, credited);
        loan.contributions.push(
            LoanContribution {
                lender_key,
                ledger_shard_number: LEDGER_SHARD_NUMBER,
                lender_id,
                amount_lent: vault_increase,
            },
        );
        loan.header = LoanHeader {
            amount_raised: raised,
            next_contribution_index: h.next_contribution_index + 1,
            ..h
        };
        Ok(())
    }

    /// Records an installment of `amount` whose transfer into the vault
    /// raised the vault's balance by `vault_increase`, paid at time `now`,
    /// and credits each contribution entry an equal share of it.
    #[verifier::loop_isolation(false)]
    pub fn process_pay_emi(
        ledger: &mut LenderLedger,
        loan: &mut LoanRecord,
        amount: u64,
        vault_increase: u64,
        now: u64,
    ) -> (r: Result<(), Funds4GoodError>)
        requires
            old(ledger).wf(),
            old(loan).wf(),
        ensures
            final(ledger).wf(),
            final(loan).wf(),
            match pay_emi_error(*old(ledger), *old(loan), amount, vault_increase) {
                Some(e) => r == Err::<(), Funds4GoodError>(e) && *final(ledger) == *old(ledger)
                    && *final(loan) == *old(loan),
                None => {
                    let share = emi_share(vault_increase, old(loan).contributions@.len() as int);
                    &&& r is Ok
                    &&& final(ledger).acc_type == old(ledger).acc_type
                    &&& final(ledger).shard_count == old(ledger).shard_count
                    &&& forall|id: int|
                        0 <= id < LENDER_CAPACITY ==> #[trigger] final(ledger).slots@[id]
                            == with_extra_withdrawable(
                            old(ledger).slots@[id],
                            share * credits_to(old(loan).contributions@, id),
                        )
                    &&& final(loan).header == header_after_installment(
                        old(loan).header,
                        vault_increase,
                    )
                    &&& final(loan).contributions@ == old(loan).contributions@
                    &&& final(loan).repayments@ == old(loan).repayments@.push(
                        RepaymentEntry { timestamp: now, amount: vault_increase },
                    )
                },
            },
    {
        if vault_increase != amount {
            return Err(Funds4GoodError::AmountMismatch);
        }
        let h = loan.header;
        if h.state_tag != LOAN_INFO_ACC_TAG {
            return Err(Funds4GoodError::RecordTypeMismatch);
        }
        if h.installment_count == 0 {
            return Err(Funds4GoodError::NoInstallments);
        }
        if h.target_amount / (h.installment_count as u64) > amount {
            return Err(Funds4GoodError::BelowMinimumInstallment);
        }
        if h.amount_repaid >= h.target_amount {
            return Err(Funds4GoodError::LoanFullyRepaid);
        }
        let repaid = match h.amount_repaid.checked_add(vault_increase) {
            Some(v) => v,
            None => return Err(Funds4GoodError::ArithmeticOverflow),
        };
        if loan.repayments.len() >= MAX_REPAYMENTS {
            return Err(Funds4GoodError::RepaymentLogFull);
        }
        ledger.check_ready()?;
        let n = loan.contributions.len();
        if n == 0 {
            return Err(Funds4GoodError::NoContributions);
        }
        let share = vault_increase / (n as u64);
        let ghost c = loan.contributions@;
        let ghost before = ledger.slots@;
        let mut staged: Vec<LenderSlot> = Vec::new();
        let mut k: usize = 0;
        while k < LENDER_CAPACITY
            invariant
                *ledger == *old(ledger),
                *loan == *old(loan),
                ledger.slots@ == before,
                before.len() == LENDER_CAPACITY,
                k <= LENDER_CAPACITY,
                staged@ == before.take(k as int),
            decreases LENDER_CAPACITY - k,
        {
            staged.push(ledger.slots[k]);
            k = k + 1;
            assert(staged@ =~= before.take(k as int));
        }
        assert(staged@ =~= before);
        proof {
            assert forall|id: int| 0 <= id < LENDER_CAPACITY implies #[trigger] staged@[id]
                == with_extra_withdrawable(before[id], share * credits_to(c.take(0), id))
                && before[id].withdrawable_balance + share * credits_to(c.take(0), id)
                <= u64::MAX by {
                assert(c.take(0).len() == 0);
                assert(credits_to(c.take(0), id) == 0);
            }
        }
        let mut i: usize = 0;
        while i < n
            invariant
                *ledger == *old(ledger),
                *loan == *old(loan),
                ledger.slots@ == before,
                loan.contributions@ == c,
                c.len() == n,
                n == old(loan).contributions@.len(),
                forall|j: int| 0 <= j < c.len() ==> #[trigger] c[j].lender_id < LENDER_CAPACITY,
                i <= n,
                share == emi_share(vault_increase, n as int),
                before.len() == LENDER_CAPACITY,
                staged@.len() == LENDER_CAPACITY,
                forall|id: int|
                    0 <= id < LENDER_CAPACITY ==> #[trigger] staged@[id] == with_extra_withdrawable(
                        before[id],
                        share * credits_to(c.take(i as int), id),
                    ) && before[id].withdrawable_balance + share * credits_to(c.take(i as int), id)
                        <= u64::MAX,
            decreases n - i,
        {
            let lid = loan.contributions[i].lender_id;
            let ghost ci = c.take(i as int);
            let ghost cn = c.take(i + 1);
            proof {
                assert(cn.drop_last() =~= ci);
                assert(cn.last() == c[i as int]);
            }
            let slot = staged[lid as usize];
            let ghost prev = staged@;
            match slot.credit_emi_share(share) {
                Ok(s) => {
                    staged.set(lid as usize, s);
                    proof {
                        assert forall|id: int| 0 <= id < LENDER_CAPACITY implies #[trigger] staged@[id]
                            == with_extra_withdrawable(before[id], share * credits_to(cn, id))
                            && before[id].withdrawable_balance + share * credits_to(cn, id)
                            <= u64::MAX by {
                            let k0 = credits_to(ci, id);
                            assert(credits_to(cn, id) == k0 + if c[i as int].lender_id == id {
                                1nat
                            } else {
                                0nat
                            });
                            assert(share * (k0 + 1) == share * k0 + share) by (nonlinear_arith);
                            if id != lid as int {
                                assert(staged@[id] == prev[id]);
                            }
                        }
                    }
                },
                Err(e) => {
                    proof {
                        let k0 = credits_to(ci, lid as int);
                        assert(share * (k0 + 1) == share * k0 + share) by (nonlinear_arith);
                        lemma_credits_to_prefix(c, i + 1, lid as int);
                        let kall = credits_to(c, lid as int);
                        assert(share * (k0 + 1) <= share * kall) by (nonlinear_arith)
                            requires
                                k0 + 1 <= kall,
                                share >= 0,
                        ;
                        assert(!emi_distribution_fits(before, c, share as int));
                    }
                    return Err(e);
                },
            }
            i = i + 1;
        }
        assert(c.take(n as int) =~= c);
        assert(emi_distribution_fits(before, c, share as int)) by {
            assert forall|id: int| 0 <= id < LENDER_CAPACITY implies before[id].withdrawable_balance
                + share * #[trigger] credits_to(c, id) <= u64::MAX by {
                assert(i == n);
                assert(c.take(i as int) == c);
                assert(staged@[id] == with_extra_withdrawable(
                    before[id],
                    share * credits_to(c.take(i as int), id),
                ));
            }
        }
        assert(pay_emi_error(*old(ledger), *old(loan), amount, vault_increase) is None);
        ledger.slots = staged;
        loan.repayments.push(RepaymentEntry { timestamp: now, amount: vault_increase });
        loan.header = LoanHeader {
            amount_repaid: repaid,
            next_repayment_index: h.next_repayment_index + 1,
            ..h
        };
        Ok(())
    }

    /// Sets up a loan of `target_amount` for the borrower whose record is
    /// `borrower`, approved by `guarantor_key` at time `now`, and marks the
    /// borrower's record with `loan_ref`, the loan record's own key.
    pub fn initialize_loan_info_account(
        loan: &mut LoanRecord,
        borrower: &mut BorrowerAccount,
        guarantor_key: Key,
        borrower_key: Key,
        loan_ref: Key,
        first_repayment_days: u16,
        installment_count: u16,
        fundraising_days: u16,
        target_amount: u64,
        now: u64,
    ) -> (r: Result<(), Funds4GoodError>)
        requires
            old(loan).wf(),
        ensures
            final(loan).wf(),
            old(loan).header.state_tag == 0 && old(borrower).has_active_loan ==> r == Err::<
                (),
                Funds4GoodError,
            >(Funds4GoodError::BorrowerAlreadyHasActiveLoan),
            match init_loan_error(*old(loan), *old(borrower), first_repayment_days, fundraising_days, now) {
                Some(e) => r == Err::<(), Funds4GoodError>(e) && *final(loan) == *old(loan)
                    && *final(borrower) == *old(borrower),
                None => {
                    &&& r is Ok
                    &&& final(loan).header == header_after_init(
                        old(loan).header,
                        borrower_key,
                        guarantor_key,
                        first_repayment_days,
                        installment_count,
                        fundraising_days,
                        target_amount,
                        now,
                    )
                    &&& final(loan).contributions@ == old(loan).contributions@
                    &&& final(loan).repayments@ == old(loan).repayments@
                    &&& *final(borrower) == (BorrowerAccount {
                        has_active_loan: true,
                        active_loan_ref: loan_ref,
                        ..*old(borrower)
                    })
                },
            },
    {
        if loan.header.state_tag != 0 {
            return Err(Funds4GoodError::AlreadyInitialized);
        }
        if borrower.has_active_loan {
            return Err(Funds4GoodError::BorrowerAlreadyHasActiveLoan);
        }
        if borrower.acc_type != BORROWER_ACC_TAG {
            return Err(Funds4GoodError::RecordTypeMismatch);
        }
        let fundraising_deadline = match now.checked_add((fundraising_days as u64) * SECONDS_PER_DAY) {
            Some(t) => t,
            None => return Err(Funds4GoodError::ArithmeticOverflow),
        };
        let first_repayment_deadline = match now.checked_add(
            ((first_repayment_days as u64) + REPAYMENT_GRACE_DAYS) * SECONDS_PER_DAY,
        ) {
            Some(t) => t,
            None => return Err(Funds4GoodError::ArithmeticOverflow),
        };
        borrower.has_active_loan = true;
        borrower.active_loan_ref = loan_ref;
        loan.header = LoanHeader {
            state_tag: LOAN_INFO_ACC_TAG,
            borrower_key,
            guarantor_key,
            approval_timestamp: now,
            fundraising_deadline,
            first_repayment_deadline,
            target_amount,
            installment_count: installment_count as u8,
            ..loan.header
        };
        Ok(())
    }

    /// The amount that a withdrawal by `lender_key` from lender slot
    /// `lender_id` would move out of the vault.
    pub fn lender_withdrawal_amount(ledger: &LenderLedger, lender_key: Key, lender_id: u32) -> (r:
        Result<u64, Funds4GoodError>)
        requires
            ledger.wf(),
        ensures
            match lender_withdraw_error(*ledger, lender_key, lender_id) {
                Some(e) => r == Err::<u64, Funds4GoodError>(e),
                None => r == Ok::<u64, Funds4GoodError>(
                    ledger.slots@[lender_id as int].withdrawable_balance,
                ),
            },
    {
        ledger.check_ready()?;
        let slot = ledger.get_slot(lender_id)?;
        if !slot.is_active || slot.owner_key != lender_key {
            return Err(Funds4GoodError::OwnerMismatch);
        }
        let (_, amount) = slot.debit_withdrawal()?;
        Ok(amount)
    }

    /// Pays out the withdrawable balance of lender slot `lender_id` to
    /// `lender_key`, whose transfer lowered the vault's balance by
    /// `vault_decrease`; gives the amount paid out.
    pub fn process_withdraw_lender_free_wallet_funds(
        ledger: &mut LenderLedger,
        lender_key: Key,
        lender_id: u32,
        vault_decrease: u64,
    ) -> (r: Result<u64, Funds4GoodError>)
        requires
            old(ledger).wf(),
        ensures
            final(ledger).wf(),
            match lender_withdraw_error(*old(ledger), lender_key, lender_id) {
                Some(e) => r == Err::<u64, Funds4GoodError>(e) && *final(ledger) == *old(ledger),
                None => if vault_decrease != old(ledger).slots@[lender_id as int].withdrawable_balance {
                    r == Err::<u64, Funds4GoodError>(Funds4GoodError::AmountMismatch)
                        && *final(ledger) == *old(ledger)
                } else {
                    &&& r == Ok::<u64, Funds4GoodError>(vault_decrease)
                    &&& final(ledger).acc_type == old(ledger).acc_type
                    &&& final(ledger).shard_count == old(ledger).shard_count
                    &&& final(ledger).slots@ == old(ledger).slots@.update(
                        lender_id as int,
                        debited_slot(old(ledger).slots@[lender_id as int]),
                    )
                },
            },
            r is Ok ==> final(ledger).slots@[lender_id as int].withdrawable_balance == 0,
    {
        ledger.check_ready()?;
        let slot = ledger.get_slot(lender_id)?;
        if !slot.is_active || slot.owner_key != lender_key {
            return Err(Funds4GoodError::OwnerMismatch);
        }
        let (debited, amount) = slot.debit_withdrawal()?;
        if vault_decrease != amount {
            return Err(Funds4GoodError::AmountMismatch);
        }
        let _ = ledger.put_slot(lender_id, debited);
        Ok(amount)
    }

    /// The amount that the borrower's withdrawal of the raised funds would
    /// move out of the vault.
    pub fn collected_withdrawal_amount(loan: &LoanRecord, borrower_key: Key) -> (r: Result<
        u64,
        Funds4GoodError,
    >)
        ensures
            match collect_error(*loan, borrower_key) {
                Some(e) => r == Err::<u64, Funds4GoodError>(e),
                None => r == Ok::<u64, Funds4GoodError>(loan.header.amount_raised),
            },
    {
        let h = loan.header;
        if h.state_tag != LOAN_INFO_ACC_TAG {
            return Err(Funds4GoodError::RecordTypeMismatch);
        }
        if h.amount_raised < h.target_amount {
            return Err(Funds4GoodError::AlreadyWithdrawn);
        }
        if h.borrower_key != borrower_key {
            return Err(Funds4GoodError::BorrowerMismatch);
        }
        Ok(h.amount_raised)
    }

    /// Hands the raised funds to the borrower `borrower_key`, whose transfer
    /// lowered the vault's balance by `vault_decrease`, and resets the raised
    /// amount so that it cannot be taken twice; gives the amount taken.
    pub fn process_withdraw_collected_loan_funds(
        loan: &mut LoanRecord,
        borrower_key: Key,
        vault_decrease: u64,
    ) -> (r: Result<u64, Funds4GoodError>)
        requires
            old(loan).wf(),
        ensures
            final(loan).wf(),
            match collect_error(*old(loan), borrower_key) {
                Some(e) => r == Err::<u64, Funds4GoodError>(e) && *final(loan) == *old(loan),
                None => if vault_decrease != old(loan).header.amount_raised {
                    r == Err::<u64, Funds4GoodError>(Funds4GoodError::AmountMismatch)
                        && *final(loan) == *old(loan)
                } else {
                    &&& r == Ok::<u64, Funds4GoodError>(vault_decrease)
                    &&& final(loan).header == (LoanHeader { amount_raised: 0, ..old(loan).header })
                    &&& final(loan).contributions@ == old(loan).contributions@
                    &&& final(loan).repayments@ == old(loan).repayments@
                },
            },
    {
        let amount = Self::collected_withdrawal_amount(loan, borrower_key)?;
        if vault_decrease != amount {
            return Err(Funds4GoodError::AmountMismatch);
        }
        loan.header = LoanHeader { amount_raised: 0, ..loan.header };
        Ok(amount)
    }

    /// Sets up the lender ledger record: its tag and its shard number.
    pub fn process_initialize_lenders_storage_account(ledger: &mut LenderLedger) -> (r: Result<
        (),
        Funds4GoodError,
    >)
        requires
            old(ledger).wf(),
        ensures
            final(ledger).wf(),
            final(ledger).slots@ == old(ledger).slots@,
            old(ledger).acc_type != 0 ==> r == Err::<(), Funds4GoodError>(
                Funds4GoodError::AlreadyInitialized,
            ) && final(ledger).acc_type == old(ledger).acc_type && final(ledger).shard_count == old(
                ledger,
            ).shard_count,
            old(ledger).acc_type == 0 ==> r is Ok && final(ledger).acc_type == LENDERS_ACC_TAG
                && final(ledger).shard_count == LEDGER_SHARD_NUMBER,
    {
        if ledger.acc_type != 0 {
            return Err(Funds4GoodError::AlreadyInitialized);
        }
        ledger.acc_type = LENDERS_ACC_TAG;
        ledger.shard_count = LEDGER_SHARD_NUMBER;
        Ok(())
    }

    /// Sets up a borrower record, with no loan open.
    pub fn process_initialize_borrower_storage_account(borrower: &mut BorrowerAccount) -> (r:
        Result<(), Funds4GoodError>)
        ensures
            old(borrower).acc_type != 0 ==> r == Err::<(), Funds4GoodError>(
                Funds4GoodError::AlreadyInitialized,
            ) && *final(borrower) == *old(borrower),
            old(borrower).acc_type == 0 ==> r is Ok && *final(borrower) == (BorrowerAccount {
                acc_type: BORROWER_ACC_TAG,
                has_active_loan: false,
                ..*old(borrower)
            }),
    {
        if borrower.acc_type != 0 {
            return Err(Funds4GoodError::AlreadyInitialized);
        }
        borrower.acc_type = BORROWER_ACC_TAG;
        borrower.has_active_loan = false;
        Ok(())
    }

    /// Sets up the guarantor record of `guarantor_key`, with the starting
    /// approval score.
    pub fn process_initialize_guarantor_storage_account(
        guarantor: &mut GuarantorAccount,
        guarantor_key: Key,
    ) -> (r: Result<(), Funds4GoodError>)
        ensures
            old(guarantor).is_initialized ==> r == Err::<(), Funds4GoodError>(
                Funds4GoodError::AlreadyInitialized,
            ) && *final(guarantor) == *old(guarantor),
            !old(guarantor).is_initialized ==> r is Ok && *final(guarantor) == (GuarantorAccount {
                is_initialized: true,
                acc_type: GUARANTOR_ACC_TAG,
                owner_key: guarantor_key,
                approval_score: GUARANTOR_APPROVAL_SCORE,
            }),
    {
        if guarantor.is_initialized {
            return Err(Funds4GoodError::AlreadyInitialized);
        }
        *guarantor = GuarantorAccount {
            is_initialized: true,
            acc_type: GUARANTOR_ACC_TAG,
            owner_key: guarantor_key,
            approval_score: GUARANTOR_APPROVAL_SCORE,
        };
        Ok(())
    }

    /// The amount an airdrop to an identity that has received `stored` units
    /// so far would move.
    pub fn airdrop_amount(stored: u64) -> (r: Result<u64, Funds4GoodError>)
        ensures
            stored >= MAX_AIRDROP_TOTAL ==> r == Err::<u64, Funds4GoodError>(
                Funds4GoodError::AirdropCapReached,
            ),
            stored < MAX_AIRDROP_TOTAL ==> r == Ok::<u64, Funds4GoodError>(AIRDROP_AMOUNT),
    {
        if stored >= MAX_AIRDROP_TOTAL {
            return Err(Funds4GoodError::AirdropCapReached);
        }
        Ok(AIRDROP_AMOUNT)
    }

    /// Records an airdrop to an identity that has received `stored` units so
    /// far, whose transfer lowered the airdrop vault by `vault_decrease`;
    /// gives the identity's new total.
    pub fn process_airdrop_users_with_test_coins(stored: u64, vault_decrease: u64) -> (r: Result<
        u64,
        Funds4GoodError,
    >)
        ensures
            match airdrop_error(stored, vault_decrease) {
                Some(e) => r == Err::<u64, Funds4GoodError>(e),
                None => r == Ok::<u64, Funds4GoodError>((stored + AIRDROP_AMOUNT) as u64),
            },
    {
        let amount = Self::airdrop_amount(stored)?;
        if vault_decrease != amount {
            return Err(Funds4GoodError::AmountMismatch);
        }
        Ok(stored + amount)
    }

    /// Closing a loan record is accepted and changes nothing.
    pub fn process_close_loan_info_account() -> (r: Result<(), Funds4GoodError>)
        ensures
            r is Ok,
    {
        Ok(())
    }

    /// Returning funds to lenders is accepted and changes nothing.
    pub fn process_return_funds_to_lenders(num_accounts: u16) -> (r: Result<(), Funds4GoodError>)
        ensures
            r is Ok,
    {
        Ok(())
    }
}

} // verus!
