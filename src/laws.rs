//! Properties that relate the operations' outcomes across inputs and calls.
use crate::codec::Key;
use crate::error::{kind_of, ErrorKind, Funds4GoodError};
use crate::ledger::{
    bound_slot, contribution_fits, debited_slot, ledger_encoded, ledger_ready_error,
    owner_accepts, LenderLedger, LENDER_CAPACITY,
};
use crate::loan::LoanRecord;
use crate::processor::{
    airdrop_error, credits_to, emi_share, lend_error, lender_withdraw_error, pay_emi_error,
    with_extra_withdrawable, AIRDROP_AMOUNT, MAX_AIRDROP_TOTAL, MIN_LENDING_AMOUNT,
};
use crate::state::{LenderSlot, LoanContribution};
use crate::utils::LOAN_INFO_ACC_TAG;
use vstd::prelude::*;

verus! {

/// A contribution is never accepted once the loan raised its target, nor
/// after the fundraising deadline while the target is unmet. Where every
/// guard checked before these passes, the refusal is `AlreadyFunded`, or
/// `FundraisingExpired`, both of the kind `InvalidState`.
pub proof fn lemma_contribute_refused_when_closed(
    l: LenderLedger,
    loan: LoanRecord,
    key: Key,
    id: u32,
    delta: u64,
    now: u64,
)
    requires
        l.wf(),
    ensures
        loan.header.amount_raised >= loan.header.target_amount ==> lend_error(
            l,
            loan,
            key,
            id,
            delta,
            now,
        ) is Some,
        now > loan.header.fundraising_deadline && loan.header.amount_raised
            < loan.header.target_amount ==> lend_error(l, loan, key, id, delta, now) is Some,
        ({
            let guards_before_pass = delta >= MIN_LENDING_AMOUNT && ledger_ready_error(
                l.acc_type,
                l.shard_count,
            ) is None && id < LENDER_CAPACITY && owner_accepts(l.slots@[id as int], key)
                && contribution_fits(bound_slot(l.slots@[id as int], key), delta)
                && loan.header.state_tag == LOAN_INFO_ACC_TAG;
            &&& guards_before_pass && loan.header.amount_raised >= loan.header.target_amount
                ==> lend_error(l, loan, key, id, delta, now) == Some(Funds4GoodError::AlreadyFunded)
            &&& guards_before_pass && now > loan.header.fundraising_deadline
                && loan.header.amount_raised < loan.header.target_amount ==> lend_error(
                l,
                loan,
                key,
                id,
                delta,
                now,
            ) == Some(Funds4GoodError::FundraisingExpired)
        }),
        kind_of(Funds4GoodError::AlreadyFunded) == ErrorKind::InvalidState,
        kind_of(Funds4GoodError::FundraisingExpired) == ErrorKind::InvalidState,
{
}

/// An installment smaller than `target_amount / installment_count` is never
/// accepted; where the transfer matched the amount and the loan record is
/// set up with installments, the refusal is `BelowMinimumInstallment`.
pub proof fn lemma_installment_below_minimum_refused(
    l: LenderLedger,
    loan: LoanRecord,
    amount: u64,
    delta: u64,
)
    requires
        loan.header.installment_count > 0,
        amount < loan.header.target_amount / (loan.header.installment_count as u64),
    ensures
        pay_emi_error(l, loan, amount, delta) is Some,
        delta == amount && loan.header.state_tag == LOAN_INFO_ACC_TAG ==> pay_emi_error(
            l,
            loan,
            amount,
            delta,
        ) == Some(Funds4GoodError::BelowMinimumInstallment),
{
}

/// When a loan's contribution log holds exactly two entries from two
/// different lenders, an accepted installment of `x` credits each of them
/// `x / 2`, credits no other slot, and leaves the remainder `x % 2` to nobody.
pub proof fn lemma_two_lenders_share_installment(l: LenderLedger, loan: LoanRecord, x: u64)
    requires
        l.wf(),
        loan.wf(),
        loan.contributions@.len() == 2,
        loan.contributions@[0].lender_id != loan.contributions@[1].lender_id,
        pay_emi_error(l, loan, x, x) is None,
    ensures
        ({
            let c = loan.contributions@;
            let share = emi_share(x, c.len() as int);
            let a = c[0].lender_id as int;
            let b = c[1].lender_id as int;
            &&& share == x / 2
            &&& with_extra_withdrawable(l.slots@[a], share * credits_to(c, a)).withdrawable_balance
                == l.slots@[a].withdrawable_balance + x / 2
            &&& with_extra_withdrawable(l.slots@[b], share * credits_to(c, b)).withdrawable_balance
                == l.slots@[b].withdrawable_balance + x / 2
            &&& forall|id: int| id != a && id != b ==> credits_to(c, id) == 0
            &&& share * credits_to(c, a) + share * credits_to(c, b) + x % 2 == x
        }),
{
    let c = loan.contributions@;
    let d = c.drop_last();
    let e = d.drop_last();
    let a = c[0].lender_id as int;
    let b = c[1].lender_id as int;
    assert(c.last() == c[1]);
    assert(d.last() == c[0]);
    assert(e.len() == 0);
    assert forall|id: int| #[trigger] credits_to(c, id) == (if id == a {
        1nat
    } else {
        0nat
    }) + (if id == b {
        1nat
    } else {
        0nat
    }) by {
        assert(credits_to(e, id) == 0);
        assert(credits_to(d, id) == credits_to(e, id) + if d.last().lender_id == id {
            1nat
        } else {
            0nat
        });
    }
    assert(credits_to(c, a) == 1);
    assert(credits_to(c, b) == 1);
    assert(l.slots@[a].withdrawable_balance + emi_share(x, 2) * credits_to(c, a) <= u64::MAX);
    assert(l.slots@[b].withdrawable_balance + emi_share(x, 2) * credits_to(c, b) <= u64::MAX);
}

/// A lender's withdrawal empties the withdrawable balance; on the ledger it
/// leaves behind (`after`), a second withdrawal by the same lender is
/// accepted, moves nothing and leaves the slot as it is.
pub proof fn lemma_withdraw_lender_balance_twice(
    l: LenderLedger,
    after: LenderLedger,
    key: Key,
    id: u32,
)
    requires
        l.wf(),
        lender_withdraw_error(l, key, id) is None,
        after.acc_type == l.acc_type,
        after.shard_count == l.shard_count,
        after.slots@ == l.slots@.update(id as int, debited_slot(l.slots@[id as int])),
    ensures
        after.slots@[id as int].withdrawable_balance == 0,
        lender_withdraw_error(after, key, id) is None,
        debited_slot(after.slots@[id as int]) == after.slots@[id as int],
{
}

/// An identity that received `k` airdrops so far gets another exactly when
/// `k < 5`; the sixth is refused with `AirdropCapReached`.
pub proof fn lemma_airdrop_cap(k: nat)
    requires
        k <= 5,
    ensures
        k < 5 ==> airdrop_error((k * AIRDROP_AMOUNT) as u64, AIRDROP_AMOUNT) is None
            && (k * AIRDROP_AMOUNT) + AIRDROP_AMOUNT == (k + 1) * AIRDROP_AMOUNT,
        k == 5 ==> airdrop_error((k * AIRDROP_AMOUNT) as u64, AIRDROP_AMOUNT) == Some(
            Funds4GoodError::AirdropCapReached,
        ),
        k * AIRDROP_AMOUNT <= MAX_AIRDROP_TOTAL,
{
    assert(k * AIRDROP_AMOUNT <= 5 * AIRDROP_AMOUNT) by (nonlinear_arith)
        requires
            k <= 5,
    ;
    assert(k < 5 ==> k * AIRDROP_AMOUNT < MAX_AIRDROP_TOTAL) by (nonlinear_arith)
        requires
            k <= 5,
    ;
    assert((k + 1) * AIRDROP_AMOUNT == k * AIRDROP_AMOUNT + AIRDROP_AMOUNT) by (nonlinear_arith);
}

/// The bytes of a ledger record determine its tag, shard number and slots.
pub proof fn lemma_ledger_encoding_determines_ledger(
    b: Seq<u8>,
    t1: u8,
    n1: u8,
    x: Seq<LenderSlot>,
    t2: u8,
    n2: u8,
    y: Seq<LenderSlot>,
)
    requires
        ledger_encoded(b, t1, n1, x),
        ledger_encoded(b, t2, n2, y),
    ensures
        t1 == t2,
        n1 == n2,
        x == y,
{
    assert(x =~= y);
}

} // verus!
