use funds4good::codec::Key;
use funds4good::error::{ErrorKind, Funds4GoodError};
use funds4good::ledger::LenderLedger;
use funds4good::loan::LoanRecord;
use funds4good::processor::{Processor, AIRDROP_AMOUNT, COIN, MIN_LENDING_AMOUNT};
use funds4good::state::{BorrowerAccount, GuarantorAccount, LenderSlot};

fn key(n: u64) -> Key {
    Key { w0: n, w1: 0, w2: 0, w3: 0 }
}

fn ready_ledger() -> LenderLedger {
    let mut l = LenderLedger::new();
    Processor::process_initialize_lenders_storage_account(&mut l).unwrap();
    l
}

const NOW: u64 = 1_700_000_000;

fn open_loan(target: u64, installments: u16) -> LoanRecord {
    let mut loan = LoanRecord::new();
    let mut borrower = BorrowerAccount { acc_type: 0, has_active_loan: false, active_loan_ref: key(0) };
    Processor::process_initialize_borrower_storage_account(&mut borrower).unwrap();
    Processor::initialize_loan_info_account(&mut loan, &mut borrower, key(900), key(800), key(700), 30, installments, 7, target, NOW).unwrap();
    loan
}

#[test]
fn contribute_credits_lender_and_loan() {
    let mut l = ready_ledger();
    let mut loan = open_loan(1000 * COIN, 10);
    Processor::process_lend_to_borrower(&mut l, &mut loan, key(1), 49_999, 25 * COIN, NOW).unwrap();
    let s = l.slots[49_999];
    assert!(s.is_active);
    assert_eq!(s.owner_key, key(1));
    assert_eq!(s.total_lending_amount, 25 * COIN as u128);
    assert_eq!(s.total_unique_principal, 25 * COIN);
    Processor::process_lend_to_borrower(&mut l, &mut loan, key(1), 49_999, 15 * COIN, NOW).unwrap();
    let s = l.slots[49_999];
    assert_eq!(s.total_lending_amount, 40 * COIN as u128);
    assert_eq!(s.total_unique_principal, 40 * COIN);
    assert_eq!(loan.header.amount_raised, 40 * COIN);
    assert_eq!(loan.header.next_contribution_index, 2);
    assert_eq!(loan.contributions.len(), 2);
    assert_eq!(loan.contributions[1].amount_lent, 15 * COIN);
    assert_eq!(loan.contributions[1].lender_id, 49_999);
    assert_eq!(loan.contributions[1].ledger_shard_number, 1);
}

#[test]
fn contribute_below_minimum_is_too_small() {
    let mut l = ready_ledger();
    let mut loan = open_loan(1000 * COIN, 10);
    let r = Processor::process_lend_to_borrower(&mut l, &mut loan, key(1), 3, MIN_LENDING_AMOUNT - 1, NOW);
    assert_eq!(r, Err(Funds4GoodError::AmountTooSmall));
    assert_eq!(Funds4GoodError::AmountTooSmall.kind(), ErrorKind::AmountMismatch);
    assert!(!l.slots[3].is_active);
    assert_eq!(loan.header.amount_raised, 0);
    // regardless of the loan's state
    let mut blank = LoanRecord::new();
    let mut raw = LenderLedger::new();
    let r = Processor::process_lend_to_borrower(&mut raw, &mut blank, key(1), 60_000, 0, NOW);
    assert_eq!(r, Err(Funds4GoodError::AmountTooSmall));
    assert!(Processor::process_lend_to_borrower(&mut l, &mut loan, key(1), 3, MIN_LENDING_AMOUNT, NOW).is_ok());
}

#[test]
fn contribute_refused_once_funded_or_expired() {
    let mut l = ready_ledger();
    let mut loan = open_loan(20 * COIN, 2);
    Processor::process_lend_to_borrower(&mut l, &mut loan, key(1), 1, 20 * COIN, NOW).unwrap();
    let r = Processor::process_lend_to_borrower(&mut l, &mut loan, key(2), 2, 10 * COIN, NOW);
    assert_eq!(r, Err(Funds4GoodError::AlreadyFunded));
    assert_eq!(Funds4GoodError::AlreadyFunded.kind(), ErrorKind::InvalidState);

    let mut late = open_loan(1000 * COIN, 10);
    let deadline = late.header.fundraising_deadline;
    assert_eq!(deadline, NOW + 7 * 86_400);
    assert!(Processor::process_lend_to_borrower(&mut l, &mut late, key(2), 2, 10 * COIN, deadline).is_ok());
    let r = Processor::process_lend_to_borrower(&mut l, &mut late, key(2), 2, 10 * COIN, deadline + 1);
    assert_eq!(r, Err(Funds4GoodError::FundraisingExpired));
    assert_eq!(Funds4GoodError::FundraisingExpired.kind(), ErrorKind::InvalidState);
}

#[test]
fn contribute_guards_on_ledger_and_owner() {
    let mut loan = open_loan(1000 * COIN, 10);
    let mut raw = LenderLedger::new();
    assert_eq!(Processor::process_lend_to_borrower(&mut raw, &mut loan, key(1), 1, 10 * COIN, NOW), Err(Funds4GoodError::RecordTypeMismatch));
    raw.acc_type = 3;
    raw.shard_count = 2;
    assert_eq!(Processor::process_lend_to_borrower(&mut raw, &mut loan, key(1), 1, 10 * COIN, NOW), Err(Funds4GoodError::ShardMismatch));
    let mut l = ready_ledger();
    assert_eq!(Processor::process_lend_to_borrower(&mut l, &mut loan, key(1), 50_000, 10 * COIN, NOW), Err(Funds4GoodError::InvalidLenderId));
    Processor::process_lend_to_borrower(&mut l, &mut loan, key(1), 4, 10 * COIN, NOW).unwrap();
    assert_eq!(Processor::process_lend_to_borrower(&mut l, &mut loan, key(2), 4, 10 * COIN, NOW), Err(Funds4GoodError::OwnerMismatch));
    assert_eq!(l.slots[4].owner_key, key(1));
    let mut blank = LoanRecord::new();
    assert_eq!(Processor::process_lend_to_borrower(&mut l, &mut blank, key(1), 4, 10 * COIN, NOW), Err(Funds4GoodError::RecordTypeMismatch));
}

#[test]
fn two_lenders_split_installment_and_lose_remainder() {
    let mut l = ready_ledger();
    let mut loan = open_loan(1000 * COIN, 10);
    Processor::process_lend_to_borrower(&mut l, &mut loan, key(1), 10, 500 * COIN, NOW).unwrap();
    Processor::process_lend_to_borrower(&mut l, &mut loan, key(2), 20, 500 * COIN, NOW).unwrap();
    let x = 100 * COIN + 1;
    Processor::process_pay_emi(&mut l, &mut loan, x, x, NOW + 5).unwrap();
    assert_eq!(l.slots[10].withdrawable_balance, x / 2);
    assert_eq!(l.slots[20].withdrawable_balance, x / 2);
    assert_eq!(l.slots[10].withdrawable_balance + l.slots[20].withdrawable_balance, x - 1);
    assert_eq!(l.slots[10].total_unique_principal, 500 * COIN);
    assert_eq!(loan.header.amount_repaid, x);
    assert_eq!(loan.repayments.len(), 1);
    assert_eq!(loan.repayments[0].timestamp, NOW + 5);
    assert_eq!(loan.repayments[0].amount, x);
    assert_eq!(loan.header.next_repayment_index, 1);
}

#[test]
fn same_lender_twice_gets_two_shares() {
    let mut l = ready_ledger();
    let mut loan = open_loan(1000 * COIN, 10);
    Processor::process_lend_to_borrower(&mut l, &mut loan, key(1), 10, 300 * COIN, NOW).unwrap();
    Processor::process_lend_to_borrower(&mut l, &mut loan, key(1), 10, 300 * COIN, NOW).unwrap();
    Processor::process_lend_to_borrower(&mut l, &mut loan, key(2), 20, 400 * COIN, NOW).unwrap();
    Processor::process_pay_emi(&mut l, &mut loan, 300 * COIN, 300 * COIN, NOW).unwrap();
    assert_eq!(l.slots[10].withdrawable_balance, 200 * COIN);
    assert_eq!(l.slots[20].withdrawable_balance, 100 * COIN);
}

#[test]
fn installment_guards() {
    let mut l = ready_ledger();
    let mut loan = open_loan(1000 * COIN, 10);
    assert_eq!(Processor::process_pay_emi(&mut l, &mut loan, 100 * COIN, 100 * COIN, NOW), Err(Funds4GoodError::NoContributions));
    Processor::process_lend_to_borrower(&mut l, &mut loan, key(1), 1, 1000 * COIN, NOW).unwrap();
    assert_eq!(Processor::process_pay_emi(&mut l, &mut loan, 100 * COIN - 1, 100 * COIN - 1, NOW), Err(Funds4GoodError::BelowMinimumInstallment));
    assert_eq!(Processor::process_pay_emi(&mut l, &mut loan, 100 * COIN, 99 * COIN, NOW), Err(Funds4GoodError::AmountMismatch));
    assert!(Processor::process_pay_emi(&mut l, &mut loan, 100 * COIN, 100 * COIN, NOW).is_ok());
    assert!(Processor::process_pay_emi(&mut l, &mut loan, 900 * COIN, 900 * COIN, NOW).is_ok());
    assert_eq!(Processor::process_pay_emi(&mut l, &mut loan, 100 * COIN, 100 * COIN, NOW), Err(Funds4GoodError::LoanFullyRepaid));
    assert_eq!(l.slots[1].withdrawable_balance, 1000 * COIN);
    let mut none = open_loan(1000 * COIN, 0);
    assert_eq!(Processor::process_pay_emi(&mut l, &mut none, 100 * COIN, 100 * COIN, NOW), Err(Funds4GoodError::NoInstallments));
}

#[test]
fn installment_overflow_changes_nothing() {
    let mut l = ready_ledger();
    let mut loan = open_loan(1000 * COIN, 10);
    Processor::process_lend_to_borrower(&mut l, &mut loan, key(1), 1, 500 * COIN, NOW).unwrap();
    Processor::process_lend_to_borrower(&mut l, &mut loan, key(2), 2, 500 * COIN, NOW).unwrap();
    l.slots[2].withdrawable_balance = u64::MAX - 1;
    let r = Processor::process_pay_emi(&mut l, &mut loan, 100 * COIN, 100 * COIN, NOW);
    assert_eq!(r, Err(Funds4GoodError::ArithmeticOverflow));
    assert_eq!(l.slots[1].withdrawable_balance, 0);
    assert_eq!(loan.header.amount_repaid, 0);
    assert!(loan.repayments.is_empty());
}

#[test]
fn lender_withdrawal_empties_balance_once() {
    let mut l = ready_ledger();
    let mut loan = open_loan(1000 * COIN, 10);
    Processor::process_lend_to_borrower(&mut l, &mut loan, key(1), 10, 500 * COIN, NOW).unwrap();
    Processor::process_lend_to_borrower(&mut l, &mut loan, key(2), 20, 500 * COIN, NOW).unwrap();
    Processor::process_pay_emi(&mut l, &mut loan, 200 * COIN, 200 * COIN, NOW).unwrap();
    assert_eq!(Processor::lender_withdrawal_amount(&l, key(1), 10), Ok(100 * COIN));
    assert_eq!(Processor::process_withdraw_lender_free_wallet_funds(&mut l, key(1), 10, 99 * COIN), Err(Funds4GoodError::AmountMismatch));
    assert_eq!(Processor::process_withdraw_lender_free_wallet_funds(&mut l, key(1), 10, 100 * COIN), Ok(100 * COIN));
    assert_eq!(l.slots[10].withdrawable_balance, 0);
    assert_eq!(l.slots[10].total_unique_principal, 400 * COIN);
    assert_eq!(Processor::lender_withdrawal_amount(&l, key(1), 10), Ok(0));
    assert_eq!(Processor::process_withdraw_lender_free_wallet_funds(&mut l, key(1), 10, 0), Ok(0));
    assert_eq!(l.slots[10].total_unique_principal, 400 * COIN);
    assert_eq!(Processor::process_withdraw_lender_free_wallet_funds(&mut l, key(2), 10, 0), Err(Funds4GoodError::OwnerMismatch));
    assert_eq!(Processor::process_withdraw_lender_free_wallet_funds(&mut l, key(3), 30, 0), Err(Funds4GoodError::OwnerMismatch));
    assert_eq!(Processor::process_withdraw_lender_free_wallet_funds(&mut l, key(3), 50_000, 0), Err(Funds4GoodError::InvalidLenderId));
}

#[test]
fn withdrawal_beyond_principal_is_refused() {
    let mut l = ready_ledger();
    l.slots[5] = LenderSlot { is_active: true, owner_key: key(5), total_lending_amount: 10, total_unique_principal: 10, withdrawable_balance: 11 };
    assert_eq!(Processor::process_withdraw_lender_free_wallet_funds(&mut l, key(5), 5, 11), Err(Funds4GoodError::ArithmeticOverflow));
    assert_eq!(l.slots[5].withdrawable_balance, 11);
}

#[test]
fn borrower_takes_raised_funds_once() {
    let mut l = ready_ledger();
    let mut loan = open_loan(20 * COIN, 2);
    assert_eq!(Processor::collected_withdrawal_amount(&loan, key(800)), Err(Funds4GoodError::AlreadyWithdrawn));
    Processor::process_lend_to_borrower(&mut l, &mut loan, key(1), 1, 25 * COIN, NOW).unwrap();
    assert_eq!(Processor::process_withdraw_collected_loan_funds(&mut loan, key(801), 25 * COIN), Err(Funds4GoodError::BorrowerMismatch));
    assert_eq!(Processor::process_withdraw_collected_loan_funds(&mut loan, key(800), 20 * COIN), Err(Funds4GoodError::AmountMismatch));
    assert_eq!(Processor::process_withdraw_collected_loan_funds(&mut loan, key(800), 25 * COIN), Ok(25 * COIN));
    assert_eq!(loan.header.amount_raised, 0);
    assert_eq!(Processor::process_withdraw_collected_loan_funds(&mut loan, key(800), 25 * COIN), Err(Funds4GoodError::AlreadyWithdrawn));
}

#[test]
fn airdrop_five_times_then_capped() {
    let mut stored = 0u64;
    for k in 1..=5u64 {
        assert_eq!(Processor::airdrop_amount(stored), Ok(AIRDROP_AMOUNT));
        stored = Processor::process_airdrop_users_with_test_coins(stored, 500 * COIN).unwrap();
        assert_eq!(stored, k * 500 * COIN);
    }
    assert_eq!(stored, 2500 * COIN);
    assert_eq!(Processor::process_airdrop_users_with_test_coins(stored, 500 * COIN), Err(Funds4GoodError::AirdropCapReached));
    assert_eq!(Processor::airdrop_amount(stored), Err(Funds4GoodError::AirdropCapReached));
    assert_eq!(Processor::process_airdrop_users_with_test_coins(0, 499 * COIN), Err(Funds4GoodError::AmountMismatch));
}

#[test]
fn initialize_loan_sets_header_and_borrower() {
    let mut loan = LoanRecord::new();
    let mut borrower = BorrowerAccount { acc_type: 2, has_active_loan: false, active_loan_ref: key(0) };
    Processor::initialize_loan_info_account(&mut loan, &mut borrower, key(9), key(8), key(7), 30, 12, 7, 1000 * COIN, NOW).unwrap();
    let h = loan.header;
    assert_eq!(h.state_tag, 5);
    assert_eq!(h.borrower_key, key(8));
    assert_eq!(h.guarantor_key, key(9));
    assert_eq!(h.approval_timestamp, NOW);
    assert_eq!(h.fundraising_deadline, NOW + 7 * 86_400);
    assert_eq!(h.first_repayment_deadline, NOW + 35 * 86_400);
    assert_eq!(h.target_amount, 1000 * COIN);
    assert_eq!(h.installment_count, 12);
    assert!(borrower.has_active_loan);
    assert_eq!(borrower.active_loan_ref, key(7));
    let r = Processor::initialize_loan_info_account(&mut loan, &mut borrower, key(9), key(8), key(7), 30, 12, 7, 1000 * COIN, NOW);
    assert_eq!(r, Err(Funds4GoodError::AlreadyInitialized));
}

#[test]
fn initialize_loan_refused_for_borrower_with_active_loan() {
    let mut loan = LoanRecord::new();
    let mut borrower = BorrowerAccount { acc_type: 2, has_active_loan: true, active_loan_ref: key(1) };
    let r = Processor::initialize_loan_info_account(&mut loan, &mut borrower, key(9), key(8), key(7), 30, 12, 7, 1000 * COIN, NOW);
    assert_eq!(r, Err(Funds4GoodError::BorrowerAlreadyHasActiveLoan));
    assert_eq!(loan.header.state_tag, 0);
    assert_eq!(borrower.active_loan_ref, key(1));
    let mut other = BorrowerAccount { acc_type: 4, has_active_loan: false, active_loan_ref: key(1) };
    let r = Processor::initialize_loan_info_account(&mut loan, &mut other, key(9), key(8), key(7), 30, 12, 7, 1000 * COIN, NOW);
    assert_eq!(r, Err(Funds4GoodError::RecordTypeMismatch));
    let mut fresh = BorrowerAccount { acc_type: 2, has_active_loan: false, active_loan_ref: key(1) };
    let r = Processor::initialize_loan_info_account(&mut loan, &mut fresh, key(9), key(8), key(7), 30, 12, 7, 1000 * COIN, u64::MAX);
    assert_eq!(r, Err(Funds4GoodError::ArithmeticOverflow));
}

#[test]
fn storage_records_initialize_once() {
    let mut l = LenderLedger::new();
    assert!(Processor::process_initialize_lenders_storage_account(&mut l).is_ok());
    assert_eq!((l.acc_type, l.shard_count), (3, 1));
    assert_eq!(Processor::process_initialize_lenders_storage_account(&mut l), Err(Funds4GoodError::AlreadyInitialized));

    let mut b = BorrowerAccount { acc_type: 0, has_active_loan: false, active_loan_ref: key(0) };
    assert!(Processor::process_initialize_borrower_storage_account(&mut b).is_ok());
    assert_eq!(b.acc_type, 2);
    assert_eq!(Processor::process_initialize_borrower_storage_account(&mut b), Err(Funds4GoodError::AlreadyInitialized));

    let mut g = GuarantorAccount { is_initialized: false, acc_type: 0, owner_key: key(0), approval_score: 0 };
    assert!(Processor::process_initialize_guarantor_storage_account(&mut g, key(6)).is_ok());
    assert_eq!(g, GuarantorAccount { is_initialized: true, acc_type: 4, owner_key: key(6), approval_score: 500 * COIN });
    assert_eq!(Processor::process_initialize_guarantor_storage_account(&mut g, key(7)), Err(Funds4GoodError::AlreadyInitialized));
    assert_eq!(g.owner_key, key(6));
    assert_eq!(Funds4GoodError::AlreadyInitialized.kind(), ErrorKind::StorageLayoutError);
}

#[test]
fn declared_operations_do_nothing() {
    assert_eq!(Processor::process_close_loan_info_account(), Ok(()));
    assert_eq!(Processor::process_return_funds_to_lenders(4), Ok(()));
}

#[test]
fn ledger_operations_by_id() {
    let mut l = ready_ledger();
    assert_eq!(l.get_slot(50_000), Err(Funds4GoodError::InvalidLenderId));
    assert_eq!(l.bind_or_verify(7, key(1)), Ok(()));
    assert_eq!(l.bind_or_verify(7, key(1)), Ok(()));
    assert_eq!(l.bind_or_verify(7, key(2)), Err(Funds4GoodError::OwnerMismatch));
    assert_eq!(l.credit_contribution(7, 30), Ok(()));
    assert_eq!(l.credit_emi_share(7, 12), Ok(()));
    let s = l.get_slot(7).unwrap();
    assert_eq!((s.total_lending_amount, s.total_unique_principal, s.withdrawable_balance), (30, 30, 12));
    assert_eq!(l.debit_withdrawal(7), Ok(12));
    let s = l.get_slot(7).unwrap();
    assert_eq!((s.total_lending_amount, s.total_unique_principal, s.withdrawable_balance), (30, 18, 0));
    assert_eq!(l.credit_emi_share(7, u64::MAX), Ok(()));
    assert_eq!(l.credit_emi_share(7, 1), Err(Funds4GoodError::ArithmeticOverflow));
    assert_eq!(l.debit_withdrawal(7), Err(Funds4GoodError::ArithmeticOverflow));
    assert_eq!(l.put_slot(50_000, LenderSlot::empty()), Err(Funds4GoodError::InvalidLenderId));
    assert_eq!(l.credit_contribution(60_000, 1), Err(Funds4GoodError::InvalidLenderId));
}
