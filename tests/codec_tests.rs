use funds4good::codec::Key;
use funds4good::instruction::Funds4GoodInstruction;
use funds4good::ledger::{LenderLedger, LENDERS_STORAGE_SIZE, LENDER_CAPACITY};
use funds4good::loan::{LoanRecord, LOAN_RECORD_SIZE};
use funds4good::state::{
    BorrowerAccount, GuarantorAccount, LenderSlot, LoanContribution, LoanHeader, RepaymentEntry,
    BORROWER_RECORD_SIZE, GUARANTOR_RECORD_SIZE, LENDER_SLOT_SIZE, LOAN_CONTRIBUTION_SIZE,
    LOAN_HEADER_SIZE, REPAYMENT_ENTRY_SIZE,
};
use funds4good::error::Funds4GoodError;
use funds4good::utils::{get_admin_pubkey, AccTypes, ADMIN_KEY_BASE58};

fn key(n: u64) -> Key {
    Key { w0: n, w1: n.wrapping_mul(3), w2: u64::MAX - n, w3: 0x0102_0304_0506_0708 }
}

#[test]
fn key_bytes_round_trip() {
    let bytes: Vec<u8> = (0u8..32).collect();
    let k = Key::from_bytes(&bytes).unwrap();
    assert_eq!(k.w0, 0x0706_0504_0302_0100);
    assert_eq!(k.to_bytes(), bytes);
    assert!(Key::from_bytes(&bytes[..31]).is_none());
}

#[test]
fn lender_slot_round_trip() {
    let s = LenderSlot {
        is_active: true,
        owner_key: key(7),
        total_lending_amount: u128::MAX - 5,
        total_unique_principal: 123_456_789_000,
        withdrawable_balance: 42,
    };
    let mut out = vec![9u8];
    s.pack(&mut out);
    assert_eq!(out.len(), 1 + LENDER_SLOT_SIZE);
    assert_eq!(out[1], 1);
    assert_eq!(LenderSlot::unpack(&out, 1), s);
}

#[test]
fn loan_header_round_trip() {
    let h = LoanHeader {
        state_tag: 5,
        borrower_key: key(1),
        guarantor_key: key(2),
        approval_timestamp: 1_700_000_000,
        fundraising_deadline: 1_700_864_000,
        first_repayment_deadline: 1_702_000_000,
        target_amount: 1_000_000_000_000,
        amount_raised: 500_000_000_000,
        amount_repaid: 3,
        installment_count: 12,
        next_contribution_index: 1,
        next_repayment_index: 2,
    };
    let mut out = Vec::new();
    h.pack(&mut out);
    assert_eq!(out.len(), LOAN_HEADER_SIZE);
    assert_eq!(&out[89..97], &1_000_000_000_000u64.to_le_bytes());
    assert_eq!(LoanHeader::unpack(&out, 0), h);
}

#[test]
fn small_records_round_trip() {
    let c = LoanContribution { lender_key: key(3), ledger_shard_number: 1, lender_id: 49_999, amount_lent: 77 };
    let mut out = Vec::new();
    c.pack(&mut out);
    assert_eq!(out.len(), LOAN_CONTRIBUTION_SIZE);
    assert_eq!(LoanContribution::unpack(&out, 0), c);

    let e = RepaymentEntry { timestamp: 5, amount: u64::MAX };
    let mut out = Vec::new();
    e.pack(&mut out);
    assert_eq!(out.len(), REPAYMENT_ENTRY_SIZE);
    assert_eq!(RepaymentEntry::unpack(&out, 0), e);

    let b = BorrowerAccount { acc_type: 2, has_active_loan: true, active_loan_ref: key(4) };
    let mut out = Vec::new();
    b.pack(&mut out);
    assert_eq!(out.len(), BORROWER_RECORD_SIZE);
    assert_eq!(BorrowerAccount::unpack(&out, 0), b);

    let g = GuarantorAccount { is_initialized: true, acc_type: 4, owner_key: key(5), approval_score: 500_000_000_000 };
    let mut out = Vec::new();
    g.pack(&mut out);
    assert_eq!(out.len(), GUARANTOR_RECORD_SIZE);
    assert_eq!(GuarantorAccount::unpack(&out, 0), g);
}

#[test]
fn loan_record_round_trip() {
    let mut loan = LoanRecord::new();
    loan.header.state_tag = 5;
    loan.header.target_amount = 1000;
    for i in 0..3u32 {
        loan.contributions.push(LoanContribution { lender_key: key(i as u64), ledger_shard_number: 1, lender_id: i * 10, amount_lent: 100 + i as u64 });
    }
    loan.header.next_contribution_index = 3;
    loan.repayments.push(RepaymentEntry { timestamp: 9, amount: 11 });
    loan.header.next_repayment_index = 1;
    let bytes = loan.pack();
    assert_eq!(bytes.len(), LOAN_RECORD_SIZE);
    let back = LoanRecord::unpack(&bytes).unwrap();
    assert_eq!(back.header, loan.header);
    assert_eq!(back.contributions, loan.contributions);
    assert_eq!(back.repayments, loan.repayments);
}

#[test]
fn loan_record_unpack_rejects_bad_bytes() {
    assert_eq!(LoanRecord::unpack(&[0u8; 10]).err(), Some(Funds4GoodError::StorageSizeMismatch));
    let mut bytes = LoanRecord::new().pack();
    bytes[114] = 201;
    assert_eq!(LoanRecord::unpack(&bytes).err(), Some(Funds4GoodError::ContributionLogFull));
    bytes[114] = 1;
    bytes[116 + 33..116 + 37].copy_from_slice(&50_000u32.to_le_bytes());
    assert_eq!(LoanRecord::unpack(&bytes).err(), Some(Funds4GoodError::InvalidLenderId));
}

#[test]
fn ledger_round_trip() {
    let mut l = LenderLedger::new();
    l.acc_type = 3;
    l.shard_count = 1;
    l.slots[49_999].withdrawable_balance = 17;
    l.slots[0].is_active = true;
    let bytes = l.pack();
    assert_eq!(bytes.len(), LENDERS_STORAGE_SIZE);
    assert_eq!(bytes[0], 3);
    let back = LenderLedger::unpack(&bytes).unwrap();
    assert_eq!(back.slots.len(), LENDER_CAPACITY);
    assert_eq!(back.slots, l.slots);
    assert_eq!((back.acc_type, back.shard_count), (3, 1));
    assert!(LenderLedger::unpack(&bytes[1..]).is_err());
}

#[test]
fn unpack_lend_instruction() {
    let mut b = vec![0u8];
    b.extend_from_slice(&25_000_000_000u64.to_le_bytes());
    b.extend_from_slice(&49_999u32.to_le_bytes());
    assert_eq!(
        Funds4GoodInstruction::unpack(&b),
        Ok(Funds4GoodInstruction::LendToBorrower { amount_to_lend_input: 25_000_000_000, lender_id_input: 49_999 })
    );
    assert_eq!(Funds4GoodInstruction::unpack(&b[..12]), Err(Funds4GoodError::InvalidInstruction));
}

#[test]
fn unpack_initialize_loan_instruction() {
    let mut b = vec![8u8];
    b.extend_from_slice(&30u16.to_le_bytes());
    b.extend_from_slice(&10u16.to_le_bytes());
    b.extend_from_slice(&7u16.to_le_bytes());
    b.extend_from_slice(&1_000_000_000_000u64.to_le_bytes());
    assert_eq!(
        Funds4GoodInstruction::unpack(&b),
        Ok(Funds4GoodInstruction::InitializeLoanInfoAccount {
            num_days_left_for_first_repayment_input: 30,
            num_emis_needed_to_repay_the_loan_input: 10,
            num_days_for_fundraising_input: 7,
            total_loan_amount_input: 1_000_000_000_000,
        })
    );
}

#[test]
fn unpack_other_instructions() {
    assert_eq!(Funds4GoodInstruction::unpack(&[1, 2, 1, 0, 0]), Ok(Funds4GoodInstruction::WithdrawLenderFreeWalletFunds { lender_id_input: 258 }));
    assert_eq!(Funds4GoodInstruction::unpack(&[2]), Ok(Funds4GoodInstruction::WithdrawCollectedLoanFunds {}));
    assert_eq!(Funds4GoodInstruction::unpack(&[3]), Ok(Funds4GoodInstruction::TransferFunds4GoodVaultAccountOwnership {}));
    assert_eq!(Funds4GoodInstruction::unpack(&[4]), Ok(Funds4GoodInstruction::InitializeLendersStorageAccount {}));
    assert_eq!(Funds4GoodInstruction::unpack(&[5]), Ok(Funds4GoodInstruction::InitializeBorrowerAccount {}));
    assert_eq!(Funds4GoodInstruction::unpack(&[6]), Ok(Funds4GoodInstruction::InitializeGuarantorAccount {}));
    assert_eq!(Funds4GoodInstruction::unpack(&[7, 1, 0, 0, 0, 0, 0, 0, 1]), Ok(Funds4GoodInstruction::PayEMIforLoan { emi_amount_to_pay_input: (1u64 << 56) + 1 }));
    assert_eq!(Funds4GoodInstruction::unpack(&[9]), Ok(Funds4GoodInstruction::AirdropUsersWithFunds4GoodTestCoins {}));
    assert_eq!(Funds4GoodInstruction::unpack(&[10]), Ok(Funds4GoodInstruction::TransferAirdropVaultAccountOwnership {}));
    assert_eq!(Funds4GoodInstruction::unpack(&[11, 3, 0]), Ok(Funds4GoodInstruction::ReturnFundsToLenders { num_accounts_input: 3 }));
    assert_eq!(Funds4GoodInstruction::unpack(&[12]), Ok(Funds4GoodInstruction::CloseLoanInfoAccount {}));
}

#[test]
fn unpack_rejects_unknown_empty_and_truncated() {
    assert_eq!(Funds4GoodInstruction::unpack(&[]), Err(Funds4GoodError::InvalidInstruction));
    assert_eq!(Funds4GoodInstruction::unpack(&[13]), Err(Funds4GoodError::InvalidInstruction));
    assert_eq!(Funds4GoodInstruction::unpack(&[7, 1, 2]), Err(Funds4GoodError::InvalidInstruction));
    assert_eq!(Funds4GoodInstruction::unpack(&[11, 3]), Err(Funds4GoodError::InvalidInstruction));
    assert_eq!(Funds4GoodInstruction::unpack_to_u64(&[1, 2, 3]), Err(Funds4GoodError::InvalidInstruction));
    assert_eq!(Funds4GoodInstruction::unpack_to_u64(&[1, 0, 0, 0, 0, 0, 0, 0, 9]), Ok(1));
    assert_eq!(Funds4GoodInstruction::unpack_to_u16(&[0x34, 0x12]), 0x1234);
    assert_eq!(Funds4GoodInstruction::unpack_to_u32(&[0x78, 0x56, 0x34, 0x12]), 0x1234_5678);
}

#[test]
fn admin_key_decodes_to_its_text() {
    let k = get_admin_pubkey().expect("the administrator's key is valid base58 of 32 bytes");
    let bytes = k.to_bytes();
    assert_eq!(bytes.len(), 32);
    assert_eq!(bs58::encode(&bytes).into_string(), ADMIN_KEY_BASE58);
    assert_ne!(bytes, ADMIN_KEY_BASE58.as_bytes()[..32].to_vec());
}

#[test]
fn record_tags() {
    assert_eq!(AccTypes::BorrowerAcc.tag(), 2);
    assert_eq!(AccTypes::LendersAcc.tag(), 3);
    assert_eq!(AccTypes::GuarantorAcc.tag(), 4);
    assert_eq!(AccTypes::LoanInfoAcc.tag(), 5);
}
