//! Decoding of operation requests: a tag byte, then little-endian fields.
use crate::codec::{le_u16_value, le_u32_value, le_u64_value, read_u64};
use crate::error::Funds4GoodError;
use vstd::prelude::*;
use vstd::slice::slice_subrange;

verus! {

/// An operation request.
#[derive(Clone, Copy, Debug, PartialEq, Eq, Structural)]
pub enum Funds4GoodInstruction {
    LendToBorrower { amount_to_lend_input: u64, lender_id_input: u32 },
    WithdrawLenderFreeWalletFunds { lender_id_input: u32 },
    WithdrawCollectedLoanFunds {},
    TransferFunds4GoodVaultAccountOwnership {},
    InitializeLendersStorageAccount {},
    InitializeGuarantorAccount {},
    InitializeBorrowerAccount {},
    PayEMIforLoan { emi_amount_to_pay_input: u64 },
    InitializeLoanInfoAccount {
        num_days_left_for_first_repayment_input: u16,
        num_emis_needed_to_repay_the_loan_input: u16,
        num_days_for_fundraising_input: u16,
        total_loan_amount_input: u64,
    },
    AirdropUsersWithFunds4GoodTestCoins {},
    TransferAirdropVaultAccountOwnership {},
    ReturnFundsToLenders { num_accounts_input: u16 },
    CloseLoanInfoAccount {},
}

/// The request that the bytes `b` hold; `None` for an unknown tag or a
/// payload shorter than the tag asks for. Bytes after the payload are ignored.
pub open spec fn instruction_of(b: Seq<u8>) -> Option<Funds4GoodInstruction> {
    if b.len() == 0 {
        None
    } else if b[0] == 0 {
        if b.len() >= 13 {
            Some(
                Funds4GoodInstruction::LendToBorrower {
                    amount_to_lend_input: le_u64_value(b.subrange(1, 9)),
                    lender_id_input: le_u32_value(b.subrange(9, 13)),
                },
            )
        } else {
            None
        }
    } else if b[0] == 1 {
        if b.len() >= 5 {
            Some(
                Funds4GoodInstruction::WithdrawLenderFreeWalletFunds {
                    lender_id_input: le_u32_value(b.subrange(1, 5)),
                },
            )
        } else {
            None
        }
    } else if b[0] == 2 {
        Some(Funds4GoodInstruction::WithdrawCollectedLoanFunds {  })
    } else if b[0] == 3 {
        Some(Funds4GoodInstruction::TransferFunds4GoodVaultAccountOwnership {  })
    } else if b[0] == 4 {
        Some(Funds4GoodInstruction::InitializeLendersStorageAccount {  })
    } else if b[0] == 5 {
        Some(Funds4GoodInstruction::InitializeBorrowerAccount {  })
    } else if b[0] == 6 {
        Some(Funds4GoodInstruction::InitializeGuarantorAccount {  })
    } else if b[0] == 7 {
        if b.len() >= 9 {
            Some(
                Funds4GoodInstruction::PayEMIforLoan {
                    emi_amount_to_pay_input: le_u64_value(b.subrange(1, 9)),
                },
            )
        } else {
            None
        }
    } else if b[0] == 8 {
        if b.len() >= 15 {
            Some(
                Funds4GoodInstruction::InitializeLoanInfoAccount {
                    num_days_left_for_first_repayment_input: le_u16_value(b.subrange(1, 3)),
                    num_emis_needed_to_repay_the_loan_input: le_u16_value(b.subrange(3, 5)),
                    num_days_for_fundraising_input: le_u16_value(b.subrange(5, 7)),
                    total_loan_amount_input: le_u64_value(b.subrange(7, 15)),
                },
            )
        } else {
            None
        }
    } else if b[0] == 9 {
        Some(Funds4GoodInstruction::AirdropUsersWithFunds4GoodTestCoins {  })
    } else if b[0] == 10 {
        Some(Funds4GoodInstruction::TransferAirdropVaultAccountOwnership {  })
    } else if b[0] == 11 {
        if b.len() >= 3 {
            Some(
                Funds4GoodInstruction::ReturnFundsToLenders {
                    num_accounts_input: le_u16_value(b.subrange(1, 3)),
                },
            )
        } else {
            None
        }
    } else if b[0] == 12 {
        Some(Funds4GoodInstruction::CloseLoanInfoAccount {  })
    } else {
        None
    }
}

impl Funds4GoodInstruction {
    /// Decodes an operation request.
    pub fn unpack(input: &[u8]) -> (r: Result<Self, Funds4GoodError>)
        ensures
            match instruction_of(input@) {
                Some(i) => r == Ok::<Funds4GoodInstruction, Funds4GoodError>(i),
                None => r == Err::<Funds4GoodInstruction, Funds4GoodError>(
                    Funds4GoodError::InvalidInstruction,
                ),
            },
    {
        let len = input.len();
        if len == 0 {
            return Err(Funds4GoodError::InvalidInstruction);
        }
        let tag = input[0];
        if tag == 0 {
            if len < 13 {
                return Err(Funds4GoodError::InvalidInstruction);
            }
            Ok(
                Self::LendToBorrower {
                    amount_to_lend_input: Self::unpack_to_u64(slice_subrange(input, 1, 9))?,
                    lender_id_input: Self::unpack_to_u32(slice_subrange(input, 9, 13)),
                },
            )
        } else if tag == 1 {
            if len < 5 {
                return Err(Funds4GoodError::InvalidInstruction);
            }
            Ok(
                Self::WithdrawLenderFreeWalletFunds {
                    lender_id_input: Self::unpack_to_u32(slice_subrange(input, 1, 5)),
                },
            )
        } else if tag == 2 {
            Ok(Self::WithdrawCollectedLoanFunds {  })
        } else if tag == 3 {
            Ok(Self::TransferFunds4GoodVaultAccountOwnership {  })
        } else if tag == 4 {
            Ok(Self::InitializeLendersStorageAccount {  })
        } else if tag == 5 {
            Ok(Self::InitializeBorrowerAccount {  })
        } else if tag == 6 {
            Ok(Self::InitializeGuarantorAccount {  })
        } else if tag == 7 {
            if len < 9 {
                return Err(Funds4GoodError::InvalidInstruction);
            }
            Ok(
                Self::PayEMIforLoan {
                    emi_amount_to_pay_input: Self::unpack_to_u64(slice_subrange(input, 1, 9))?,
                },
            )
        } else if tag == 8 {
            if len < 15 {
                return Err(Funds4GoodError::InvalidInstruction);
            }
            Ok(
                Self::InitializeLoanInfoAccount {
                    num_days_left_for_first_repayment_input: Self::unpack_to_u16(
                        slice_subrange(input, 1, 3),
                    ),
                    num_emis_needed_to_repay_the_loan_input: Self::unpack_to_u16(
                        slice_subrange(input, 3, 5),
                    ),
                    num_days_for_fundraising_input: Self::unpack_to_u16(slice_subrange(input, 5, 7)),
                    total_loan_amount_input: Self::unpack_to_u64(slice_subrange(input, 7, 15))?,
                },
            )
        } else if tag == 9 {
            Ok(Self::AirdropUsersWithFunds4GoodTestCoins {  })
        } else if tag == 10 {
            Ok(Self::TransferAirdropVaultAccountOwnership {  })
        } else if tag == 11 {
            if len < 3 {
                return Err(Funds4GoodError::InvalidInstruction);
            }
            Ok(
                Self::ReturnFundsToLenders {
                    num_accounts_input: Self::unpack_to_u16(slice_subrange(input, 1, 3)),
                },
            )
        } else if tag == 12 {
            Ok(Self::CloseLoanInfoAccount {  })
        } else {
            Err(Funds4GoodError::InvalidInstruction)
        }
    }

    /// The `u64` in the first eight bytes, little-endian; an error when
    /// fewer than eight bytes are given.
    pub fn unpack_to_u64(input: &[u8]) -> (r: Result<u64, Funds4GoodError>)
        ensures
            input@.len() >= 8 ==> r == Ok::<u64, Funds4GoodError>(le_u64_value(input@)),
            input@.len() < 8 ==> r == Err::<u64, Funds4GoodError>(
                Funds4GoodError::InvalidInstruction,
            ),
    {
        if input.len() < 8 {
            return Err(Funds4GoodError::InvalidInstruction);
        }
        let v = read_u64(input, 0);
        assert(le_u64_value(input@.subrange(0, 8)) == le_u64_value(input@));
        Ok(v)
    }

    /// The `u16` in the first two bytes, little-endian.
    pub fn unpack_to_u16(input: &[u8]) -> (r: u16)
        requires
            input@.len() >= 2,
        ensures
            r == le_u16_value(input@),
    {
        (input[0] as u16) | ((input[1] as u16) << 8u16)
    }

    /// The `u32` in the first four bytes, little-endian.
    pub fn unpack_to_u32(input: &[u8]) -> (r: u32)
        requires
            input@.len() >= 4,
        ensures
            r == le_u32_value(input@),
    {
        (input[0] as u32) | ((input[1] as u32) << 8u32) | ((input[2] as u32) << 16u32) | ((input[3]
            as u32) << 24u32)
    }
}

} // verus!
