//! Pooled-lending ledger: fixed-layout records, a slot-indexed lender ledger,
//! the loan lifecycle and the operations that move it forward.

pub mod codec;
pub mod state;
pub mod error;
pub mod utils;
pub mod ledger;
pub mod loan;
pub mod processor;
pub mod instruction;
pub mod laws;
