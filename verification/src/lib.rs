//! Delegated-vault authorization: a per-authority wallet record at a
//! deterministically derived address, and a vault address that this program
//! can authorize as a co-signer of forwarded calls on the authority's behalf.

pub mod addr;
pub mod error;
pub mod instruction;
pub mod laws;
pub mod pda;
pub mod processor;
pub mod state;
