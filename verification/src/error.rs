//! The errors an operation can be rejected with. Every check is local and
//! synchronous: a failure aborts the whole operation, nothing is retried here.

use vstd::prelude::*;

verus! {

#[derive(Clone, Copy, Debug, PartialEq, Eq, Structural)]
pub enum WalletError {
    /// A supplied address does not match its canonical derivation.
    InvalidDerivation,
    /// A required signer did not sign the operation.
    MissingSigner,
    /// A required mutable account was not marked writable.
    NotWritable,
    /// The allocation facility is not the expected system allocator.
    WrongAllocator,
    /// The wallet account's bytes do not parse as a wallet record.
    InvalidAccountData,
    /// The serialized record does not fit the account's storage.
    SerializationError,
    /// The operation payload does not parse as an instruction.
    InvalidInstructionData,
    /// Fewer accounts were supplied than the operation requires.
    NotEnoughAccounts,
}

} // verus!
