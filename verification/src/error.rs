//! Failures of the escrow program.

use vstd::prelude::*;

verus! {

/// Why a request was turned down.
///
/// Every failure is final for the call that met it: nothing is retried, and
/// a call that fails leaves the accounts as it found them.
#[derive(Clone, Copy, Debug, PartialEq, Eq, Structural)]
pub enum EscrowError {
    /// The request bytes are empty, carry an unknown tag, or are too short
    /// for the operation they name.
    InvalidInstruction,
    /// The storage slot holds less than the balance that keeps it alive
    /// without further payment.
    NotRentExempt,
    /// The initializer did not sign the call.
    MissingSignature,
    /// The receiving account does not belong to the token program.
    WrongOwner,
    /// The storage slot already holds an escrow.
    AlreadyInitialized,
    /// The stored bytes are no escrow record.
    InvalidData,
    /// The call came with fewer accounts than the operation reads.
    NotEnoughAccounts,
    /// The account given as the rent oracle is not the rent sysvar, or its
    /// content cannot be read as rent parameters.
    InvalidRentAccount,
    /// The rent parameters are so large that the balance a slot of this size
    /// needs does not fit in 64 bits.
    RentOutOfRange,
    /// No program-controlled authority exists for this program.
    NoAuthority,
    /// The token program, or the building of the call to it, failed with
    /// this code.
    Ledger(u64),
}

} // verus!
