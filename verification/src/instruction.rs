//! The requests that the program takes.
//!
//! The first byte of a request names the operation; what follows belongs to
//! the operation. Tag 0 opens an escrow and is followed by the expected
//! amount, eight bytes with the least significant first. Bytes after those
//! are ignored.

use crate::error::EscrowError;
use crate::little_endian::{read_u64, u64_from_le};
use vstd::prelude::*;
use vstd::slice::slice_subrange;

verus! {

#[derive(Clone, Copy, Debug, PartialEq, Eq, Structural)]
pub enum EscrowInstruction {
    /// Starts the trade: fills the escrow account and hands the temporary
    /// token account to the authority of the program.
    ///
    /// Accounts expected:
    ///
    /// 0. `[signer]` The account of the person initializing the escrow.
    /// 1. `[writable]` Temporary token account that should be created prior
    ///    to the instruction and owned by the initializer.
    /// 2. `[]` The initializer's token account for the token they will
    ///    receive should the trade go through.
    /// 3. `[writable]` The escrow account, it will hold all necessary
    ///    information about the trade.
    /// 4. `[]` The rent sysvar.
    /// 5. `[]` The token program.
    InitEscrow {
        /// The amount party A expects to receive of token Y.
        amount: u64,
    },
}

impl EscrowInstruction {
    /// The amount that the bytes after a tag begin with.
    pub open spec fn decode_amount(bytes: Seq<u8>) -> Result<u64, EscrowError> {
        if bytes.len() < 8 {
            Err(EscrowError::InvalidInstruction)
        } else {
            Ok(u64_from_le(bytes.subrange(0, 8)) as u64)
        }
    }

    /// The request that the bytes stand for.
    pub open spec fn decode(bytes: Seq<u8>) -> Result<EscrowInstruction, EscrowError> {
        if bytes.len() == 0 || bytes[0] != 0 {
            Err(EscrowError::InvalidInstruction)
        } else {
            match Self::decode_amount(bytes.subrange(1, bytes.len() as int)) {
                Ok(amount) => Ok(EscrowInstruction::InitEscrow { amount }),
                Err(e) => Err(e),
            }
        }
    }

    /// Unpacks a byte buffer into an [`EscrowInstruction`].
    pub fn unpack(input: &[u8]) -> (r: Result<EscrowInstruction, EscrowError>)
        ensures
            r == Self::decode(input@),
    {
        if input.len() == 0 {
            return Err(EscrowError::InvalidInstruction);
        }
        let tag: u8 = input[0];
        let rest = slice_subrange(input, 1, input.len());
        if tag != 0 {
            return Err(EscrowError::InvalidInstruction);
        }
        match Self::unpack_amount(rest) {
            Ok(amount) => Ok(EscrowInstruction::InitEscrow { amount }),
            Err(e) => Err(e),
        }
    }

    /// Reads the amount that `input` begins with.
    pub fn unpack_amount(input: &[u8]) -> (r: Result<u64, EscrowError>)
        ensures
            r == Self::decode_amount(input@),
    {
        if input.len() < 8 {
            return Err(EscrowError::InvalidInstruction);
        }
        Ok(read_u64(input, 0))
    }
}

/// A request is accepted exactly if it has the tag 0 and at least eight
/// bytes after it; every other request fails as an invalid instruction.
pub proof fn lemma_decode_accepts(bytes: Seq<u8>)
    ensures
        EscrowInstruction::decode(bytes) is Ok <==> bytes.len() >= 9 && bytes[0] == 0,
        EscrowInstruction::decode(bytes) is Err ==> EscrowInstruction::decode(bytes) == Err::<
            EscrowInstruction,
            EscrowError,
        >(EscrowError::InvalidInstruction),
{
}

/// A request with the tag 0 and fewer than eight bytes after it is invalid.
pub proof fn lemma_decode_rejects_short_amount(bytes: Seq<u8>)
    requires
        1 <= bytes.len() < 9,
        bytes[0] == 0,
    ensures
        EscrowInstruction::decode(bytes) == Err::<EscrowInstruction, EscrowError>(
            EscrowError::InvalidInstruction,
        ),
{
}

/// A request with any other tag than 0 is invalid.
pub proof fn lemma_decode_rejects_other_tags(bytes: Seq<u8>)
    requires
        bytes.len() >= 1,
        bytes[0] != 0,
    ensures
        EscrowInstruction::decode(bytes) == Err::<EscrowInstruction, EscrowError>(
            EscrowError::InvalidInstruction,
        ),
{
}

/// The empty request is invalid.
pub proof fn lemma_decode_rejects_empty()
    ensures
        EscrowInstruction::decode(Seq::<u8>::empty()) == Err::<EscrowInstruction, EscrowError>(
            EscrowError::InvalidInstruction,
        ),
{
}

} // verus!
