//! The escrow record and its fixed layout of 105 bytes.
//!
//! | bytes    | field                                   |
//! |----------|-----------------------------------------|
//! | 0        | flag: 0 for an empty slot, 1 for a record |
//! | 1..33    | initializer                             |
//! | 33..65   | account that holds the deposit          |
//! | 65..97   | account that receives the payment       |
//! | 97..105  | expected amount, least significant byte first |

use crate::error::EscrowError;
use crate::little_endian::{
    lemma_u64_from_to_le, lemma_u64_to_from_le, read_u64, u64_from_le, u64_to_le, write_u64,
};
use crate::pubkey::{read_key, write_key, Pubkey};
use vstd::prelude::*;

verus! {

/// Number of bytes of an encoded record.
pub const ESCROW_LEN: usize = 105;

/// What an escrow slot records: who opened the escrow, which account holds
/// the deposit, where the payment is to go, and how much is asked.
#[derive(Clone, Copy, Debug, PartialEq, Eq)]
pub struct Escrow {
    /// Whether the slot holds an escrow; set once and never cleared.
    pub is_initialized: bool,
    /// The party that opened the escrow.
    pub initializer_pubkey: Pubkey,
    /// The account whose tokens go to the taker.
    pub temp_token_account_pubkey: Pubkey,
    /// The account of the initializer that receives the taker's tokens.
    pub initializer_token_to_receive_account_pubkey: Pubkey,
    /// How much the taker has to send.
    pub expected_amount: u64,
}

/// A record as a mathematical value.
pub struct EscrowRecord {
    pub is_initialized: bool,
    pub initializer: Seq<u8>,
    pub deposit_account: Seq<u8>,
    pub receive_account: Seq<u8>,
    pub expected_amount: u64,
}

impl EscrowRecord {
    /// Each of the three identities has 32 bytes.
    pub open spec fn valid(self) -> bool {
        &&& self.initializer.len() == 32
        &&& self.deposit_account.len() == 32
        &&& self.receive_account.len() == 32
    }

    /// The bytes that stand for the record.
    pub open spec fn encode(self) -> Seq<u8> {
        seq![if self.is_initialized { 1u8 } else { 0u8 }] + self.initializer + self.deposit_account
            + self.receive_account + u64_to_le(self.expected_amount)
    }

    /// The record that the first 105 bytes stand for. The flag byte has to be
    /// 0 or 1.
    pub open spec fn decode(bytes: Seq<u8>) -> Result<EscrowRecord, EscrowError>
        recommends
            bytes.len() >= 105,
    {
        if bytes[0] > 1 {
            Err(EscrowError::InvalidData)
        } else {
            Ok(
                EscrowRecord {
                    is_initialized: bytes[0] == 1,
                    initializer: bytes.subrange(1, 33),
                    deposit_account: bytes.subrange(33, 65),
                    receive_account: bytes.subrange(65, 97),
                    expected_amount: u64_from_le(bytes.subrange(97, 105)) as u64,
                },
            )
        }
    }

    /// The record that a slot of exactly 105 bytes stands for.
    pub open spec fn decode_exact(bytes: Seq<u8>) -> Result<EscrowRecord, EscrowError> {
        if bytes.len() != 105 {
            Err(EscrowError::InvalidData)
        } else {
            Self::decode(bytes)
        }
    }
}

impl View for Escrow {
    type V = EscrowRecord;

    open spec fn view(&self) -> EscrowRecord {
        EscrowRecord {
            is_initialized: self.is_initialized,
            initializer: self.initializer_pubkey@,
            deposit_account: self.temp_token_account_pubkey@,
            receive_account: self.initializer_token_to_receive_account_pubkey@,
            expected_amount: self.expected_amount,
        }
    }
}

/// A valid record has 105 bytes, and decoding them gives the record back.
pub proof fn lemma_decode_encode(record: EscrowRecord)
    requires
        record.valid(),
    ensures
        record.encode().len() == 105,
        EscrowRecord::decode(record.encode()) == Ok::<EscrowRecord, EscrowError>(record),
        EscrowRecord::decode_exact(record.encode()) == Ok::<EscrowRecord, EscrowError>(record),
{
    let bytes = record.encode();
    lemma_u64_from_to_le(record.expected_amount);
    assert(bytes.subrange(1, 33) =~= record.initializer);
    assert(bytes.subrange(33, 65) =~= record.deposit_account);
    assert(bytes.subrange(65, 97) =~= record.receive_account);
    assert(bytes.subrange(97, 105) =~= u64_to_le(record.expected_amount));
}

/// Bytes whose flag is neither 0 nor 1 stand for no record.
pub proof fn lemma_decode_rejects_other_flags(bytes: Seq<u8>)
    requires
        bytes.len() >= 105,
        bytes[0] != 0,
        bytes[0] != 1,
    ensures
        EscrowRecord::decode(bytes) == Err::<EscrowRecord, EscrowError>(EscrowError::InvalidData),
{
}

/// Every record that the program holds is valid, so that what
/// [`Escrow::pack_into_slice`] writes, [`Escrow::unpack_from_slice`] reads
/// back as the same record.
pub proof fn lemma_unpack_pack(escrow: Escrow)
    ensures
        escrow@.valid(),
        EscrowRecord::decode(escrow@.encode()) == Ok::<EscrowRecord, EscrowError>(escrow@),
{
    lemma_decode_encode(escrow@);
}

/// A slot of 105 bytes that stands for a record holds exactly the bytes of
/// that record: no two contents stand for the same record.
pub proof fn lemma_encode_decode(bytes: Seq<u8>)
    requires
        bytes.len() == 105,
        EscrowRecord::decode(bytes) is Ok,
    ensures
        EscrowRecord::decode(bytes)->Ok_0.valid(),
        EscrowRecord::decode(bytes)->Ok_0.encode() == bytes,
{
    lemma_u64_to_from_le(bytes.subrange(97, 105));
}

impl Escrow {
    /// Whether the slot holds an escrow.
    pub fn is_initialized(&self) -> (set: bool)
        ensures
            set == self@.is_initialized,
    {
        self.is_initialized
    }

    /// Reads a record from the first 105 bytes of `src`.
    pub fn unpack_from_slice(src: &[u8]) -> (r: Result<Escrow, EscrowError>)
        requires
            src@.len() >= 105,
        ensures
            match r {
                Ok(escrow) => EscrowRecord::decode(src@) == Ok::<EscrowRecord, EscrowError>(
                    escrow@,
                ),
                Err(e) => EscrowRecord::decode(src@) == Err::<EscrowRecord, EscrowError>(e),
            },
    {
        let flag: u8 = src[0];
        if flag > 1 {
            return Err(EscrowError::InvalidData);
        }
        Ok(
            Escrow {
                is_initialized: flag == 1,
                initializer_pubkey: read_key(src, 1),
                temp_token_account_pubkey: read_key(src, 33),
                initializer_token_to_receive_account_pubkey: read_key(src, 65),
                expected_amount: read_u64(src, 97),
            },
        )
    }

    /// Writes the record over the first 105 bytes of `dst` and leaves the
    /// others alone.
    pub fn pack_into_slice(&self, dst: &mut [u8])
        requires
            old(dst)@.len() >= 105,
        ensures
            final(dst)@ == self@.encode() + old(dst)@.subrange(105, old(dst)@.len() as int),
    {
        dst[0] = if self.is_initialized { 1 } else { 0 };
        write_key(dst, 1, &self.initializer_pubkey);
        write_key(dst, 33, &self.temp_token_account_pubkey);
        write_key(dst, 65, &self.initializer_token_to_receive_account_pubkey);
        write_u64(dst, 97, self.expected_amount);
    }

    /// Reads the record of a slot. The slot has to have exactly 105 bytes.
    pub fn unpack_unchecked(input: &[u8]) -> (r: Result<Escrow, EscrowError>)
        ensures
            match r {
                Ok(escrow) => EscrowRecord::decode_exact(input@) == Ok::<
                    EscrowRecord,
                    EscrowError,
                >(escrow@),
                Err(e) => EscrowRecord::decode_exact(input@) == Err::<EscrowRecord, EscrowError>(
                    e,
                ),
            },
    {
        if input.len() != ESCROW_LEN {
            return Err(EscrowError::InvalidData);
        }
        Escrow::unpack_from_slice(input)
    }

    /// Writes the record into a slot. The slot has to have exactly 105 bytes,
    /// and is left alone if it has not.
    pub fn pack(src: Escrow, dst: &mut [u8]) -> (r: Result<(), EscrowError>)
        ensures
            old(dst)@.len() == 105 ==> r is Ok && final(dst)@ == src@.encode(),
            old(dst)@.len() != 105 ==> r == Err::<(), EscrowError>(EscrowError::InvalidData)
                && final(dst)@ == old(dst)@,
    {
        if dst.len() != ESCROW_LEN {
            return Err(EscrowError::InvalidData);
        }
        src.pack_into_slice(dst);
        Ok(())
    }
}

} // verus!
