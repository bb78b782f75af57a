//! The rent oracle: whether a balance keeps an account of a given size alive
//! without further payment.
//!
//! The parameters of the rule live in the rent sysvar account. An account is
//! exempt if its balance reaches the price of its size, 128 bytes of overhead
//! included, at the rate per byte and year, over the number of years that the
//! parameters name.

use crate::account::{Account, AccountView};
use crate::error::EscrowError;
use crate::pubkey::Pubkey;
use solana_program::account_info::AccountInfo;
use solana_program::pubkey::Pubkey as ProgramKey;
use solana_program::rent::Rent;
use solana_program::sysvar::Sysvar;
use vstd::prelude::*;

verus! {

/// The identity of the rent sysvar,
/// `SysvarRent111111111111111111111111111111111`.
pub const RENT_SYSVAR_ID: Pubkey = [
    6, 167, 213, 23, 25, 44, 92, 81, 33, 140, 201, 76, 61, 74, 241, 127,
    88, 218, 238, 8, 155, 161, 253, 68, 227, 219, 217, 138, 0, 0, 0, 0,
];

/// Bytes that every account occupies beside its data.
pub const ACCOUNT_STORAGE_OVERHEAD: u64 = 128;

/// The rate in lamports per byte and year that this content of the rent
/// sysvar sets; `None` if the content holds no rent parameters.
pub uninterp spec fn rent_rate(data: Seq<u8>) -> Option<u64>;

/// Whether `balance` exempts an account of `data_len` bytes from rent under
/// the parameters that this content of the rent sysvar sets.
pub uninterp spec fn rent_exempt(data: Seq<u8>, balance: u64, data_len: usize) -> bool;

/// The rate that an account sets as the rent sysvar; `None` if it is another
/// account or holds no rent parameters.
pub open spec fn sysvar_rate(key: Seq<u8>, data: Seq<u8>) -> Option<u64> {
    if key == RENT_SYSVAR_ID@ {
        rent_rate(data)
    } else {
        None
    }
}

/// Whether the size of an account of `data_len` bytes, overhead included,
/// and its yearly price at `rate` both fit in 64 bits.
pub open spec fn price_in_range(rate: u64, data_len: usize) -> bool {
    &&& ACCOUNT_STORAGE_OVERHEAD + data_len <= u64::MAX
    &&& (ACCOUNT_STORAGE_OVERHEAD + data_len) * rate <= u64::MAX
}

/// What the oracle says of a balance and a size: the verdict, or why there
/// is none.
pub open spec fn rent_verdict(oracle: AccountView, balance: u64, data_len: usize) -> Result<
    bool,
    EscrowError,
> {
    match sysvar_rate(oracle.key, oracle.data) {
        None => Err(EscrowError::InvalidRentAccount),
        Some(rate) => if !price_in_range(rate, data_len) {
            Err(EscrowError::RentOutOfRange)
        } else {
            Ok(rent_exempt(oracle.data, balance, data_len))
        },
    }
}

/// Reads the rent parameters with `Rent::from_account_info` and returns
/// their field `lamports_per_byte_year`.
///
/// That function accepts no account but the rent sysvar, and of its content
/// only what deserializes as rent parameters.
#[verifier::external_body]
fn read_rent_rate(key: &Pubkey, data: &[u8]) -> (rate: Option<u64>)
    ensures
        key@ == RENT_SYSVAR_ID@ ==> rate == rent_rate(data@),
        key@ != RENT_SYSVAR_ID@ ==> rate is None,
{
    let key = ProgramKey::from(*key);
    let (mut lamports, mut content) = (0u64, data.to_vec());
    let info = AccountInfo::new(&key, false, false, &mut lamports, &mut content, &key, false, 0);
    match Rent::from_account_info(&info) {
        Ok(rent) => Some(rent.lamports_per_byte_year),
        Err(_) => None,
    }
}

/// Reads the rent parameters as [`read_rent_rate`] does and asks
/// `Rent::is_exempt`.
///
/// `Rent::is_exempt` adds the overhead to the size and multiplies the sum by
/// the rate, both in 64 bits, before anything else: sum and product have to
/// fit.
#[verifier::external_body]
fn is_rent_exempt(key: &Pubkey, data: &[u8], balance: u64, data_len: usize) -> (exempt: bool)
    requires
        sysvar_rate(key@, data@) is Some,
        price_in_range(sysvar_rate(key@, data@)->Some_0, data_len),
    ensures
        exempt == rent_exempt(data@, balance, data_len),
{
    let key = ProgramKey::from(*key);
    let (mut lamports, mut content) = (0u64, data.to_vec());
    let info = AccountInfo::new(&key, false, false, &mut lamports, &mut content, &key, false, 0);
    match Rent::from_account_info(&info) {
        Ok(rent) => rent.is_exempt(balance, data_len),
        Err(_) => false,
    }
}

/// Whether the size of an account of `data_len` bytes, overhead included,
/// and its yearly price at `rate` both fit in 64 bits.
pub fn is_price_in_range(rate: u64, data_len: usize) -> (fits: bool)
    ensures
        fits == price_in_range(rate, data_len),
{
    if data_len as u64 > u64::MAX - ACCOUNT_STORAGE_OVERHEAD {
        return false;
    }
    let size: u64 = ACCOUNT_STORAGE_OVERHEAD + data_len as u64;
    if rate == 0 {
        assert(size * rate == 0) by (nonlinear_arith)
            requires
                rate == 0,
        ;
        return true;
    }
    let limit: u64 = u64::MAX / rate;
    assert((size <= limit) == (size * rate <= u64::MAX)) by (nonlinear_arith)
        requires
            rate > 0,
            limit == u64::MAX / rate,
    ;
    size <= limit
}

/// Asks the oracle whether `balance` exempts an account of `data_len` bytes
/// from rent.
pub fn ask_rent_oracle(oracle: &Account, balance: u64, data_len: usize) -> (r: Result<
    bool,
    EscrowError,
>)
    ensures
        r == rent_verdict(oracle@, balance, data_len),
{
    match read_rent_rate(&oracle.key, oracle.data.as_slice()) {
        None => Err(EscrowError::InvalidRentAccount),
        Some(rate) => {
            if !is_price_in_range(rate, data_len) {
                Err(EscrowError::RentOutOfRange)
            } else {
                Ok(is_rent_exempt(&oracle.key, oracle.data.as_slice(), balance, data_len))
            }
        },
    }
}

} // verus!
