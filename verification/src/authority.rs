//! The authority that holds a deposit while an escrow is open: an identity
//! derived from the program's own, to which no private key belongs.

use crate::pubkey::Pubkey;
use solana_program::pubkey::Pubkey as ProgramKey;
use vstd::prelude::*;

verus! {

/// The address and the bump seed that one seed and a program's identity
/// derive; `None` if they derive none.
pub uninterp spec fn program_address(seed: Seq<u8>, program_id: Seq<u8>) -> Option<(Seq<u8>, u8)>;

/// The seed of the escrow authority, the word `escrow`.
pub open spec fn authority_seed() -> Seq<u8> {
    seq![101u8, 115u8, 99u8, 114u8, 111u8, 119u8]
}

/// The authority that holds the deposits of the program `program_id`.
pub open spec fn escrow_authority(program_id: Seq<u8>) -> Option<Seq<u8>> {
    match program_address(authority_seed(), program_id) {
        Some((address, _)) => Some(address),
        None => None,
    }
}

/// The bump seed that proves the authority of the program `program_id`:
/// whoever derives with it arrives at the same address.
pub open spec fn escrow_authority_bump(program_id: Seq<u8>) -> Option<u8> {
    match program_address(authority_seed(), program_id) {
        Some((_, bump)) => Some(bump),
        None => None,
    }
}

/// Derives an address from one seed with
/// `Pubkey::try_find_program_address`, which tries the bump seeds from 255
/// down and returns the first address that no private key can have, with its
/// bump seed.
#[verifier::external_body]
fn find_program_address(seed: &[u8], program_id: &Pubkey) -> (found: Option<(Pubkey, u8)>)
    ensures
        found is Some ==> program_address(seed@, program_id@) == Some(
            (found->Some_0.0@, found->Some_0.1),
        ),
        found is None ==> program_address(seed@, program_id@) is None,
{
    match ProgramKey::try_find_program_address(&[seed], &ProgramKey::from(*program_id)) {
        Some((address, bump)) => Some((address.to_bytes(), bump)),
        None => None,
    }
}

/// The authority that holds the deposits of the program `program_id`, and
/// the bump seed that proves it. The authority is a value: it is derived
/// anew wherever it is needed and stored nowhere.
pub fn derive_authority(program_id: &Pubkey) -> (authority: Option<(Pubkey, u8)>)
    ensures
        authority is Some ==> escrow_authority(program_id@) == Some(authority->Some_0.0@)
            && escrow_authority_bump(program_id@) == Some(authority->Some_0.1),
        authority is None ==> escrow_authority(program_id@) is None,
{
    let seed: [u8; 6] = [101, 115, 99, 114, 111, 119];
    find_program_address(seed.as_slice(), program_id)
}

} // verus!
