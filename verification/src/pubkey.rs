//! Identities: 32-byte keys of accounts, parties and programs.

use vstd::prelude::*;

verus! {

/// The identity of an account, a party or a program.
pub type Pubkey = [u8; 32];

/// Whether two identities are the same.
pub fn same_key(a: &Pubkey, b: &Pubkey) -> (same: bool)
    ensures
        same == (a@ == b@),
{
    let mut i: usize = 0;
    while i < 32
        invariant
            i <= 32,
            forall|j: int| 0 <= j < i ==> a@[j] == b@[j],
        decreases 32 - i,
    {
        if a[i] != b[i] {
            return false;
        }
        i += 1;
    }
    assert(a@ =~= b@);
    true
}

/// Reads the identity stored at `at`.
pub fn read_key(src: &[u8], at: usize) -> (key: Pubkey)
    requires
        at + 32 <= src@.len(),
    ensures
        key@ == src@.subrange(at as int, at + 32),
{
    let mut key: Pubkey = [0u8; 32];
    let mut i: usize = 0;
    assert(src@.len() == src.len());
    while i < 32
        invariant
            i <= 32,
            at + 32 <= src@.len() <= usize::MAX,
            forall|j: int| 0 <= j < i ==> key@[j] == src@[at + j],
        decreases 32 - i,
    {
        key[i] = src[at + i];
        i += 1;
    }
    key
}

/// Stores `key` in the 32 bytes at `at` and leaves the others alone.
pub fn write_key(dst: &mut [u8], at: usize, key: &Pubkey)
    requires
        at + 32 <= old(dst)@.len(),
    ensures
        final(dst)@ == old(dst)@.subrange(0, at as int) + key@ + old(dst)@.subrange(
            at + 32,
            old(dst)@.len() as int,
        ),
{
    let mut i: usize = 0;
    assert(dst@.len() == dst.len());
    while i < 32
        invariant
            i <= 32,
            dst@.len() == old(dst)@.len(),
            at + 32 <= dst@.len() <= usize::MAX,
            forall|j: int| 0 <= j < i ==> dst@[at + j] == key@[j],
            forall|j: int| 0 <= j < at || at + i <= j < dst@.len() ==> dst@[j] == old(dst)@[j],
        decreases 32 - i,
    {
        dst[at + i] = key[i];
        i += 1;
    }
    assert(dst@ =~= old(dst)@.subrange(0, at as int) + key@ + old(dst)@.subrange(
        at + 32,
        old(dst)@.len() as int,
    ));
}

} // verus!
