//! The token program: its identity, and the call that hands an account or a
//! mint to a new authority.

use crate::pubkey::Pubkey;
use solana_program::pubkey::Pubkey as ProgramKey;
use spl_token::instruction::set_authority as set_authority_instruction;
use spl_token::instruction::AuthorityType;
use vstd::prelude::*;

verus! {

/// The identity of the token program,
/// `TokenkegQfeZyiNwAJbNbGKPFXCWuBvf9Ss623VQ5DA`.
pub const TOKEN_PROGRAM_ID: Pubkey = [
    6, 221, 246, 225, 215, 101, 161, 147, 217, 203, 225, 70, 206, 235, 121, 172,
    28, 180, 133, 237, 95, 91, 55, 145, 58, 140, 245, 133, 126, 255, 0, 169,
];

/// The code of the failure "the account did not have the expected program
/// id".
pub const INCORRECT_PROGRAM_ID: u64 = 0x7_0000_0000;

/// Which authority of a mint or an account a call changes.
#[derive(Clone, Copy, Debug, PartialEq, Eq, Structural)]
pub enum AuthorityKind {
    /// May mint new tokens.
    MintTokens,
    /// May freeze the accounts of a mint.
    FreezeAccount,
    /// Owns a token account.
    AccountOwner,
    /// May close a token account.
    CloseAccount,
}

impl AuthorityKind {
    /// The byte that stands for the kind in a call.
    pub open spec fn tag(self) -> u8 {
        match self {
            AuthorityKind::MintTokens => 0,
            AuthorityKind::FreezeAccount => 1,
            AuthorityKind::AccountOwner => 2,
            AuthorityKind::CloseAccount => 3,
        }
    }
}

/// An account as a call to another program names it.
#[derive(Clone, Copy, Debug, PartialEq, Eq)]
pub struct AccountRef {
    pub key: Pubkey,
    /// Whether the call needs the signature of the account's key.
    pub is_signer: bool,
    /// Whether the called program may change the account.
    pub is_writable: bool,
}

/// An account reference as a mathematical value.
pub struct AccountRefView {
    pub key: Seq<u8>,
    pub is_signer: bool,
    pub is_writable: bool,
}

impl View for AccountRef {
    type V = AccountRefView;

    open spec fn view(&self) -> AccountRefView {
        AccountRefView { key: self.key@, is_signer: self.is_signer, is_writable: self.is_writable }
    }
}

/// A call to another program: the program, the accounts it is to work on,
/// and the request bytes.
#[derive(Clone, Debug, PartialEq, Eq)]
pub struct LedgerCall {
    pub program_id: Pubkey,
    pub accounts: Vec<AccountRef>,
    pub data: Vec<u8>,
}

/// A call as a mathematical value.
pub struct LedgerCallView {
    pub program_id: Seq<u8>,
    pub accounts: Seq<AccountRefView>,
    pub data: Seq<u8>,
}

impl View for LedgerCall {
    type V = LedgerCallView;

    open spec fn view(&self) -> LedgerCallView {
        LedgerCallView {
            program_id: self.program_id@,
            accounts: self.accounts@.map_values(|a: AccountRef| a@),
            data: self.data@,
        }
    }
}

/// The call that asks the token program to give `owned` a new authority of
/// the given kind, or none, on the signature of one signer.
///
/// The first account is `owned`, writable. The second is the present
/// authority `owner`, the third the signer; neither is writable, and only the
/// third has to sign. The request is the tag 6, the kind, and the new
/// authority: a byte 1 and the key, or a byte 0 for none.
pub open spec fn set_authority_call(
    token_program: Seq<u8>,
    owned: Seq<u8>,
    new_authority: Option<Seq<u8>>,
    kind: AuthorityKind,
    owner: Seq<u8>,
    signer: Seq<u8>,
) -> LedgerCallView {
    LedgerCallView {
        program_id: token_program,
        accounts: seq![
            AccountRefView { key: owned, is_signer: false, is_writable: true },
            AccountRefView { key: owner, is_signer: false, is_writable: false },
            AccountRefView { key: signer, is_signer: true, is_writable: false },
        ],
        data: seq![6u8, kind.tag()] + match new_authority {
            Some(key) => seq![1u8] + key,
            None => seq![0u8],
        },
    }
}

/// The bytes of a key that may be absent.
pub open spec fn optional_key_view(key: Option<Pubkey>) -> Option<Seq<u8>> {
    match key {
        Some(key) => Some(key@),
        None => None,
    }
}

/// The identity of the token program, from `spl_token::id`, which returns
/// the key that the crate declares for itself.
#[verifier::external_body]
pub(crate) fn token_program_id() -> (id: Pubkey)
    ensures
        id@ == TOKEN_PROGRAM_ID@,
{
    spl_token::id().to_bytes()
}

/// Builds a call with `spl_token::instruction::set_authority`, naming one
/// signer.
///
/// That function refuses any program but the token program with the failure
/// `IncorrectProgramId`, and otherwise lays the call out as
/// [`set_authority_call`] says. The failure comes back as its code.
#[verifier::external_body]
pub(crate) fn set_authority(
    token_program: &Pubkey,
    owned: &Pubkey,
    new_authority: Option<Pubkey>,
    kind: AuthorityKind,
    owner: &Pubkey,
    signer: &Pubkey,
) -> (r: Result<LedgerCall, u64>)
    ensures
        token_program@ != TOKEN_PROGRAM_ID@ ==> r is Err && r->Err_0 == INCORRECT_PROGRAM_ID,
        token_program@ == TOKEN_PROGRAM_ID@ ==> r is Ok && r->Ok_0@ == set_authority_call(
            token_program@,
            owned@,
            optional_key_view(new_authority),
            kind,
            owner@,
            signer@,
        ),
{
    let outside_kind = match kind {
        AuthorityKind::MintTokens => AuthorityType::MintTokens,
        AuthorityKind::FreezeAccount => AuthorityType::FreezeAccount,
        AuthorityKind::AccountOwner => AuthorityType::AccountOwner,
        AuthorityKind::CloseAccount => AuthorityType::CloseAccount,
    };
    let ix = set_authority_instruction(
        &ProgramKey::from(*token_program), &ProgramKey::from(*owned),
        new_authority.map(ProgramKey::from).as_ref(), outside_kind,
        &ProgramKey::from(*owner), &[&ProgramKey::from(*signer)],
    ).map_err(u64::from)?;
    let accounts = ix.accounts.iter().map(|m| {
        AccountRef { key: m.pubkey.to_bytes(), is_signer: m.is_signer, is_writable: m.is_writable }
    }).collect();
    Ok(LedgerCall { program_id: ix.program_id.to_bytes(), accounts, data: ix.data })
}

} // verus!
