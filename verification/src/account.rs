//! The accounts that come with a call.

use crate::pubkey::Pubkey;
use vstd::prelude::*;

verus! {

/// One account of a call, as the program sees it.
#[derive(Clone, Debug, PartialEq, Eq)]
pub struct Account {
    /// The account's identity.
    pub key: Pubkey,
    /// Whether the holder of the key signed the call.
    pub is_signer: bool,
    /// The program that the account belongs to.
    pub owner: Pubkey,
    /// The account's balance in lamports.
    pub lamports: u64,
    /// What the account stores.
    pub data: Vec<u8>,
}

/// An account as a mathematical value.
pub struct AccountView {
    pub key: Seq<u8>,
    pub is_signer: bool,
    pub owner: Seq<u8>,
    pub lamports: u64,
    pub data: Seq<u8>,
}

impl View for Account {
    type V = AccountView;

    open spec fn view(&self) -> AccountView {
        AccountView {
            key: self.key@,
            is_signer: self.is_signer,
            owner: self.owner@,
            lamports: self.lamports,
            data: self.data@,
        }
    }
}

impl AccountView {
    /// The account with other content.
    pub open spec fn with_data(self, data: Seq<u8>) -> AccountView {
        AccountView {
            key: self.key,
            is_signer: self.is_signer,
            owner: self.owner,
            lamports: self.lamports,
            data,
        }
    }
}

} // verus!
