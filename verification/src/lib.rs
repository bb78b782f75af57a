//! A two-party token escrow.
//!
//! The initializer locks tokens of one kind and names how many tokens of
//! another kind are to come in return. The program records this in an escrow
//! slot and hands the account that holds the locked tokens to an authority
//! of its own, until a taker completes the trade.
//!
//! - [`state`] holds the record and its layout in the slot;
//! - [`instruction`] decodes the requests;
//! - [`processor`] decides what a request does on the accounts of a call;
//! - [`rent`], [`authority`] and [`ledger`] stand for what the program asks
//!   of others: whether a slot is exempt from rent, which authority the
//!   program has, and how the token program is told to change an authority;
//! - [`account`], [`pubkey`], [`little_endian`] and [`error`] hold the
//!   values that the others share.

pub mod account;
pub mod authority;
pub mod error;
pub mod instruction;
pub mod ledger;
pub mod little_endian;
pub mod processor;
pub mod pubkey;
pub mod rent;
pub mod state;
