//! The transition that opens an escrow.
//!
//! A call names its accounts by position:
//!
//! 0. the initializer, who has to sign;
//! 1. the token account that holds the deposit;
//! 2. the token account of the initializer that is to receive the payment;
//! 3. the escrow slot, 105 bytes that hold no escrow yet;
//! 4. the rent sysvar;
//! 5. the token program.
//!
//! An accepted call writes the record into the slot and returns the call
//! that hands the deposit account to the authority of the program. Whoever
//! runs the program dispatches that call and reports how it ended to
//! [`Processor::conclude`]. A call that is turned down changes nothing.
//!
//! Two things come from outside: what the rent oracle says of the slot, and
//! the authority of the program. [`Processor::process_init_escrow`] asks for
//! both and hands them to [`Processor::open_escrow`], which decides.

use crate::account::Account;
use crate::authority::{derive_authority, escrow_authority};
use crate::error::EscrowError;
use crate::instruction::EscrowInstruction;
use crate::ledger::{
    optional_key_view, set_authority, set_authority_call, token_program_id, AuthorityKind,
    LedgerCall, LedgerCallView, INCORRECT_PROGRAM_ID, TOKEN_PROGRAM_ID,
};
use crate::pubkey::{same_key, Pubkey};
use crate::rent::{ask_rent_oracle, rent_verdict, RENT_SYSVAR_ID};
use crate::state::{lemma_decode_encode, Escrow, EscrowRecord};
use vstd::prelude::*;

verus! {

/// Position of the initializer in the account list.
pub const INITIALIZER: usize = 0;

/// Position of the account that holds the deposit.
pub const DEPOSIT: usize = 1;

/// Position of the account that is to receive the payment.
pub const RECEIVER: usize = 2;

/// Position of the escrow slot.
pub const SLOT: usize = 3;

/// Position of the rent sysvar.
pub const RENT: usize = 4;

/// Position of the token program.
pub const TOKEN_PROGRAM: usize = 5;

/// What is left to do once a call is accepted: a call to the token program,
/// and the accounts that go with it.
#[derive(Clone, Debug, PartialEq, Eq)]
pub struct Handover {
    pub call: LedgerCall,
    /// The positions in the account list of the accounts that the call is
    /// dispatched with, in order.
    pub accounts: Vec<usize>,
}

/// A handover as a mathematical value.
pub struct HandoverView {
    pub call: LedgerCallView,
    pub accounts: Seq<usize>,
}

impl View for Handover {
    type V = HandoverView;

    open spec fn view(&self) -> HandoverView {
        HandoverView { call: self.call@, accounts: self.accounts@ }
    }
}

/// What an accepted call does: the record that the escrow slot holds
/// afterwards, and the handover that remains.
pub struct Transition {
    pub record: EscrowRecord,
    pub handover: HandoverView,
}

pub struct Processor;

impl Processor {
    /// What opening an escrow for `amount` does on these accounts, or why it
    /// is turned down, given what the rent oracle says of the escrow slot
    /// and which authority the program has. The checks come in this order,
    /// and the first that fails decides.
    pub open spec fn init_escrow(
        accounts: Seq<Account>,
        amount: u64,
        rent: Result<bool, EscrowError>,
        authority: Option<Seq<u8>>,
    ) -> Result<Transition, EscrowError> {
        let found = EscrowRecord::decode_exact(accounts[SLOT as int].data@);
        if accounts.len() <= INITIALIZER {
            Err(EscrowError::NotEnoughAccounts)
        } else if !accounts[INITIALIZER as int].is_signer {
            Err(EscrowError::MissingSignature)
        } else if accounts.len() <= RECEIVER {
            Err(EscrowError::NotEnoughAccounts)
        } else if accounts[RECEIVER as int].owner@ != TOKEN_PROGRAM_ID@ {
            Err(EscrowError::WrongOwner)
        } else if accounts.len() <= RENT {
            Err(EscrowError::NotEnoughAccounts)
        } else if rent is Err {
            Err(rent->Err_0)
        } else if !rent->Ok_0 {
            Err(EscrowError::NotRentExempt)
        } else if found is Err {
            Err(found->Err_0)
        } else if found->Ok_0.is_initialized {
            Err(EscrowError::AlreadyInitialized)
        } else if authority is None {
            Err(EscrowError::NoAuthority)
        } else if accounts.len() <= TOKEN_PROGRAM {
            Err(EscrowError::NotEnoughAccounts)
        } else if accounts[TOKEN_PROGRAM as int].key@ != TOKEN_PROGRAM_ID@ {
            Err(EscrowError::Ledger(INCORRECT_PROGRAM_ID))
        } else {
            Ok(
                Transition {
                    record: EscrowRecord {
                        is_initialized: true,
                        initializer: accounts[INITIALIZER as int].key@,
                        deposit_account: accounts[DEPOSIT as int].key@,
                        receive_account: accounts[RECEIVER as int].key@,
                        expected_amount: amount,
                    },
                    handover: HandoverView {
                        call: set_authority_call(
                            accounts[TOKEN_PROGRAM as int].key@,
                            accounts[DEPOSIT as int].key@,
                            authority,
                            AuthorityKind::AccountOwner,
                            accounts[INITIALIZER as int].key@,
                            accounts[INITIALIZER as int].key@,
                        ),
                        accounts: seq![DEPOSIT, INITIALIZER, TOKEN_PROGRAM],
                    },
                },
            )
        }
    }

    /// What the rent oracle of a call says of its escrow slot. A call too
    /// short to name an oracle has no verdict.
    pub open spec fn slot_rent(accounts: Seq<Account>) -> Result<bool, EscrowError> {
        if accounts.len() <= RENT {
            Err(EscrowError::NotEnoughAccounts)
        } else {
            rent_verdict(
                accounts[RENT as int]@,
                accounts[SLOT as int].lamports,
                accounts[SLOT as int].data@.len() as usize,
            )
        }
    }

    /// What a request does on these accounts under the program
    /// `program_id`, or why it is turned down.
    pub open spec fn outcome(
        program_id: Seq<u8>,
        accounts: Seq<Account>,
        instruction_data: Seq<u8>,
    ) -> Result<Transition, EscrowError> {
        match EscrowInstruction::decode(instruction_data) {
            Err(e) => Err(e),
            Ok(EscrowInstruction::InitEscrow { amount }) => Self::init_escrow(
                accounts,
                amount,
                Self::slot_rent(accounts),
                escrow_authority(program_id),
            ),
        }
    }

    /// `after` is `before` with `record` written into the escrow slot and
    /// nothing else changed.
    pub open spec fn stored(before: Seq<Account>, after: Seq<Account>, record: EscrowRecord) -> bool {
        &&& before.len() > SLOT
        &&& after.len() == before.len()
        &&& forall|i: int| 0 <= i < before.len() && i != SLOT ==> after[i] == before[i]
        &&& after[SLOT as int]@ == before[SLOT as int]@.with_data(record.encode())
    }

    /// `r` and `after` are what `expected` asks for: the transition carried
    /// out on `before`, or the failure with `before` left as it was.
    pub open spec fn carried_out(
        expected: Result<Transition, EscrowError>,
        before: Vec<Account>,
        after: Vec<Account>,
        r: Result<Handover, EscrowError>,
    ) -> bool {
        match r {
            Ok(handover) => {
                &&& expected is Ok
                &&& handover@ == expected->Ok_0.handover
                &&& Self::stored(before@, after@, expected->Ok_0.record)
            },
            Err(e) => expected == Err::<Transition, EscrowError>(e) && after == before,
        }
    }

    /// Takes a request: decodes it and carries it out on the accounts.
    pub fn process(program_id: &Pubkey, accounts: &mut Vec<Account>, instruction_data: &[u8]) -> (r:
        Result<Handover, EscrowError>)
        ensures
            Self::carried_out(
                Self::outcome(program_id@, old(accounts)@, instruction_data@),
                *old(accounts),
                *final(accounts),
                r,
            ),
    {
        let instruction = match EscrowInstruction::unpack(instruction_data) {
            Ok(instruction) => instruction,
            Err(e) => {
                return Err(e);
            },
        };
        match instruction {
            EscrowInstruction::InitEscrow { amount } => Self::process_init_escrow(
                accounts,
                amount,
                program_id,
            ),
        }
    }

    /// Opens an escrow that asks for `amount`: asks the rent oracle about
    /// the slot, derives the authority of the program, and decides.
    pub fn process_init_escrow(accounts: &mut Vec<Account>, amount: u64, program_id: &Pubkey) -> (r:
        Result<Handover, EscrowError>)
        ensures
            Self::carried_out(
                Self::init_escrow(
                    old(accounts)@,
                    amount,
                    Self::slot_rent(old(accounts)@),
                    escrow_authority(program_id@),
                ),
                *old(accounts),
                *final(accounts),
                r,
            ),
    {
        let rent = Self::ask_slot_rent(accounts);
        let authority = match derive_authority(program_id) {
            Some((authority, _)) => Some(authority),
            None => None,
        };
        Self::open_escrow(accounts, amount, rent, authority)
    }

    /// Asks the rent oracle of a call about its escrow slot.
    pub fn ask_slot_rent(accounts: &Vec<Account>) -> (rent: Result<bool, EscrowError>)
        ensures
            rent == Self::slot_rent(accounts@),
    {
        if accounts.len() <= RENT {
            return Err(EscrowError::NotEnoughAccounts);
        }
        ask_rent_oracle(&accounts[RENT], accounts[SLOT].lamports, accounts[SLOT].data.len())
    }

    /// Opens an escrow that asks for `amount`, given what the rent oracle
    /// says of the slot and which authority the program has.
    pub fn open_escrow(
        accounts: &mut Vec<Account>,
        amount: u64,
        rent: Result<bool, EscrowError>,
        authority: Option<Pubkey>,
    ) -> (r: Result<Handover, EscrowError>)
        ensures
            Self::carried_out(
                Self::init_escrow(old(accounts)@, amount, rent, optional_key_view(authority)),
                *old(accounts),
                *final(accounts),
                r,
            ),
    {
        if accounts.len() <= INITIALIZER {
            return Err(EscrowError::NotEnoughAccounts);
        }
        // the initializer of the escrow has to sign the call
        if !accounts[INITIALIZER].is_signer {
            return Err(EscrowError::MissingSignature);
        }
        if accounts.len() <= RECEIVER {
            return Err(EscrowError::NotEnoughAccounts);
        }
        // the receiving account has to be a token account
        let token_program = token_program_id();
        if !same_key(&accounts[RECEIVER].owner, &token_program) {
            return Err(EscrowError::WrongOwner);
        }
        if accounts.len() <= RENT {
            return Err(EscrowError::NotEnoughAccounts);
        }
        match rent {
            Err(e) => {
                return Err(e);
            },
            Ok(false) => {
                return Err(EscrowError::NotRentExempt);
            },
            Ok(true) => {},
        }
        let found = match Escrow::unpack_unchecked(accounts[SLOT].data.as_slice()) {
            Ok(found) => found,
            Err(e) => {
                return Err(e);
            },
        };
        if found.is_initialized() {
            return Err(EscrowError::AlreadyInitialized);
        }
        let record = Escrow {
            is_initialized: true,
            initializer_pubkey: accounts[INITIALIZER].key,
            temp_token_account_pubkey: accounts[DEPOSIT].key,
            initializer_token_to_receive_account_pubkey: accounts[RECEIVER].key,
            expected_amount: amount,
        };
        let authority = match authority {
            Some(authority) => authority,
            None => {
                return Err(EscrowError::NoAuthority);
            },
        };
        if accounts.len() <= TOKEN_PROGRAM {
            return Err(EscrowError::NotEnoughAccounts);
        }
        let call = match set_authority(
            &accounts[TOKEN_PROGRAM].key,
            &accounts[DEPOSIT].key,
            Some(authority),
            AuthorityKind::AccountOwner,
            &accounts[INITIALIZER].key,
            &accounts[INITIALIZER].key,
        ) {
            Ok(call) => call,
            Err(code) => {
                return Err(EscrowError::Ledger(code));
            },
        };
        let _ = Escrow::pack(record, accounts[SLOT].data.as_mut_slice());
        let mut positions: Vec<usize> = Vec::new();
        positions.push(DEPOSIT);
        positions.push(INITIALIZER);
        positions.push(TOKEN_PROGRAM);
        assert(positions@ =~= seq![DEPOSIT, INITIALIZER, TOKEN_PROGRAM]);
        Ok(Handover { call, accounts: positions })
    }

    /// Ends a transition once the handover was dispatched: the transition
    /// succeeds if the token program did, and fails as the token program did.
    pub fn conclude(dispatched: Result<(), u64>) -> (r: Result<(), EscrowError>)
        ensures
            dispatched is Ok ==> r is Ok,
            dispatched is Err ==> r == Err::<(), EscrowError>(
                EscrowError::Ledger(dispatched->Err_0),
            ),
    {
        match dispatched {
            Ok(()) => Ok(()),
            Err(code) => Err(EscrowError::Ledger(code)),
        }
    }
}

/// No escrow is opened on a slot that holds one already: whatever else the
/// call brings, it is turned down.
pub proof fn lemma_initialized_slot_is_never_reopened(
    accounts: Seq<Account>,
    amount: u64,
    rent: Result<bool, EscrowError>,
    authority: Option<Seq<u8>>,
)
    requires
        accounts.len() > SLOT,
        EscrowRecord::decode_exact(accounts[SLOT as int].data@) is Ok,
        EscrowRecord::decode_exact(accounts[SLOT as int].data@)->Ok_0.is_initialized,
    ensures
        Processor::init_escrow(accounts, amount, rent, authority) is Err,
{
}

/// A call that passes the checks on signature, owner and rent, on a slot
/// that holds an escrow already, fails because of that.
pub proof fn lemma_initialized_slot_fails_as_already_initialized(
    accounts: Seq<Account>,
    amount: u64,
    authority: Option<Seq<u8>>,
)
    requires
        accounts.len() > RENT,
        accounts[INITIALIZER as int].is_signer,
        accounts[RECEIVER as int].owner@ == TOKEN_PROGRAM_ID@,
        EscrowRecord::decode_exact(accounts[SLOT as int].data@) is Ok,
        EscrowRecord::decode_exact(accounts[SLOT as int].data@)->Ok_0.is_initialized,
    ensures
        Processor::init_escrow(accounts, amount, Ok(true), authority) == Err::<
            Transition,
            EscrowError,
        >(EscrowError::AlreadyInitialized),
{
}

/// A call that the initializer did not sign fails for want of the signature.
pub proof fn lemma_unsigned_call_fails_as_missing_signature(
    accounts: Seq<Account>,
    amount: u64,
    rent: Result<bool, EscrowError>,
    authority: Option<Seq<u8>>,
)
    requires
        accounts.len() > INITIALIZER,
        !accounts[INITIALIZER as int].is_signer,
    ensures
        Processor::init_escrow(accounts, amount, rent, authority) == Err::<Transition, EscrowError>(
            EscrowError::MissingSignature,
        ),
{
}

/// A signed call whose receiving account belongs to another program than the
/// token program fails because of the owner.
pub proof fn lemma_foreign_receiver_fails_as_wrong_owner(
    accounts: Seq<Account>,
    amount: u64,
    rent: Result<bool, EscrowError>,
    authority: Option<Seq<u8>>,
)
    requires
        accounts.len() > RECEIVER,
        accounts[INITIALIZER as int].is_signer,
        accounts[RECEIVER as int].owner@ != TOKEN_PROGRAM_ID@,
    ensures
        Processor::init_escrow(accounts, amount, rent, authority) == Err::<Transition, EscrowError>(
            EscrowError::WrongOwner,
        ),
{
}

/// A call that passes the checks on signature and owner, on a slot whose
/// balance the rent oracle finds too small, fails because of the rent.
pub proof fn lemma_underfunded_slot_fails_as_not_rent_exempt(
    accounts: Seq<Account>,
    amount: u64,
    authority: Option<Seq<u8>>,
)
    requires
        accounts.len() > RENT,
        accounts[INITIALIZER as int].is_signer,
        accounts[RECEIVER as int].owner@ == TOKEN_PROGRAM_ID@,
    ensures
        Processor::init_escrow(accounts, amount, Ok(false), authority) == Err::<
            Transition,
            EscrowError,
        >(EscrowError::NotRentExempt),
{
}

/// A call that names another account than the rent sysvar as its oracle has
/// no verdict on its slot.
pub proof fn lemma_foreign_oracle_has_no_verdict(accounts: Seq<Account>)
    requires
        accounts.len() > RENT,
        accounts[RENT as int].key@ != RENT_SYSVAR_ID@,
    ensures
        Processor::slot_rent(accounts) == Err::<bool, EscrowError>(
            EscrowError::InvalidRentAccount,
        ),
{
}

/// A call is accepted exactly if six accounts are there, the initializer
/// signed, the receiving account belongs to the token program, the rent
/// oracle finds the slot exempt, the slot has 105 bytes and holds no escrow,
/// the program has an authority, and the sixth account is the token program.
pub proof fn lemma_accepted_calls(
    accounts: Seq<Account>,
    amount: u64,
    rent: Result<bool, EscrowError>,
    authority: Option<Seq<u8>>,
)
    ensures
        Processor::init_escrow(accounts, amount, rent, authority) is Ok <==> {
            &&& accounts.len() > TOKEN_PROGRAM
            &&& accounts[INITIALIZER as int].is_signer
            &&& accounts[RECEIVER as int].owner@ == TOKEN_PROGRAM_ID@
            &&& rent == Ok::<bool, EscrowError>(true)
            &&& accounts[SLOT as int].data@.len() == 105
            &&& accounts[SLOT as int].data@[0] == 0
            &&& authority is Some
            &&& accounts[TOKEN_PROGRAM as int].key@ == TOKEN_PROGRAM_ID@
        },
{
}

/// On accounts with `record` stored, the slot reads back as `record` and
/// everything else is as before.
pub proof fn lemma_stored_record_reads_back(
    before: Seq<Account>,
    after: Seq<Account>,
    record: EscrowRecord,
)
    requires
        record.valid(),
        Processor::stored(before, after, record),
    ensures
        after.len() == before.len(),
        forall|i: int| 0 <= i < before.len() && i != SLOT ==> after[i] == before[i],
        after[SLOT as int]@ == before[SLOT as int]@.with_data(record.encode()),
        EscrowRecord::decode_exact(after[SLOT as int].data@) == Ok::<EscrowRecord, EscrowError>(
            record,
        ),
{
    lemma_decode_encode(record);
}

/// The record that an accepted call stores names the first three accounts of
/// the call and the amount asked, and reads back from the slot as stored.
pub proof fn lemma_accepted_call_stores_its_record(
    before: Seq<Account>,
    after: Seq<Account>,
    amount: u64,
    rent: Result<bool, EscrowError>,
    authority: Option<Seq<u8>>,
)
    requires
        Processor::init_escrow(before, amount, rent, authority) is Ok,
        Processor::stored(
            before,
            after,
            Processor::init_escrow(before, amount, rent, authority)->Ok_0.record,
        ),
    ensures
        EscrowRecord::decode_exact(after[SLOT as int].data@) == Ok::<EscrowRecord, EscrowError>(
            (EscrowRecord {
                is_initialized: true,
                initializer: before[INITIALIZER as int].key@,
                deposit_account: before[DEPOSIT as int].key@,
                receive_account: before[RECEIVER as int].key@,
                expected_amount: amount,
            }),
        ),
{
    let record = Processor::init_escrow(before, amount, rent, authority)->Ok_0.record;
    lemma_stored_record_reads_back(before, after, record);
}

/// An escrow is opened once: on the accounts as an accepted call left them,
/// no second call is accepted, and one that finds the slot exempt from rent
/// as the first did fails because the slot holds an escrow.
pub proof fn lemma_accepted_call_is_not_repeated(
    before: Seq<Account>,
    after: Seq<Account>,
    amount: u64,
    rent: Result<bool, EscrowError>,
    authority: Option<Seq<u8>>,
    again: u64,
    rent_again: Result<bool, EscrowError>,
    authority_again: Option<Seq<u8>>,
)
    requires
        Processor::init_escrow(before, amount, rent, authority) is Ok,
        Processor::stored(
            before,
            after,
            Processor::init_escrow(before, amount, rent, authority)->Ok_0.record,
        ),
    ensures
        Processor::init_escrow(after, again, rent_again, authority_again) is Err,
        rent_again == Ok::<bool, EscrowError>(true) ==> Processor::init_escrow(
            after,
            again,
            rent_again,
            authority_again,
        ) == Err::<Transition, EscrowError>(EscrowError::AlreadyInitialized),
{
    let record = Processor::init_escrow(before, amount, rent, authority)->Ok_0.record;
    lemma_stored_record_reads_back(before, after, record);
    lemma_initialized_slot_is_never_reopened(after, again, rent_again, authority_again);
    if rent_again == Ok::<bool, EscrowError>(true) {
        lemma_initialized_slot_fails_as_already_initialized(after, again, authority_again);
    }
}

} // verus!
