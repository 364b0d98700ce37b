//! Verified core of a liquid-staking pool program.
//!
//! An instruction is decided here and carried out elsewhere: from the
//! accounts as they stand and the instruction data, `process_instruction`
//! either refuses the instruction or returns the steps to take, in order.
//! The caller performs the steps; if one fails, the whole instruction fails.
use vstd::prelude::*;

pub mod account;
pub mod action;
pub mod bytes;
pub mod errors;
pub mod exchange;
pub mod instructions;
pub mod pubkey;
pub mod rent;
pub mod state;

use crate::account::{AccountInfo, STAKE_STATE_DELEGATED, STAKE_STATE_UNINITIALIZED};
use crate::action::{outcome_view, plan_view, Action, ActionView};
use crate::bytes::spec_le_u64;
use crate::errors::ProgramError;
use crate::instructions::crank_initialize_reserve::CrankInitializeReserve;
use crate::instructions::crank_merge_reserve::CrankMergeReserve;
use crate::instructions::crank_split::{lemma_minimum_split_fits, CrankSplit};
use crate::instructions::deposit::Deposit;
use crate::instructions::helpers::LAMPORTS_PER_SOL;
use crate::instructions::initialize::Initialize;
use crate::instructions::withdraw::Withdraw;
use crate::pubkey::{associated_token_address, config_address, split_address, Pubkey};
use crate::rent::Rent;

verus! {

/// Address of the pool program.
pub const ID: Pubkey = [
    0x0f, 0x1e, 0x6b, 0x14, 0x21, 0xc0, 0x4a, 0x07, 0x04, 0x31, 0x26, 0x5c, 0x19, 0xc5, 0xbb, 0xee,
    0x19, 0x92, 0xba, 0xe8, 0xaf, 0xd1, 0xcd, 0x07, 0x8e, 0xf8, 0xaf, 0x70, 0x47, 0xdc, 0x11, 0xf7,
];

/// What Initialize does on `accounts`.
pub open spec fn spec_initialize(
    program_id: Seq<u8>,
    accounts: Seq<AccountInfo>,
    rent: Rent,
) -> Result<Seq<ActionView>, ProgramError> {
    match Initialize::spec_try_from(accounts) {
        Err(e) => Err(e),
        Ok(ix) => ix.spec_process(program_id, ix.spec_addresses(program_id), rent),
    }
}

/// What CrankInitializeReserve does on `accounts`.
pub open spec fn spec_crank_initialize_reserve(
    program_id: Seq<u8>,
    accounts: Seq<AccountInfo>,
) -> Result<Seq<ActionView>, ProgramError> {
    match CrankInitializeReserve::spec_try_from(accounts) {
        Err(e) => Err(e),
        Ok(ix) => ix.spec_process(config_address(program_id)),
    }
}

/// What CrankMergeReserve does on `accounts`.
pub open spec fn spec_crank_merge_reserve(
    program_id: Seq<u8>,
    accounts: Seq<AccountInfo>,
) -> Result<Seq<ActionView>, ProgramError> {
    match CrankMergeReserve::spec_try_from(accounts) {
        Err(e) => Err(e),
        Ok(ix) => ix.spec_process(config_address(program_id)),
    }
}

/// What Deposit does on `accounts` with the payload `data`.
pub open spec fn spec_deposit(
    program_id: Seq<u8>,
    accounts: Seq<AccountInfo>,
    data: Seq<u8>,
) -> Result<Seq<ActionView>, ProgramError> {
    match Deposit::spec_try_from(data, accounts) {
        Err(e) => Err(e),
        Ok(ix) => ix.spec_process(
            config_address(program_id),
            associated_token_address(
                ix.accounts.depositor.key@,
                ix.accounts.token_program.key@,
                ix.accounts.lst_mint.key@,
            ),
        ),
    }
}

/// What the first part of CrankSplit does on `accounts` with the payload
/// `data`.
pub open spec fn spec_crank_split(
    program_id: Seq<u8>,
    accounts: Seq<AccountInfo>,
    data: Seq<u8>,
    rent: Rent,
) -> Result<Seq<ActionView>, ProgramError> {
    match CrankSplit::spec_try_from(data, accounts, rent) {
        Err(e) => Err(e),
        Ok(ix) => ix.spec_process(
            config_address(program_id),
            associated_token_address(
                ix.accounts.withdrawer.key@,
                ix.accounts.token_program.key@,
                ix.accounts.lst_mint.key@,
            ),
            split_address(ix.accounts.withdrawer.key@, ix.data.nonce, program_id),
            rent,
        ),
    }
}

/// What Withdraw does on `accounts` with the payload `data`.
pub open spec fn spec_withdraw(
    program_id: Seq<u8>,
    accounts: Seq<AccountInfo>,
    data: Seq<u8>,
) -> Result<Seq<ActionView>, ProgramError> {
    match Withdraw::spec_try_from(data, accounts) {
        Err(e) => Err(e),
        Ok(ix) => ix.spec_process(
            config_address(program_id),
            split_address(ix.accounts.withdrawer.key@, ix.data.nonce, program_id),
        ),
    }
}

/// What the instruction in `instruction_data` does on `accounts`: its first
/// byte selects the operation, the rest is the payload. Without a first byte,
/// or with one that selects nothing, it is `InvalidInstructionData`.
pub open spec fn spec_process_instruction(
    program_id: Seq<u8>,
    accounts: Seq<AccountInfo>,
    instruction_data: Seq<u8>,
    rent: Rent,
) -> Result<Seq<ActionView>, ProgramError> {
    if instruction_data.len() == 0 {
        Err(ProgramError::InvalidInstructionData)
    } else {
        let selector = instruction_data[0];
        let payload = instruction_data.subrange(1, instruction_data.len() as int);
        if selector == 0 {
            spec_initialize(program_id, accounts, rent)
        } else if selector == 1 {
            spec_crank_initialize_reserve(program_id, accounts)
        } else if selector == 2 {
            spec_crank_merge_reserve(program_id, accounts)
        } else if selector == 3 {
            spec_deposit(program_id, accounts, payload)
        } else if selector == 4 {
            spec_crank_split(program_id, accounts, payload, rent)
        } else if selector == 5 {
            spec_withdraw(program_id, accounts, payload)
        } else {
            Err(ProgramError::InvalidInstructionData)
        }
    }
}

/// What remains to do once the steps of the instruction were taken, on the
/// accounts as they are then: for CrankSplit the burn, for the other
/// operations nothing.
pub open spec fn spec_settle_instruction(
    accounts: Seq<AccountInfo>,
    instruction_data: Seq<u8>,
    rent: Rent,
) -> Result<Seq<ActionView>, ProgramError> {
    if instruction_data.len() == 0 || instruction_data[0] > 5 {
        Err(ProgramError::InvalidInstructionData)
    } else if instruction_data[0] != 4 {
        Ok(Seq::empty())
    } else {
        match CrankSplit::spec_try_from(
            instruction_data.subrange(1, instruction_data.len() as int),
            accounts,
            rent,
        ) {
            Err(e) => Err(e),
            Ok(ix) => match ix.spec_settle() {
                Err(e) => Err(e),
                Ok(burn) => Ok(seq![burn]),
            },
        }
    }
}

/// Decides the instruction in `instruction_data` for the pool program
/// `program_id`: refuses it, or returns the steps to take in order.
pub fn process_instruction(
    program_id: &Pubkey,
    accounts: &[AccountInfo],
    instruction_data: &[u8],
    rent: &Rent,
) -> (r: Result<Vec<Action>, ProgramError>)
    ensures
        outcome_view(r) == spec_process_instruction(
            program_id@,
            accounts@,
            instruction_data@,
            *rent,
        ),
{
    if instruction_data.len() == 0 {
        return Err(ProgramError::InvalidInstructionData);
    }
    let selector = instruction_data[0];
    let payload = vstd::slice::slice_subrange(instruction_data, 1, instruction_data.len());
    if selector == Initialize::DISCRIMINATOR {
        Initialize::try_from(accounts)?.process(program_id, rent)
    } else if selector == CrankInitializeReserve::DISCRIMINATOR {
        CrankInitializeReserve::try_from(accounts)?.process(program_id)
    } else if selector == CrankMergeReserve::DISCRIMINATOR {
        CrankMergeReserve::try_from(accounts)?.process(program_id)
    } else if selector == Deposit::DISCRIMINATOR {
        Deposit::try_from(payload, accounts)?.process(program_id)
    } else if selector == CrankSplit::DISCRIMINATOR {
        CrankSplit::try_from(payload, accounts, rent)?.process(program_id, rent)
    } else if selector == Withdraw::DISCRIMINATOR {
        Withdraw::try_from(payload, accounts)?.process(program_id)
    } else {
        Err(ProgramError::InvalidInstructionData)
    }
}

/// Decides what remains to do once the steps of the instruction were taken:
/// `accounts` are the accounts as they are then.
pub fn settle_instruction(accounts: &[AccountInfo], instruction_data: &[u8], rent: &Rent) -> (r:
    Result<Vec<Action>, ProgramError>)
    ensures
        outcome_view(r) == spec_settle_instruction(accounts@, instruction_data@, *rent),
{
    if instruction_data.len() == 0 || instruction_data[0] > Withdraw::DISCRIMINATOR {
        return Err(ProgramError::InvalidInstructionData);
    }
    if instruction_data[0] != CrankSplit::DISCRIMINATOR {
        let plan: Vec<Action> = Vec::new();
        assert(plan_view(&plan) =~= Seq::<ActionView>::empty());
        return Ok(plan);
    }
    let payload = vstd::slice::slice_subrange(instruction_data, 1, instruction_data.len());
    let burn = CrankSplit::try_from(payload, accounts, rent)?.settle()?;
    let plan: Vec<Action> = vec![burn];
    assert(plan_view(&plan) =~= seq![burn@]);
    Ok(plan)
}

/// A Deposit of less than one SOL is refused, whatever the accounts.
pub proof fn lemma_small_deposit_is_refused(
    program_id: Seq<u8>,
    accounts: Seq<AccountInfo>,
    instruction_data: Seq<u8>,
    rent: Rent,
)
    requires
        instruction_data.len() == 9,
        instruction_data[0] == Deposit::DISCRIMINATOR,
        spec_le_u64(instruction_data.subrange(1, 9)) < LAMPORTS_PER_SOL,
    ensures
        spec_process_instruction(program_id, accounts, instruction_data, rent) is Err,
{
}

/// A CrankSplit of less than the rent-exempt minimum of a stake account
/// and one SOL is refused, whatever the accounts.
pub proof fn lemma_small_split_is_refused(
    program_id: Seq<u8>,
    accounts: Seq<AccountInfo>,
    instruction_data: Seq<u8>,
    rent: Rent,
)
    requires
        instruction_data.len() == 17,
        instruction_data[0] == CrankSplit::DISCRIMINATOR,
        spec_le_u64(instruction_data.subrange(1, 17).subrange(0, 8)) < 328
            * rent.lamports_per_byte + LAMPORTS_PER_SOL,
    ensures
        spec_process_instruction(program_id, accounts, instruction_data, rent) is Err,
{
    lemma_minimum_split_fits(rent);
}

/// A CrankSplit into a split stake account that holds data fails: a second
/// split for a withdrawer and a nonce fails while the account of the first
/// exists.
pub proof fn lemma_split_into_existing_account_fails(
    program_id: Seq<u8>,
    accounts: Seq<AccountInfo>,
    instruction_data: Seq<u8>,
    rent: Rent,
)
    requires
        instruction_data.len() > 0,
        instruction_data[0] == CrankSplit::DISCRIMINATOR,
        accounts.len() == 12 ==> accounts[3].data@.len() != 0,
    ensures
        spec_process_instruction(program_id, accounts, instruction_data, rent) is Err,
{
}

/// CrankInitializeReserve fails on a reserve stake account that is not
/// uninitialized, and so on one that is delegated.
pub proof fn lemma_initialize_of_initialized_reserve_fails(
    program_id: Seq<u8>,
    accounts: Seq<AccountInfo>,
    instruction_data: Seq<u8>,
    rent: Rent,
    state: u32,
)
    requires
        instruction_data.len() > 0,
        instruction_data[0] == CrankInitializeReserve::DISCRIMINATOR,
        accounts.len() == 9 ==> accounts[1].spec_stake_state() == Ok::<u32, ProgramError>(state),
        state != STAKE_STATE_UNINITIALIZED,
    ensures
        spec_process_instruction(program_id, accounts, instruction_data, rent) is Err,
{
}

/// CrankMergeReserve fails on a reserve stake account that is not
/// delegated.
pub proof fn lemma_merge_of_undelegated_reserve_fails(
    program_id: Seq<u8>,
    accounts: Seq<AccountInfo>,
    instruction_data: Seq<u8>,
    rent: Rent,
    state: u32,
)
    requires
        instruction_data.len() > 0,
        instruction_data[0] == CrankMergeReserve::DISCRIMINATOR,
        accounts.len() == 7 ==> accounts[2].spec_stake_state() == Ok::<u32, ProgramError>(state),
        state != STAKE_STATE_DELEGATED,
    ensures
        spec_process_instruction(program_id, accounts, instruction_data, rent) is Err,
{
}

/// No reserve stake account lets both cranks through: what
/// CrankInitializeReserve accepts, CrankMergeReserve refuses, and the other
/// way round.
pub proof fn lemma_cranks_exclude_each_other(
    initialize: CrankInitializeReserve,
    merge: CrankMergeReserve,
    initialize_config: Option<(Seq<u8>, u8)>,
    merge_config: Option<(Seq<u8>, u8)>,
)
    requires
        initialize.accounts.stake_account_reserve.data@
            == merge.accounts.stake_account_reserve.data@,
    ensures
        !(initialize.spec_process(initialize_config) is Ok && merge.spec_process(
            merge_config,
        ) is Ok),
{
}

/// Withdraw fails where the account to withdraw from is not at the address
/// derived for the withdrawer and the nonce of the payload.
pub proof fn lemma_withdraw_of_foreign_account_fails(
    program_id: Seq<u8>,
    accounts: Seq<AccountInfo>,
    instruction_data: Seq<u8>,
    rent: Rent,
)
    requires
        instruction_data.len() == 9,
        instruction_data[0] == Withdraw::DISCRIMINATOR,
        accounts.len() == 6 ==> ({
            let derived = split_address(
                accounts[1].key@,
                spec_le_u64(instruction_data.subrange(1, 9)),
                program_id,
            );
            derived is Some ==> derived->Some_0.0 != accounts[0].key@
        }),
    ensures
        spec_process_instruction(program_id, accounts, instruction_data, rent) is Err,
{
}

/// Instruction data that is empty or begins with a byte above five is
/// refused.
pub proof fn lemma_unknown_selector_is_refused(
    program_id: Seq<u8>,
    accounts: Seq<AccountInfo>,
    instruction_data: Seq<u8>,
    rent: Rent,
)
    requires
        instruction_data.len() == 0 || instruction_data[0] > 5,
    ensures
        spec_process_instruction(program_id, accounts, instruction_data, rent) == Err::<
            Seq<ActionView>,
            ProgramError,
        >(ProgramError::InvalidInstructionData),
        spec_settle_instruction(accounts, instruction_data, rent) == Err::<
            Seq<ActionView>,
            ProgramError,
        >(ProgramError::InvalidInstructionData),
{
}

/// No step of `plan` writes the configuration record.
pub open spec fn leaves_config(plan: Seq<ActionView>) -> bool {
    forall|i: int| 0 <= i < plan.len() ==> !(#[trigger] plan[i] is WriteConfig)
}

/// The configuration record is written once and never changed: no
/// instruction but Initialize plans a step that writes it.
pub proof fn lemma_only_initialize_writes_config(
    program_id: Seq<u8>,
    accounts: Seq<AccountInfo>,
    instruction_data: Seq<u8>,
    rent: Rent,
)
    requires
        instruction_data.len() > 0,
        instruction_data[0] != Initialize::DISCRIMINATOR,
    ensures
        spec_process_instruction(program_id, accounts, instruction_data, rent) is Ok
            ==> leaves_config(
            spec_process_instruction(program_id, accounts, instruction_data, rent)->Ok_0,
        ),
        spec_settle_instruction(accounts, instruction_data, rent) is Ok ==> leaves_config(
            spec_settle_instruction(accounts, instruction_data, rent)->Ok_0,
        ),
{
}

} // verus!
