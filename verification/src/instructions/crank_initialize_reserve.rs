//! CrankInitializeReserve: initializes the reserve stake account and
//! delegates it to the pool's validator. Anyone may submit it.
use vstd::prelude::*;
use crate::account::{AccountInfo, STAKE_STATE_UNINITIALIZED};
use crate::action::{outcome_view, plan_view, Action, ActionView};
use crate::errors::{custom, PinocchioError, ProgramError};
use crate::instructions::helpers::{
    bump_of, expect_address, refusal_or_plan, spec_address_refusal, spec_delegate_stake,
    spec_initialize_stake, ProgramAccount, StakeAccountDelegate, StakeAccountInitialize,
    STAKE_PROGRAM_ID, VOTE_PROGRAM_ID,
};
use crate::pubkey::{
    config_address, config_seeds, find_config_address, found_view, pubkey_eq, signer_seeds,
    spec_config_seeds, spec_signer_seeds, system_program_id, Pubkey, SYSTEM_PROGRAM_ID,
};
use crate::state::{spec_load, Config};

verus! {

/// The accounts of CrankInitializeReserve, in the order in which the
/// instruction takes them.
pub struct CrankInitializeReserveAccounts<'a> {
    pub config_pda: &'a AccountInfo,
    pub stake_account_reserve: &'a AccountInfo,
    pub validator_vote_account: &'a AccountInfo,
    pub unused_account: &'a AccountInfo,
    pub rent_sysvar: &'a AccountInfo,
    pub clock_sysvar: &'a AccountInfo,
    pub history_sysvar: &'a AccountInfo,
    pub system_program: &'a AccountInfo,
    pub stake_program: &'a AccountInfo,
}

impl<'a> CrankInitializeReserveAccounts<'a> {
    /// Number of accounts that the instruction takes.
    pub const COUNT: usize = 9;

    /// The accounts of the instruction taken from `accounts`, or why they
    /// are refused: `NotEnoughAccountKeys` unless there are nine, a system or
    /// stake program that is not at its address, a validator vote account that
    /// the vote program does not own.
    pub open spec fn spec_try_from(accounts: Seq<AccountInfo>) -> Result<
        CrankInitializeReserveAccounts<'a>,
        ProgramError,
    > {
        if accounts.len() != Self::COUNT {
            Err(ProgramError::NotEnoughAccountKeys)
        } else if accounts[7].key@ != SYSTEM_PROGRAM_ID@ {
            Err(custom(PinocchioError::InvalidSystemProgram))
        } else if accounts[8].key@ != STAKE_PROGRAM_ID@ {
            Err(custom(PinocchioError::InvalidStakeProgram))
        } else if accounts[2].owner@ != VOTE_PROGRAM_ID@ {
            Err(custom(PinocchioError::InvalidValidatorVoteAccount))
        } else {
            Ok(
                CrankInitializeReserveAccounts {
                    config_pda: &accounts[0],
                    stake_account_reserve: &accounts[1],
                    validator_vote_account: &accounts[2],
                    unused_account: &accounts[3],
                    rent_sysvar: &accounts[4],
                    clock_sysvar: &accounts[5],
                    history_sysvar: &accounts[6],
                    system_program: &accounts[7],
                    stake_program: &accounts[8],
                },
            )
        }
    }

    /// Takes the accounts of the instruction from `accounts`.
    pub fn try_from(accounts: &'a [AccountInfo]) -> (r: Result<Self, ProgramError>)
        ensures
            r == Self::spec_try_from(accounts@),
    {
        if accounts.len() != Self::COUNT {
            return Err(ProgramError::NotEnoughAccountKeys);
        }
        let validator_vote_account = &accounts[2];
        let system_program = &accounts[7];
        let stake_program = &accounts[8];
        if !system_program.has_key(&system_program_id()) {
            return Err(PinocchioError::InvalidSystemProgram.into_error());
        }
        if !stake_program.has_key(&STAKE_PROGRAM_ID) {
            return Err(PinocchioError::InvalidStakeProgram.into_error());
        }
        if !validator_vote_account.is_owned_by(&VOTE_PROGRAM_ID) {
            return Err(PinocchioError::InvalidValidatorVoteAccount.into_error());
        }
        Ok(
            CrankInitializeReserveAccounts {
                config_pda: &accounts[0],
                stake_account_reserve: &accounts[1],
                validator_vote_account,
                unused_account: &accounts[3],
                rent_sysvar: &accounts[4],
                clock_sysvar: &accounts[5],
                history_sysvar: &accounts[6],
                system_program,
                stake_program,
            },
        )
    }
}

/// The CrankInitializeReserve instruction.
pub struct CrankInitializeReserve<'a> {
    pub accounts: CrankInitializeReserveAccounts<'a>,
}

impl<'a> CrankInitializeReserve<'a> {
    /// Selector of the instruction.
    pub const DISCRIMINATOR: u8 = 1;

    /// The instruction that `accounts` make up, or why they are refused.
    pub open spec fn spec_try_from(accounts: Seq<AccountInfo>) -> Result<
        CrankInitializeReserve<'a>,
        ProgramError,
    > {
        match CrankInitializeReserveAccounts::spec_try_from(accounts) {
            Err(e) => Err(e),
            Ok(accounts) => Ok(CrankInitializeReserve { accounts }),
        }
    }

    /// Takes the instruction from its accounts.
    pub fn try_from(accounts: &'a [AccountInfo]) -> (r: Result<Self, ProgramError>)
        ensures
            r == Self::spec_try_from(accounts@),
    {
        Ok(CrankInitializeReserve { accounts: CrankInitializeReserveAccounts::try_from(accounts)? })
    }

    /// Why the instruction is refused, if it is, where `config` is what was
    /// derived for the config address. In this order: a reserve stake account
    /// whose lifecycle tag cannot be read; `ReserveAlreadyInitialized` where
    /// the tag is not that of an uninitialized account; a config account that
    /// is not at the config address; a config record that cannot be loaded; a
    /// reserve stake account that is not the one of the record; a validator
    /// vote account that is not the one of the record.
    pub open spec fn spec_refusal(self, config: Option<(Seq<u8>, u8)>) -> Option<ProgramError> {
        let a = self.accounts;
        let state = a.stake_account_reserve.spec_stake_state();
        let config_refusal = spec_address_refusal(
            config,
            a.config_pda.key@,
            PinocchioError::InvalidConfigPda,
        );
        let record = spec_load(a.config_pda.data@);
        if state is Err {
            Some(state->Err_0)
        } else if state->Ok_0 != STAKE_STATE_UNINITIALIZED {
            Some(custom(PinocchioError::ReserveAlreadyInitialized))
        } else if config_refusal is Some {
            config_refusal
        } else if record is Err {
            Some(record->Err_0)
        } else if record->Ok_0.stake_account_reserve != a.stake_account_reserve.key@ {
            Some(custom(PinocchioError::InvalidStakeAccountReserve))
        } else if record->Ok_0.validator_vote_pubkey != a.validator_vote_account.key@ {
            Some(custom(PinocchioError::InvalidValidatorVoteKey))
        } else {
            None
        }
    }

    /// The two steps of the instruction, both authorized by the config
    /// address: the initialization of the reserve stake account with the
    /// config address as staker and withdrawer, and its delegation to the
    /// validator.
    pub open spec fn spec_plan(self, config_bump: u8) -> Seq<ActionView> {
        let a = self.accounts;
        let authority = spec_signer_seeds(spec_config_seeds(), config_bump);
        seq![
            spec_initialize_stake(
                *a.stake_account_reserve,
                *a.config_pda,
                *a.config_pda,
                *a.rent_sysvar,
                authority,
            ),
            spec_delegate_stake(
                *a.stake_account_reserve,
                *a.validator_vote_account,
                *a.clock_sysvar,
                *a.history_sysvar,
                *a.unused_account,
                *a.config_pda,
                authority,
            ),
        ]
    }

    /// What the instruction does: its refusal, or its plan.
    pub open spec fn spec_process(self, config: Option<(Seq<u8>, u8)>) -> Result<
        Seq<ActionView>,
        ProgramError,
    > {
        refusal_or_plan(self.spec_refusal(config), self.spec_plan(bump_of(config)))
    }

    /// Plans the instruction from a config address that was derived before.
    pub fn process_derived(&self, config: Option<(Pubkey, u8)>) -> (r: Result<
        Vec<Action>,
        ProgramError,
    >)
        ensures
            outcome_view(r) == self.spec_process(found_view(config)),
    {
        let a = &self.accounts;
        let state = a.stake_account_reserve.stake_state()?;
        if state != STAKE_STATE_UNINITIALIZED {
            return Err(PinocchioError::ReserveAlreadyInitialized.into_error());
        }
        let config_bump = expect_address(
            config,
            &a.config_pda.key,
            PinocchioError::InvalidConfigPda,
        )?;
        let record = Config::load(a.config_pda.data.as_slice())?;
        if !pubkey_eq(&record.stake_account_reserve, &a.stake_account_reserve.key) {
            return Err(PinocchioError::InvalidStakeAccountReserve.into_error());
        }
        if !pubkey_eq(&record.validator_vote_pubkey, &a.validator_vote_account.key) {
            return Err(PinocchioError::InvalidValidatorVoteKey.into_error());
        }
        let authority = signer_seeds(config_seeds(), config_bump);
        let initialize = ProgramAccount::initialize_stake_account_no_lockup(
            a.stake_account_reserve,
            a.config_pda,
            a.config_pda,
            a.rent_sysvar,
            &authority,
        );
        let delegate = ProgramAccount::delegate_stake_account(
            a.stake_account_reserve,
            a.validator_vote_account,
            a.clock_sysvar,
            a.history_sysvar,
            a.unused_account,
            a.config_pda,
            &authority,
        );
        let plan: Vec<Action> = vec![initialize, delegate];
        assert(plan_view(&plan) =~= seq![initialize@, delegate@]);
        Ok(plan)
    }

    /// Plans the instruction for the pool program `program_id`: derives the
    /// config address and goes on as `process_derived`.
    pub fn process(&self, program_id: &Pubkey) -> (r: Result<Vec<Action>, ProgramError>)
        ensures
            outcome_view(r) == self.spec_process(config_address(program_id@)),
    {
        let config = find_config_address(program_id);
        self.process_derived(config)
    }
}

/// A reserve stake account that is not uninitialized, and so one that is
/// delegated, is never initialized again.
pub proof fn lemma_initialized_reserve_is_refused(
    ix: CrankInitializeReserve,
    config: Option<(Seq<u8>, u8)>,
    state: u32,
)
    requires
        ix.accounts.stake_account_reserve.spec_stake_state() == Ok::<u32, ProgramError>(state),
        state != STAKE_STATE_UNINITIALIZED,
    ensures
        ix.spec_process(config) == Err::<Seq<ActionView>, ProgramError>(
            custom(PinocchioError::ReserveAlreadyInitialized),
        ),
{
}

/// Where the instruction is planned, the reserve stake account is
/// uninitialized and is the one of the configuration record, as is the
/// validator.
pub proof fn lemma_initialize_reserve_preconditions(
    ix: CrankInitializeReserve,
    config: Option<(Seq<u8>, u8)>,
)
    requires
        ix.spec_process(config) is Ok,
    ensures
        ix.accounts.stake_account_reserve.spec_stake_state() == Ok::<u32, ProgramError>(
            STAKE_STATE_UNINITIALIZED,
        ),
        config is Some,
        config->Some_0.0 == ix.accounts.config_pda.key@,
        spec_load(ix.accounts.config_pda.data@) is Ok,
        spec_load(ix.accounts.config_pda.data@)->Ok_0.stake_account_reserve
            == ix.accounts.stake_account_reserve.key@,
        spec_load(ix.accounts.config_pda.data@)->Ok_0.validator_vote_pubkey
            == ix.accounts.validator_vote_account.key@,
        ix.spec_process(config)->Ok_0.len() == 2,
{
}

} // verus!
