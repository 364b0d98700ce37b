//! CrankMergeReserve: merges the delegated reserve stake account into the
//! main stake account. Anyone may submit it.
use vstd::prelude::*;
use crate::account::{AccountInfo, STAKE_STATE_DELEGATED};
use crate::action::{outcome_view, plan_view, Action, ActionView};
use crate::errors::{custom, PinocchioError, ProgramError};
use crate::instructions::helpers::{
    bump_of, expect_address, refusal_or_plan, spec_address_refusal, spec_merge_stake,
    ProgramAccount, StakeAccountMerge, STAKE_PROGRAM_ID,
};
use crate::pubkey::{
    config_address, config_seeds, find_config_address, found_view, pubkey_eq, signer_seeds,
    spec_config_seeds, spec_signer_seeds, system_program_id, Pubkey, SYSTEM_PROGRAM_ID,
};
use crate::state::{spec_load, Config};

verus! {

/// The accounts of CrankMergeReserve, in the order in which the instruction
/// takes them.
pub struct CrankMergeReserveAccounts<'a> {
    pub config_pda: &'a AccountInfo,
    pub stake_account_main: &'a AccountInfo,
    pub stake_account_reserve: &'a AccountInfo,
    pub clock_sysvar: &'a AccountInfo,
    pub history_sysvar: &'a AccountInfo,
    pub system_program: &'a AccountInfo,
    pub stake_program: &'a AccountInfo,
}

impl<'a> CrankMergeReserveAccounts<'a> {
    /// Number of accounts that the instruction takes.
    pub const COUNT: usize = 7;

    /// The accounts of the instruction taken from `accounts`, or why they
    /// are refused: `NotEnoughAccountKeys` unless there are seven, a system or
    /// stake program that is not at its address.
    pub open spec fn spec_try_from(accounts: Seq<AccountInfo>) -> Result<
        CrankMergeReserveAccounts<'a>,
        ProgramError,
    > {
        if accounts.len() != Self::COUNT {
            Err(ProgramError::NotEnoughAccountKeys)
        } else if accounts[5].key@ != SYSTEM_PROGRAM_ID@ {
            Err(custom(PinocchioError::InvalidSystemProgram))
        } else if accounts[6].key@ != STAKE_PROGRAM_ID@ {
            Err(custom(PinocchioError::InvalidStakeProgram))
        } else {
            Ok(
                CrankMergeReserveAccounts {
                    config_pda: &accounts[0],
                    stake_account_main: &accounts[1],
                    stake_account_reserve: &accounts[2],
                    clock_sysvar: &accounts[3],
                    history_sysvar: &accounts[4],
                    system_program: &accounts[5],
                    stake_program: &accounts[6],
                },
            )
        }
    }

    /// Takes the accounts of the instruction from `accounts`.
    pub fn try_from(accounts: &'a [AccountInfo]) -> (r: Result<Self, ProgramError>)
        ensures
            r == Self::spec_try_from(accounts@),
    {
        if accounts.len() != Self::COUNT {
            return Err(ProgramError::NotEnoughAccountKeys);
        }
        let system_program = &accounts[5];
        let stake_program = &accounts[6];
        if !system_program.has_key(&system_program_id()) {
            return Err(PinocchioError::InvalidSystemProgram.into_error());
        }
        if !stake_program.has_key(&STAKE_PROGRAM_ID) {
            return Err(PinocchioError::InvalidStakeProgram.into_error());
        }
        Ok(
            CrankMergeReserveAccounts {
                config_pda: &accounts[0],
                stake_account_main: &accounts[1],
                stake_account_reserve: &accounts[2],
                clock_sysvar: &accounts[3],
                history_sysvar: &accounts[4],
                system_program,
                stake_program,
            },
        )
    }
}

/// The CrankMergeReserve instruction.
pub struct CrankMergeReserve<'a> {
    pub accounts: CrankMergeReserveAccounts<'a>,
}

impl<'a> CrankMergeReserve<'a> {
    /// Selector of the instruction.
    pub const DISCRIMINATOR: u8 = 2;

    /// The instruction that `accounts` make up, or why they are refused.
    pub open spec fn spec_try_from(accounts: Seq<AccountInfo>) -> Result<
        CrankMergeReserve<'a>,
        ProgramError,
    > {
        match CrankMergeReserveAccounts::spec_try_from(accounts) {
            Err(e) => Err(e),
            Ok(accounts) => Ok(CrankMergeReserve { accounts }),
        }
    }

    /// Takes the instruction from its accounts.
    pub fn try_from(accounts: &'a [AccountInfo]) -> (r: Result<Self, ProgramError>)
        ensures
            r == Self::spec_try_from(accounts@),
    {
        Ok(CrankMergeReserve { accounts: CrankMergeReserveAccounts::try_from(accounts)? })
    }

    /// Why the instruction is refused, if it is, where `config` is what was
    /// derived for the config address. In this order: a reserve stake account
    /// whose lifecycle tag cannot be read; `ReserveNotStaked` where the tag
    /// is not that of a delegated account; a config account that is not at the
    /// config address; a config record that cannot be loaded; a main stake
    /// account that is not the one of the record; a reserve stake account that
    /// is not the one of the record.
    pub open spec fn spec_refusal(self, config: Option<(Seq<u8>, u8)>) -> Option<ProgramError> {
        let a = self.accounts;
        let state = a.stake_account_reserve.spec_stake_state();
        let config_refusal = spec_address_refusal(
            config,
            a.config_pda.key@,
            PinocchioError::InvalidConfigPda,
        );
        let record = spec_load(a.config_pda.data@);
        if state is Err {
            Some(state->Err_0)
        } else if state->Ok_0 != STAKE_STATE_DELEGATED {
            Some(custom(PinocchioError::ReserveNotStaked))
        } else if config_refusal is Some {
            config_refusal
        } else if record is Err {
            Some(record->Err_0)
        } else if record->Ok_0.stake_account_main != a.stake_account_main.key@ {
            Some(custom(PinocchioError::InvalidStakeAccountMain))
        } else if record->Ok_0.stake_account_reserve != a.stake_account_reserve.key@ {
            Some(custom(PinocchioError::InvalidStakeAccountReserve))
        } else {
            None
        }
    }

    /// The one step of the instruction: the merge of the reserve stake
    /// account into the main one, authorized by the config address.
    pub open spec fn spec_plan(self, config_bump: u8) -> Seq<ActionView> {
        let a = self.accounts;
        seq![
            spec_merge_stake(
                *a.stake_account_main,
                *a.stake_account_reserve,
                *a.clock_sysvar,
                *a.history_sysvar,
                *a.config_pda,
                spec_signer_seeds(spec_config_seeds(), config_bump),
            ),
        ]
    }

    /// What the instruction does: its refusal, or its plan.
    pub open spec fn spec_process(self, config: Option<(Seq<u8>, u8)>) -> Result<
        Seq<ActionView>,
        ProgramError,
    > {
        refusal_or_plan(self.spec_refusal(config), self.spec_plan(bump_of(config)))
    }

    /// Plans the instruction from a config address that was derived before.
    pub fn process_derived(&self, config: Option<(Pubkey, u8)>) -> (r: Result<
        Vec<Action>,
        ProgramError,
    >)
        ensures
            outcome_view(r) == self.spec_process(found_view(config)),
    {
        let a = &self.accounts;
        let state = a.stake_account_reserve.stake_state()?;
        if state != STAKE_STATE_DELEGATED {
            return Err(PinocchioError::ReserveNotStaked.into_error());
        }
        let config_bump = expect_address(
            config,
            &a.config_pda.key,
            PinocchioError::InvalidConfigPda,
        )?;
        let record = Config::load(a.config_pda.data.as_slice())?;
        if !pubkey_eq(&record.stake_account_main, &a.stake_account_main.key) {
            return Err(PinocchioError::InvalidStakeAccountMain.into_error());
        }
        if !pubkey_eq(&record.stake_account_reserve, &a.stake_account_reserve.key) {
            return Err(PinocchioError::InvalidStakeAccountReserve.into_error());
        }
        let authority = signer_seeds(config_seeds(), config_bump);
        let merge = ProgramAccount::merge_stake_account(
            a.stake_account_main,
            a.stake_account_reserve,
            a.clock_sysvar,
            a.history_sysvar,
            a.config_pda,
            &authority,
        );
        let plan: Vec<Action> = vec![merge];
        assert(plan_view(&plan) =~= seq![merge@]);
        Ok(plan)
    }

    /// Plans the instruction for the pool program `program_id`: derives the
    /// config address and goes on as `process_derived`.
    pub fn process(&self, program_id: &Pubkey) -> (r: Result<Vec<Action>, ProgramError>)
        ensures
            outcome_view(r) == self.spec_process(config_address(program_id@)),
    {
        let config = find_config_address(program_id);
        self.process_derived(config)
    }
}

/// A reserve stake account that is not delegated is never merged.
pub proof fn lemma_undelegated_reserve_is_refused(
    ix: CrankMergeReserve,
    config: Option<(Seq<u8>, u8)>,
    state: u32,
)
    requires
        ix.accounts.stake_account_reserve.spec_stake_state() == Ok::<u32, ProgramError>(state),
        state != STAKE_STATE_DELEGATED,
    ensures
        ix.spec_process(config) == Err::<Seq<ActionView>, ProgramError>(
            custom(PinocchioError::ReserveNotStaked),
        ),
{
}

/// Where the instruction is planned, the reserve stake account is
/// delegated, and it and the main stake account are those of the
/// configuration record.
pub proof fn lemma_merge_reserve_preconditions(ix: CrankMergeReserve, config: Option<(Seq<u8>, u8)>)
    requires
        ix.spec_process(config) is Ok,
    ensures
        ix.accounts.stake_account_reserve.spec_stake_state() == Ok::<u32, ProgramError>(
            STAKE_STATE_DELEGATED,
        ),
        config is Some,
        config->Some_0.0 == ix.accounts.config_pda.key@,
        spec_load(ix.accounts.config_pda.data@) is Ok,
        spec_load(ix.accounts.config_pda.data@)->Ok_0.stake_account_main
            == ix.accounts.stake_account_main.key@,
        spec_load(ix.accounts.config_pda.data@)->Ok_0.stake_account_reserve
            == ix.accounts.stake_account_reserve.key@,
        ix.spec_process(config)->Ok_0.len() == 1,
{
}

} // verus!
