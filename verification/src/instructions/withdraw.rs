//! Withdraw: drains a split stake account to the withdrawer it was made
//! for.
use vstd::prelude::*;
use crate::account::AccountInfo;
use crate::action::{outcome_view, plan_view, Action, ActionView};
use crate::bytes::{le_u64, spec_le_u64, spec_u32_le_bytes, spec_u64_le_bytes};
use crate::errors::{custom, PinocchioError, ProgramError};
use crate::instructions::helpers::{
    bump_of, expect_address, refusal_or_plan, spec_address_refusal, spec_withdraw_stake,
    AccountCheck, ProgramAccount, SignerAccount, StakeAccountWithdraw, STAKE_PROGRAM_ID,
    STAKE_WITHDRAW,
};
use crate::pubkey::{
    config_address, config_seeds, find_config_address, find_split_address, found_view, signer_seeds,
    spec_config_seeds, spec_signer_seeds, split_address, Pubkey,
};

verus! {

/// The accounts of Withdraw, in the order in which the instruction takes
/// them.
pub struct WithdrawAccounts<'a> {
    pub account_to_withdraw_from: &'a AccountInfo,
    pub withdrawer: &'a AccountInfo,
    pub clock_sysvar: &'a AccountInfo,
    pub history_sysvar: &'a AccountInfo,
    pub config_pda: &'a AccountInfo,
    pub stake_program: &'a AccountInfo,
}

impl<'a> WithdrawAccounts<'a> {
    /// Number of accounts that the instruction takes.
    pub const COUNT: usize = 6;

    /// The accounts of the instruction taken from `accounts`, or why they
    /// are refused: `NotEnoughAccountKeys` unless there are six, `NotSigner`
    /// unless the withdrawer signed, a stake program that is not at its
    /// address.
    pub open spec fn spec_try_from(accounts: Seq<AccountInfo>) -> Result<
        WithdrawAccounts<'a>,
        ProgramError,
    > {
        if accounts.len() != Self::COUNT {
            Err(ProgramError::NotEnoughAccountKeys)
        } else if !accounts[1].is_signer {
            Err(custom(PinocchioError::NotSigner))
        } else if accounts[5].key@ != STAKE_PROGRAM_ID@ {
            Err(custom(PinocchioError::InvalidStakeProgram))
        } else {
            Ok(
                WithdrawAccounts {
                    account_to_withdraw_from: &accounts[0],
                    withdrawer: &accounts[1],
                    clock_sysvar: &accounts[2],
                    history_sysvar: &accounts[3],
                    config_pda: &accounts[4],
                    stake_program: &accounts[5],
                },
            )
        }
    }

    /// Takes the accounts of the instruction from `accounts`.
    pub fn try_from(accounts: &'a [AccountInfo]) -> (r: Result<Self, ProgramError>)
        ensures
            r == Self::spec_try_from(accounts@),
    {
        if accounts.len() != Self::COUNT {
            return Err(ProgramError::NotEnoughAccountKeys);
        }
        let withdrawer = &accounts[1];
        let stake_program = &accounts[5];
        SignerAccount::check(withdrawer)?;
        if !stake_program.has_key(&STAKE_PROGRAM_ID) {
            return Err(PinocchioError::InvalidStakeProgram.into_error());
        }
        Ok(
            WithdrawAccounts {
                account_to_withdraw_from: &accounts[0],
                withdrawer,
                clock_sysvar: &accounts[2],
                history_sysvar: &accounts[3],
                config_pda: &accounts[4],
                stake_program,
            },
        )
    }
}

/// The payload of Withdraw.
#[derive(Clone, Copy, Debug, PartialEq, Eq, Structural)]
pub struct WithdrawInstructionData {
    /// Number of the exit to withdraw.
    pub nonce: u64,
}

impl WithdrawInstructionData {
    /// Length of the payload in bytes.
    pub const LEN: usize = 8;

    /// The payload that `data` holds: `InvalidInstructionData` unless there
    /// are eight bytes, else the nonce that they hold in little-endian order.
    pub open spec fn spec_try_from(data: Seq<u8>) -> Result<WithdrawInstructionData, ProgramError> {
        if data.len() != Self::LEN {
            Err(ProgramError::InvalidInstructionData)
        } else {
            Ok(WithdrawInstructionData { nonce: spec_le_u64(data) })
        }
    }

    /// Reads the payload from `data`.
    pub fn try_from(data: &[u8]) -> (r: Result<Self, ProgramError>)
        ensures
            r == Self::spec_try_from(data@),
    {
        if data.len() != Self::LEN {
            return Err(ProgramError::InvalidInstructionData);
        }
        assert(data@.subrange(0, 8) =~= data@);
        Ok(WithdrawInstructionData { nonce: le_u64(data, 0) })
    }
}

/// The Withdraw instruction: its accounts and its payload.
pub struct Withdraw<'a> {
    pub accounts: WithdrawAccounts<'a>,
    pub data: WithdrawInstructionData,
}

impl<'a> Withdraw<'a> {
    /// Selector of the instruction.
    pub const DISCRIMINATOR: u8 = 5;

    /// The instruction that `accounts` and `data` make up: the failure of
    /// the accounts where they are refused, else that of the payload.
    pub open spec fn spec_try_from(data: Seq<u8>, accounts: Seq<AccountInfo>) -> Result<
        Withdraw<'a>,
        ProgramError,
    > {
        match WithdrawAccounts::spec_try_from(accounts) {
            Err(e) => Err(e),
            Ok(accounts) => match WithdrawInstructionData::spec_try_from(data) {
                Err(e) => Err(e),
                Ok(data) => Ok(Withdraw { accounts, data }),
            },
        }
    }

    /// Takes the instruction from its accounts and its payload.
    pub fn try_from(data: &[u8], accounts: &'a [AccountInfo]) -> (r: Result<Self, ProgramError>)
        ensures
            r == Self::spec_try_from(data@, accounts@),
    {
        let accounts = WithdrawAccounts::try_from(accounts)?;
        let data = WithdrawInstructionData::try_from(data)?;
        Ok(Withdraw { accounts, data })
    }

    /// Why the instruction is refused, if it is, where `config` and `split`
    /// are what was derived for the config address and for the split address
    /// of withdrawer and nonce. In this order: a config account that is not
    /// at the config address; an account to withdraw from that is not at the
    /// split address.
    pub open spec fn spec_refusal(
        self,
        config: Option<(Seq<u8>, u8)>,
        split: Option<(Seq<u8>, u8)>,
    ) -> Option<ProgramError> {
        let a = self.accounts;
        let config_refusal = spec_address_refusal(
            config,
            a.config_pda.key@,
            PinocchioError::InvalidConfigPda,
        );
        let split_refusal = spec_address_refusal(
            split,
            a.account_to_withdraw_from.key@,
            PinocchioError::InvalidSplitAccountPda,
        );
        if config_refusal is Some {
            config_refusal
        } else {
            split_refusal
        }
    }

    /// The one step of the instruction: the withdrawal of the whole balance
    /// of the split stake account to the withdrawer, authorized by the config
    /// address.
    pub open spec fn spec_plan(self, config_bump: u8) -> Seq<ActionView> {
        let a = self.accounts;
        seq![
            spec_withdraw_stake(
                *a.account_to_withdraw_from,
                *a.withdrawer,
                *a.clock_sysvar,
                *a.history_sysvar,
                *a.config_pda,
                spec_signer_seeds(spec_config_seeds(), config_bump),
            ),
        ]
    }

    /// What the instruction does: its refusal, or its plan.
    pub open spec fn spec_process(
        self,
        config: Option<(Seq<u8>, u8)>,
        split: Option<(Seq<u8>, u8)>,
    ) -> Result<Seq<ActionView>, ProgramError> {
        refusal_or_plan(self.spec_refusal(config, split), self.spec_plan(bump_of(config)))
    }

    /// Plans the instruction from addresses that were derived before.
    pub fn process_derived(&self, config: Option<(Pubkey, u8)>, split: Option<(Pubkey, u8)>) -> (r:
        Result<Vec<Action>, ProgramError>)
        ensures
            outcome_view(r) == self.spec_process(found_view(config), found_view(split)),
    {
        let a = &self.accounts;
        let config_bump = expect_address(
            config,
            &a.config_pda.key,
            PinocchioError::InvalidConfigPda,
        )?;
        let _ = expect_address(
            split,
            &a.account_to_withdraw_from.key,
            PinocchioError::InvalidSplitAccountPda,
        )?;
        let authority = signer_seeds(config_seeds(), config_bump);
        let withdraw = ProgramAccount::withdraw_stake_account(
            a.account_to_withdraw_from,
            a.withdrawer,
            a.clock_sysvar,
            a.history_sysvar,
            a.config_pda,
            &authority,
        );
        let plan: Vec<Action> = vec![withdraw];
        assert(plan_view(&plan) =~= seq![withdraw@]);
        Ok(plan)
    }

    /// Plans the instruction for the pool program `program_id`: derives the
    /// config address and the split address of withdrawer and nonce and goes
    /// on as `process_derived`.
    pub fn process(&self, program_id: &Pubkey) -> (r: Result<Vec<Action>, ProgramError>)
        ensures
            outcome_view(r) == self.spec_process(
                config_address(program_id@),
                split_address(self.accounts.withdrawer.key@, self.data.nonce, program_id@),
            ),
    {
        let config = find_config_address(program_id);
        let split = find_split_address(&self.accounts.withdrawer.key, self.data.nonce, program_id);
        self.process_derived(config, split)
    }
}

/// A withdrawal from an account that is not at the address derived for
/// withdrawer and nonce is refused: with `InvalidSplitAccountPda` where the
/// config account is in order, with the failure of the config account else.
pub proof fn lemma_foreign_split_account_is_refused(
    ix: Withdraw,
    config: Option<(Seq<u8>, u8)>,
    split: Option<(Seq<u8>, u8)>,
)
    requires
        split is Some,
        split->Some_0.0 != ix.accounts.account_to_withdraw_from.key@,
    ensures
        ix.spec_process(config, split) is Err,
        config is Some && config->Some_0.0 == ix.accounts.config_pda.key@ ==> ix.spec_process(
            config,
            split,
        ) == Err::<Seq<ActionView>, ProgramError>(custom(PinocchioError::InvalidSplitAccountPda)),
{
}

/// Where a withdrawal is planned, the account is at the address derived
/// for withdrawer and nonce, and the one step withdraws its whole balance.
pub proof fn lemma_withdraw_drains_derived_account(
    ix: Withdraw,
    config: Option<(Seq<u8>, u8)>,
    split: Option<(Seq<u8>, u8)>,
)
    requires
        ix.spec_process(config, split) is Ok,
    ensures
        split is Some,
        split->Some_0.0 == ix.accounts.account_to_withdraw_from.key@,
        ix.spec_process(config, split)->Ok_0.len() == 1,
        ix.spec_process(config, split)->Ok_0[0] is Invoke,
        ix.spec_process(config, split)->Ok_0[0]->Invoke_data == spec_u32_le_bytes(
            STAKE_WITHDRAW,
        ) + spec_u64_le_bytes(ix.accounts.account_to_withdraw_from.lamports),
{
}

} // verus!
