//! Deposit: moves lamports of a depositor into the reserve stake account
//! and mints claim tokens for them at the current exchange rate.
use vstd::prelude::*;
use crate::account::AccountInfo;
use crate::action::{outcome_view, plan_view, Action, ActionView};
use crate::bytes::{le_u64, spec_le_u64};
use crate::errors::{custom, PinocchioError, ProgramError};
use crate::exchange::{lst_to_mint, pool_lamports, spec_lst_to_mint, spec_pool_lamports};
use crate::instructions::helpers::{
    bump_of, expect_address, refusal_or_plan, spec_address_refusal, LAMPORTS_PER_SOL,
    STAKE_PROGRAM_ID,
};
use crate::pubkey::{
    associated_token_address, config_address, config_seeds, find_associated_token_address,
    find_config_address, found_view, pubkey_eq, signer_seeds, spec_config_seeds, spec_signer_seeds,
    system_program_id, token_program_id, Pubkey, SYSTEM_PROGRAM_ID, TOKEN_PROGRAM_ID,
};
use crate::state::{spec_load, Config};

verus! {

/// The accounts of Deposit, in the order in which the instruction takes
/// them.
pub struct DepositAccounts<'a> {
    pub config_pda: &'a AccountInfo,
    pub depositor: &'a AccountInfo,
    pub depositor_ata: &'a AccountInfo,
    pub lst_mint: &'a AccountInfo,
    pub stake_account_main: &'a AccountInfo,
    pub stake_account_reserve: &'a AccountInfo,
    pub stake_program: &'a AccountInfo,
    pub token_program: &'a AccountInfo,
    pub system_program: &'a AccountInfo,
    pub rent_sysvar: &'a AccountInfo,
}

impl<'a> DepositAccounts<'a> {
    /// Number of accounts that the instruction takes.
    pub const COUNT: usize = 10;

    /// The accounts of the instruction taken from `accounts`, or why they
    /// are refused: `NotEnoughAccountKeys` unless there are ten, `NotSigner`
    /// unless the depositor signed, then the first of the system, token and
    /// stake program that is not at its address.
    pub open spec fn spec_try_from(accounts: Seq<AccountInfo>) -> Result<
        DepositAccounts<'a>,
        ProgramError,
    > {
        if accounts.len() != Self::COUNT {
            Err(ProgramError::NotEnoughAccountKeys)
        } else if !accounts[1].is_signer {
            Err(custom(PinocchioError::NotSigner))
        } else if accounts[8].key@ != SYSTEM_PROGRAM_ID@ {
            Err(custom(PinocchioError::InvalidSystemProgram))
        } else if accounts[7].key@ != TOKEN_PROGRAM_ID@ {
            Err(custom(PinocchioError::InvalidTokenProgram))
        } else if accounts[6].key@ != STAKE_PROGRAM_ID@ {
            Err(custom(PinocchioError::InvalidStakeProgram))
        } else {
            Ok(
                DepositAccounts {
                    config_pda: &accounts[0],
                    depositor: &accounts[1],
                    depositor_ata: &accounts[2],
                    lst_mint: &accounts[3],
                    stake_account_main: &accounts[4],
                    stake_account_reserve: &accounts[5],
                    stake_program: &accounts[6],
                    token_program: &accounts[7],
                    system_program: &accounts[8],
                    rent_sysvar: &accounts[9],
                },
            )
        }
    }

    /// Takes the accounts of the instruction from `accounts`.
    pub fn try_from(accounts: &'a [AccountInfo]) -> (r: Result<Self, ProgramError>)
        ensures
            r == Self::spec_try_from(accounts@),
    {
        if accounts.len() != Self::COUNT {
            return Err(ProgramError::NotEnoughAccountKeys);
        }
        let depositor = &accounts[1];
        let stake_program = &accounts[6];
        let token_program = &accounts[7];
        let system_program = &accounts[8];
        if !depositor.is_signer {
            return Err(PinocchioError::NotSigner.into_error());
        }
        if !system_program.has_key(&system_program_id()) {
            return Err(PinocchioError::InvalidSystemProgram.into_error());
        }
        if !token_program.has_key(&token_program_id()) {
            return Err(PinocchioError::InvalidTokenProgram.into_error());
        }
        if !stake_program.has_key(&STAKE_PROGRAM_ID) {
            return Err(PinocchioError::InvalidStakeProgram.into_error());
        }
        Ok(
            DepositAccounts {
                config_pda: &accounts[0],
                depositor,
                depositor_ata: &accounts[2],
                lst_mint: &accounts[3],
                stake_account_main: &accounts[4],
                stake_account_reserve: &accounts[5],
                stake_program,
                token_program,
                system_program,
                rent_sysvar: &accounts[9],
            },
        )
    }
}

/// The payload of Deposit.
#[derive(Clone, Copy, Debug, PartialEq, Eq, Structural)]
pub struct DepositData {
    /// Lamports to deposit.
    pub amount_in_lamports: u64,
}

impl DepositData {
    /// Length of the payload in bytes.
    pub const LEN: usize = 8;

    /// The least deposit: one SOL.
    pub const MINIMUM: u64 = LAMPORTS_PER_SOL;

    /// The payload that `data` holds, or why it is refused:
    /// `InvalidInstructionData` unless there are eight bytes,
    /// `DepositBelowMinimum` where the amount is below one SOL; else the
    /// amount that the eight little-endian bytes hold.
    pub open spec fn spec_try_from(data: Seq<u8>) -> Result<DepositData, ProgramError> {
        if data.len() != Self::LEN {
            Err(ProgramError::InvalidInstructionData)
        } else if spec_le_u64(data) < Self::MINIMUM {
            Err(custom(PinocchioError::DepositBelowMinimum))
        } else {
            Ok(DepositData { amount_in_lamports: spec_le_u64(data) })
        }
    }

    /// Reads the payload from `data`.
    pub fn try_from(data: &[u8]) -> (r: Result<Self, ProgramError>)
        ensures
            r == Self::spec_try_from(data@),
    {
        if data.len() != Self::LEN {
            return Err(ProgramError::InvalidInstructionData);
        }
        assert(data@.subrange(0, 8) =~= data@);
        let amount_in_lamports = le_u64(data, 0);
        if amount_in_lamports < Self::MINIMUM {
            return Err(PinocchioError::DepositBelowMinimum.into_error());
        }
        Ok(DepositData { amount_in_lamports })
    }
}

/// The Deposit instruction: its accounts and its payload.
pub struct Deposit<'a> {
    pub accounts: DepositAccounts<'a>,
    pub data: DepositData,
}

impl<'a> Deposit<'a> {
    /// Selector of the instruction.
    pub const DISCRIMINATOR: u8 = 3;

    /// The instruction that `accounts` and `data` make up: the failure of
    /// the accounts where they are refused, else that of the payload.
    pub open spec fn spec_try_from(data: Seq<u8>, accounts: Seq<AccountInfo>) -> Result<
        Deposit<'a>,
        ProgramError,
    > {
        match DepositAccounts::spec_try_from(accounts) {
            Err(e) => Err(e),
            Ok(accounts) => match DepositData::spec_try_from(data) {
                Err(e) => Err(e),
                Ok(data) => Ok(Deposit { accounts, data }),
            },
        }
    }

    /// Takes the instruction from its accounts and its payload.
    pub fn try_from(data: &[u8], accounts: &'a [AccountInfo]) -> (r: Result<Self, ProgramError>)
        ensures
            r == Self::spec_try_from(data@, accounts@),
    {
        let accounts = DepositAccounts::try_from(accounts)?;
        let data = DepositData::try_from(data)?;
        Ok(Deposit { accounts, data })
    }

    /// The claim tokens that the deposit is worth: its amount at the rate
    /// of the mint's supply to the lamports in the main and the reserve stake
    /// account. It fails where the supply cannot be read, and with
    /// `ArithmeticOverflow` where the lamports in the pool or the tokens leave
    /// the 64-bit range.
    pub open spec fn spec_lst_amount(self) -> Result<u64, ProgramError> {
        let a = self.accounts;
        match a.lst_mint.spec_mint_supply() {
            Err(e) => Err(e),
            Ok(supply) => {
                let pool = spec_pool_lamports(
                    a.stake_account_main.lamports,
                    a.stake_account_reserve.lamports,
                );
                if pool > u64::MAX || spec_lst_to_mint(
                    self.data.amount_in_lamports,
                    supply,
                    pool as u64,
                ) > u64::MAX {
                    Err(ProgramError::ArithmeticOverflow)
                } else {
                    Ok(spec_lst_to_mint(self.data.amount_in_lamports, supply, pool as u64) as u64)
                }
            },
        }
    }

    /// Why the instruction is refused, if it is, where `config` and `ata`
    /// are what was derived for the config address and for the depositor's
    /// associated token address. In this order: a config account that is not
    /// at the config address; a config record that cannot be loaded; a main
    /// stake account, a reserve stake account, a mint that is not the one of
    /// the record; a token account that is not at the associated address;
    /// claim tokens that cannot be computed.
    pub open spec fn spec_refusal(
        self,
        config: Option<(Seq<u8>, u8)>,
        ata: Option<(Seq<u8>, u8)>,
    ) -> Option<ProgramError> {
        let a = self.accounts;
        let config_refusal = spec_address_refusal(
            config,
            a.config_pda.key@,
            PinocchioError::InvalidConfigPda,
        );
        let record = spec_load(a.config_pda.data@);
        let ata_refusal = spec_address_refusal(
            ata,
            a.depositor_ata.key@,
            PinocchioError::InvalidDepositorAta,
        );
        if config_refusal is Some {
            config_refusal
        } else if record is Err {
            Some(record->Err_0)
        } else if record->Ok_0.stake_account_main != a.stake_account_main.key@ {
            Some(custom(PinocchioError::InvalidStakeAccountMain))
        } else if record->Ok_0.stake_account_reserve != a.stake_account_reserve.key@ {
            Some(custom(PinocchioError::InvalidStakeAccountReserve))
        } else if record->Ok_0.lst_mint != a.lst_mint.key@ {
            Some(custom(PinocchioError::InvalidLstMint))
        } else if ata_refusal is Some {
            ata_refusal
        } else if self.spec_lst_amount() is Err {
            Some(self.spec_lst_amount()->Err_0)
        } else {
            None
        }
    }

    /// The two steps of the instruction: the transfer of the amount from the
    /// depositor to the reserve stake account, and the minting of the claim
    /// tokens that it is worth to the depositor's token account, authorized
    /// by the config address.
    pub open spec fn spec_plan(self, config_bump: u8) -> Seq<ActionView> {
        let a = self.accounts;
        seq![
            ActionView::Transfer {
                from: a.depositor.key@,
                to: a.stake_account_reserve.key@,
                lamports: self.data.amount_in_lamports,
            },
            ActionView::MintTo {
                mint: a.lst_mint.key@,
                account: a.depositor_ata.key@,
                mint_authority: a.config_pda.key@,
                amount: self.spec_lst_amount()->Ok_0,
                signer_seeds: spec_signer_seeds(spec_config_seeds(), config_bump),
            },
        ]
    }

    /// What the instruction does: its refusal, or its plan.
    pub open spec fn spec_process(
        self,
        config: Option<(Seq<u8>, u8)>,
        ata: Option<(Seq<u8>, u8)>,
    ) -> Result<Seq<ActionView>, ProgramError> {
        refusal_or_plan(self.spec_refusal(config, ata), self.spec_plan(bump_of(config)))
    }

    /// Computes the claim tokens that the deposit is worth.
    pub fn lst_amount(&self) -> (r: Result<u64, ProgramError>)
        ensures
            r == self.spec_lst_amount(),
    {
        let a = &self.accounts;
        let supply = a.lst_mint.mint_supply()?;
        let pool = pool_lamports(a.stake_account_main.lamports, a.stake_account_reserve.lamports)?;
        lst_to_mint(self.data.amount_in_lamports, supply, pool)
    }

    /// Plans the instruction from addresses that were derived before.
    pub fn process_derived(&self, config: Option<(Pubkey, u8)>, ata: Option<(Pubkey, u8)>) -> (r:
        Result<Vec<Action>, ProgramError>)
        ensures
            outcome_view(r) == self.spec_process(found_view(config), found_view(ata)),
    {
        let a = &self.accounts;
        let config_bump = expect_address(
            config,
            &a.config_pda.key,
            PinocchioError::InvalidConfigPda,
        )?;
        let record = Config::load(a.config_pda.data.as_slice())?;
        if !pubkey_eq(&a.stake_account_main.key, &record.stake_account_main) {
            return Err(PinocchioError::InvalidStakeAccountMain.into_error());
        }
        if !pubkey_eq(&a.stake_account_reserve.key, &record.stake_account_reserve) {
            return Err(PinocchioError::InvalidStakeAccountReserve.into_error());
        }
        if !pubkey_eq(&a.lst_mint.key, &record.lst_mint) {
            return Err(PinocchioError::InvalidLstMint.into_error());
        }
        let _ = expect_address(ata, &a.depositor_ata.key, PinocchioError::InvalidDepositorAta)?;
        let minted = self.lst_amount()?;
        let transfer = Action::Transfer {
            from: a.depositor.key,
            to: a.stake_account_reserve.key,
            lamports: self.data.amount_in_lamports,
        };
        let mint_to = Action::MintTo {
            mint: a.lst_mint.key,
            account: a.depositor_ata.key,
            mint_authority: a.config_pda.key,
            amount: minted,
            signer_seeds: signer_seeds(config_seeds(), config_bump),
        };
        let plan: Vec<Action> = vec![transfer, mint_to];
        assert(plan_view(&plan) =~= seq![transfer@, mint_to@]);
        Ok(plan)
    }

    /// Plans the instruction for the pool program `program_id`: derives the
    /// config address and the depositor's associated token address and goes on
    /// as `process_derived`.
    pub fn process(&self, program_id: &Pubkey) -> (r: Result<Vec<Action>, ProgramError>)
        ensures
            outcome_view(r) == self.spec_process(
                config_address(program_id@),
                associated_token_address(
                    self.accounts.depositor.key@,
                    self.accounts.token_program.key@,
                    self.accounts.lst_mint.key@,
                ),
            ),
    {
        let a = &self.accounts;
        let config = find_config_address(program_id);
        let ata = find_associated_token_address(
            &a.depositor.key,
            &a.token_program.key,
            &a.lst_mint.key,
        );
        self.process_derived(config, ata)
    }
}

/// A deposit below one SOL is refused.
pub proof fn lemma_deposit_below_minimum_is_refused(data: Seq<u8>)
    requires
        data.len() == DepositData::LEN,
        spec_le_u64(data) < LAMPORTS_PER_SOL,
    ensures
        DepositData::spec_try_from(data) == Err::<DepositData, ProgramError>(
            custom(PinocchioError::DepositBelowMinimum),
        ),
{
}

/// A deposit of at least one SOL is accepted with its amount.
pub proof fn lemma_deposit_from_minimum_is_accepted(data: Seq<u8>)
    requires
        data.len() == DepositData::LEN,
        spec_le_u64(data) >= LAMPORTS_PER_SOL,
    ensures
        DepositData::spec_try_from(data) == Ok::<DepositData, ProgramError>(
            DepositData { amount_in_lamports: spec_le_u64(data) },
        ),
{
}

/// What a deposit mints: the deposit itself while the supply or the pool
/// is zero, else its share of the supply, rounded down.
pub proof fn lemma_deposit_mints_share(ix: Deposit, supply: u64)
    requires
        ix.accounts.lst_mint.spec_mint_supply() == Ok::<u64, ProgramError>(supply),
        ix.spec_lst_amount() is Ok,
    ensures
        ({
            let pool = ix.accounts.stake_account_main.lamports
                + ix.accounts.stake_account_reserve.lamports;
            let minted = ix.spec_lst_amount()->Ok_0;
            &&& supply > 0 && pool > 0 ==> minted == (ix.data.amount_in_lamports * supply) / pool
            &&& supply == 0 || pool == 0 ==> minted == ix.data.amount_in_lamports
        }),
{
}

/// Where a deposit is planned, the config account is at the config
/// address, the main stake account, the reserve stake account and the mint
/// are those of the record, so that the rate is that of the pool itself; the
/// lamports go from the depositor to the reserve stake account, and the
/// tokens minted to the depositor's token account are the share that the
/// deposit is worth before it is made.
pub proof fn lemma_deposit_moves_value_and_mints_share(
    ix: Deposit,
    config: Option<(Seq<u8>, u8)>,
    ata: Option<(Seq<u8>, u8)>,
)
    requires
        ix.spec_process(config, ata) is Ok,
    ensures
        config is Some,
        config->Some_0.0 == ix.accounts.config_pda.key@,
        ata is Some,
        ata->Some_0.0 == ix.accounts.depositor_ata.key@,
        spec_load(ix.accounts.config_pda.data@) is Ok,
        spec_load(ix.accounts.config_pda.data@)->Ok_0.stake_account_main
            == ix.accounts.stake_account_main.key@,
        spec_load(ix.accounts.config_pda.data@)->Ok_0.stake_account_reserve
            == ix.accounts.stake_account_reserve.key@,
        spec_load(ix.accounts.config_pda.data@)->Ok_0.lst_mint == ix.accounts.lst_mint.key@,
        ix.accounts.lst_mint.spec_mint_supply() is Ok,
        ({
            let plan = ix.spec_process(config, ata)->Ok_0;
            let supply = ix.accounts.lst_mint.spec_mint_supply()->Ok_0;
            let pool = ix.accounts.stake_account_main.lamports
                + ix.accounts.stake_account_reserve.lamports;
            &&& plan.len() == 2
            &&& plan[0] == (ActionView::Transfer {
                from: ix.accounts.depositor.key@,
                to: ix.accounts.stake_account_reserve.key@,
                lamports: ix.data.amount_in_lamports,
            })
            &&& plan[1] is MintTo
            &&& plan[1]->MintTo_mint == ix.accounts.lst_mint.key@
            &&& plan[1]->MintTo_account == ix.accounts.depositor_ata.key@
            &&& plan[1]->MintTo_mint_authority == ix.accounts.config_pda.key@
            &&& supply > 0 && pool > 0 ==> plan[1]->MintTo_amount == (ix.data.amount_in_lamports
                * supply) / pool
            &&& supply == 0 || pool == 0 ==> plan[1]->MintTo_amount == ix.data.amount_in_lamports
        }),
{
}

} // verus!
