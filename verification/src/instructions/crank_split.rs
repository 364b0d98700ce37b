//! CrankSplit: carves a withdrawer's exit out of the main stake into a new
//! split stake account, deactivates it and burns the claim tokens it stands
//! for.
use vstd::prelude::*;
use crate::account::AccountInfo;
use crate::action::{outcome_view, plan_view, Action, ActionView};
use crate::bytes::{le_u64, spec_le_u64};
use crate::errors::{custom, PinocchioError, ProgramError};
use crate::exchange::{lst_to_burn, managed_lamports, spec_lst_to_burn, spec_managed_lamports};
use crate::instructions::helpers::{
    bump_of, expect_address, refusal_or_plan, spec_address_refusal, spec_create_signed,
    spec_deactivate_stake, spec_split_stake, step_view, AccountCheck, ProgramAccount, SignerAccount,
    StakeAccountCreate, StakeAccountDeactivate, StakeAccountSplit, LAMPORTS_PER_SOL,
    STAKE_ACCOUNT_SPACE, STAKE_PROGRAM_ID,
};
use crate::pubkey::{
    associated_token_address, config_address, config_seeds, find_associated_token_address,
    find_config_address, find_split_address, found_view, pubkey_eq, signer_seeds, spec_config_seeds,
    spec_signer_seeds, spec_split_seeds, split_address, split_seeds, system_program_id,
    token_program_id, Pubkey, SYSTEM_PROGRAM_ID, TOKEN_PROGRAM_ID,
};
use crate::rent::{lemma_minimum_balance_exact, spec_minimum_balance, Rent, MAX_LAMPORTS_PER_BYTE};
use crate::state::{spec_load, Config};

verus! {

/// The accounts of CrankSplit, in the order in which the instruction takes
/// them.
pub struct CrankSplitAccounts<'a> {
    pub stake_account_main: &'a AccountInfo,
    pub stake_account_reserve: &'a AccountInfo,
    pub withdrawer: &'a AccountInfo,
    pub new_stake_account: &'a AccountInfo,
    pub config_pda: &'a AccountInfo,
    pub withdrawer_ata: &'a AccountInfo,
    pub lst_mint: &'a AccountInfo,
    pub rent_sysvar: &'a AccountInfo,
    pub clock_sysvar: &'a AccountInfo,
    pub token_program: &'a AccountInfo,
    pub stake_program: &'a AccountInfo,
    pub system_program: &'a AccountInfo,
}

impl<'a> CrankSplitAccounts<'a> {
    /// Number of accounts that the instruction takes.
    pub const COUNT: usize = 12;

    /// The accounts of the instruction taken from `accounts`, or why they
    /// are refused: `NotEnoughAccountKeys` unless there are twelve, `NotSigner`
    /// unless the withdrawer signed, then the first of the system, stake and
    /// token program that is not at its address.
    pub open spec fn spec_try_from(accounts: Seq<AccountInfo>) -> Result<
        CrankSplitAccounts<'a>,
        ProgramError,
    > {
        if accounts.len() != Self::COUNT {
            Err(ProgramError::NotEnoughAccountKeys)
        } else if !accounts[2].is_signer {
            Err(custom(PinocchioError::NotSigner))
        } else if accounts[11].key@ != SYSTEM_PROGRAM_ID@ {
            Err(custom(PinocchioError::InvalidSystemProgram))
        } else if accounts[10].key@ != STAKE_PROGRAM_ID@ {
            Err(custom(PinocchioError::InvalidStakeProgram))
        } else if accounts[9].key@ != TOKEN_PROGRAM_ID@ {
            Err(custom(PinocchioError::InvalidTokenProgram))
        } else {
            Ok(
                CrankSplitAccounts {
                    stake_account_main: &accounts[0],
                    stake_account_reserve: &accounts[1],
                    withdrawer: &accounts[2],
                    new_stake_account: &accounts[3],
                    config_pda: &accounts[4],
                    withdrawer_ata: &accounts[5],
                    lst_mint: &accounts[6],
                    rent_sysvar: &accounts[7],
                    clock_sysvar: &accounts[8],
                    token_program: &accounts[9],
                    stake_program: &accounts[10],
                    system_program: &accounts[11],
                },
            )
        }
    }

    /// Takes the accounts of the instruction from `accounts`.
    pub fn try_from(accounts: &'a [AccountInfo]) -> (r: Result<Self, ProgramError>)
        ensures
            r == Self::spec_try_from(accounts@),
    {
        if accounts.len() != Self::COUNT {
            return Err(ProgramError::NotEnoughAccountKeys);
        }
        let withdrawer = &accounts[2];
        let token_program = &accounts[9];
        let stake_program = &accounts[10];
        let system_program = &accounts[11];
        SignerAccount::check(withdrawer)?;
        if !system_program.has_key(&system_program_id()) {
            return Err(PinocchioError::InvalidSystemProgram.into_error());
        }
        if !stake_program.has_key(&STAKE_PROGRAM_ID) {
            return Err(PinocchioError::InvalidStakeProgram.into_error());
        }
        if !token_program.has_key(&token_program_id()) {
            return Err(PinocchioError::InvalidTokenProgram.into_error());
        }
        Ok(
            CrankSplitAccounts {
                stake_account_main: &accounts[0],
                stake_account_reserve: &accounts[1],
                withdrawer,
                new_stake_account: &accounts[3],
                config_pda: &accounts[4],
                withdrawer_ata: &accounts[5],
                lst_mint: &accounts[6],
                rent_sysvar: &accounts[7],
                clock_sysvar: &accounts[8],
                token_program,
                stake_program,
                system_program,
            },
        )
    }
}

/// The payload of CrankSplit.
#[derive(Clone, Copy, Debug, PartialEq, Eq, Structural)]
pub struct CrankSplitInstructionData {
    /// Lamports to split off the main stake.
    pub lamports_to_split: u64,
    /// Number that tells the withdrawer's exits apart.
    pub nonce: u64,
}

/// The least amount that may be split off at the rent rate of `rent`: the
/// rent-exempt minimum of a stake account and one SOL; `None` where the rate
/// is above its limit.
pub open spec fn spec_minimum_split(rent: Rent) -> Option<u64> {
    match spec_minimum_balance(rent.lamports_per_byte, STAKE_ACCOUNT_SPACE) {
        None => None,
        Some(minimum) => Some((minimum + LAMPORTS_PER_SOL) as u64),
    }
}

/// The rent-exempt minimum of a stake account and one SOL fit in 64 bits.
pub proof fn lemma_minimum_split_fits(rent: Rent)
    ensures
        match spec_minimum_balance(rent.lamports_per_byte, STAKE_ACCOUNT_SPACE) {
            None => rent.lamports_per_byte > MAX_LAMPORTS_PER_BYTE,
            Some(minimum) => minimum + LAMPORTS_PER_SOL <= u64::MAX && minimum == 328
                * rent.lamports_per_byte,
        },
{
    if rent.lamports_per_byte <= MAX_LAMPORTS_PER_BYTE {
        lemma_minimum_balance_exact(rent.lamports_per_byte, STAKE_ACCOUNT_SPACE);
    }
}

/// Computes the least amount that may be split off.
pub fn minimum_split(rent: &Rent) -> (r: Option<u64>)
    ensures
        r == spec_minimum_split(*rent),
{
    match rent.minimum_balance(STAKE_ACCOUNT_SPACE) {
        None => None,
        Some(minimum) => {
            proof {
                lemma_minimum_split_fits(*rent);
            }
            Some(minimum + LAMPORTS_PER_SOL)
        },
    }
}

impl CrankSplitInstructionData {
    /// Length of the payload in bytes.
    pub const LEN: usize = 16;

    /// The payload that `data` holds, or why it is refused:
    /// `InvalidInstructionData` unless there are sixteen bytes,
    /// `InvalidArgument` where the rent rate is above its limit,
    /// `SplitBelowMinimum` where the amount is below the minimum; else the
    /// amount and the nonce, each in eight little-endian bytes.
    pub open spec fn spec_try_from(data: Seq<u8>, rent: Rent) -> Result<
        CrankSplitInstructionData,
        ProgramError,
    > {
        if data.len() != Self::LEN {
            Err(ProgramError::InvalidInstructionData)
        } else {
            match spec_minimum_split(rent) {
                None => Err(ProgramError::InvalidArgument),
                Some(minimum) => if spec_le_u64(data.subrange(0, 8)) < minimum {
                    Err(custom(PinocchioError::SplitBelowMinimum))
                } else {
                    Ok(
                        CrankSplitInstructionData {
                            lamports_to_split: spec_le_u64(data.subrange(0, 8)),
                            nonce: spec_le_u64(data.subrange(8, 16)),
                        },
                    )
                },
            }
        }
    }

    /// Reads the payload from `data`.
    pub fn try_from(data: &[u8], rent: &Rent) -> (r: Result<Self, ProgramError>)
        ensures
            r == Self::spec_try_from(data@, *rent),
    {
        if data.len() != Self::LEN {
            return Err(ProgramError::InvalidInstructionData);
        }
        let lamports_to_split = le_u64(data, 0);
        let nonce = le_u64(data, 8);
        match minimum_split(rent) {
            None => Err(ProgramError::InvalidArgument),
            Some(minimum) => {
                if lamports_to_split < minimum {
                    Err(PinocchioError::SplitBelowMinimum.into_error())
                } else {
                    Ok(CrankSplitInstructionData { lamports_to_split, nonce })
                }
            },
        }
    }
}

/// The CrankSplit instruction: its accounts and its payload.
pub struct CrankSplit<'a> {
    pub accounts: CrankSplitAccounts<'a>,
    pub data: CrankSplitInstructionData,
}

impl<'a> CrankSplit<'a> {
    /// Selector of the instruction.
    pub const DISCRIMINATOR: u8 = 4;

    /// The instruction that `accounts` and `data` make up: the failure of
    /// the accounts where they are refused, else that of the payload.
    pub open spec fn spec_try_from(data: Seq<u8>, accounts: Seq<AccountInfo>, rent: Rent) -> Result<
        CrankSplit<'a>,
        ProgramError,
    > {
        match CrankSplitAccounts::spec_try_from(accounts) {
            Err(e) => Err(e),
            Ok(accounts) => match CrankSplitInstructionData::spec_try_from(data, rent) {
                Err(e) => Err(e),
                Ok(data) => Ok(CrankSplit { accounts, data }),
            },
        }
    }

    /// Takes the instruction from its accounts and its payload.
    pub fn try_from(data: &[u8], accounts: &'a [AccountInfo], rent: &Rent) -> (r: Result<
        Self,
        ProgramError,
    >)
        ensures
            r == Self::spec_try_from(data@, accounts@, *rent),
    {
        let accounts = CrankSplitAccounts::try_from(accounts)?;
        let data = CrankSplitInstructionData::try_from(data, rent)?;
        Ok(CrankSplit { accounts, data })
    }

    /// The step that creates the split stake account: 200 bytes owned by the
    /// stake program, paid by the withdrawer with the rent-exempt minimum and
    /// one SOL, and signed for with the split seeds.
    pub open spec fn spec_create(self, split_bump: u8, rent: Rent) -> Result<
        ActionView,
        ProgramError,
    > {
        spec_create_signed(
            STAKE_PROGRAM_ID@,
            STAKE_ACCOUNT_SPACE,
            LAMPORTS_PER_SOL,
            *self.accounts.withdrawer,
            *self.accounts.new_stake_account,
            spec_signer_seeds(
                spec_split_seeds(self.accounts.withdrawer.key@, self.data.nonce),
                split_bump,
            ),
            rent,
        )
    }

    /// Why the first part of the instruction is refused, if it is, where
    /// `config`, `ata` and `split` are what was derived for the config
    /// address, for the withdrawer's associated token address and for the
    /// split address of withdrawer and nonce. In this order: a config account
    /// that is not at the config address; a config record that cannot be
    /// loaded; a main stake account, a reserve stake account, a mint that is
    /// not the one of the record; a token account that is not at the
    /// associated address; a split account that is not at the split address;
    /// `AccountAlreadyInitialized` where the split account holds data, as it
    /// does once a split for this withdrawer and nonce was made; a split
    /// account whose creation cannot be planned.
    pub open spec fn spec_refusal(
        self,
        config: Option<(Seq<u8>, u8)>,
        ata: Option<(Seq<u8>, u8)>,
        split: Option<(Seq<u8>, u8)>,
        rent: Rent,
    ) -> Option<ProgramError> {
        let a = self.accounts;
        let config_refusal = spec_address_refusal(
            config,
            a.config_pda.key@,
            PinocchioError::InvalidConfigPda,
        );
        let record = spec_load(a.config_pda.data@);
        let ata_refusal = spec_address_refusal(
            ata,
            a.withdrawer_ata.key@,
            PinocchioError::InvalidWithdrawerAta,
        );
        let split_refusal = spec_address_refusal(
            split,
            a.new_stake_account.key@,
            PinocchioError::InvalidSplitAccountPda,
        );
        if config_refusal is Some {
            config_refusal
        } else if record is Err {
            Some(record->Err_0)
        } else if record->Ok_0.stake_account_main != a.stake_account_main.key@ {
            Some(custom(PinocchioError::InvalidStakeAccountMain))
        } else if record->Ok_0.stake_account_reserve != a.stake_account_reserve.key@ {
            Some(custom(PinocchioError::InvalidStakeAccountReserve))
        } else if record->Ok_0.lst_mint != a.lst_mint.key@ {
            Some(custom(PinocchioError::InvalidLstMint))
        } else if ata_refusal is Some {
            ata_refusal
        } else if split_refusal is Some {
            split_refusal
        } else if a.new_stake_account.data@.len() != 0 {
            Some(ProgramError::AccountAlreadyInitialized)
        } else if self.spec_create(bump_of(split), rent) is Err {
            Some(self.spec_create(bump_of(split), rent)->Err_0)
        } else {
            None
        }
    }

    /// The three steps of the first part: create the split stake account;
    /// split the amount off the main stake account into it; deactivate it.
    /// The last two are authorized by the config address.
    pub open spec fn spec_plan(self, config_bump: u8, split_bump: u8, rent: Rent) -> Seq<
        ActionView,
    > {
        let a = self.accounts;
        let authority = spec_signer_seeds(spec_config_seeds(), config_bump);
        seq![
            self.spec_create(split_bump, rent)->Ok_0,
            spec_split_stake(
                *a.stake_account_main,
                *a.new_stake_account,
                self.data.lamports_to_split,
                *a.config_pda,
                authority,
            ),
            spec_deactivate_stake(*a.new_stake_account, *a.clock_sysvar, *a.config_pda, authority),
        ]
    }

    /// What the first part of the instruction does: its refusal, or its
    /// plan.
    pub open spec fn spec_process(
        self,
        config: Option<(Seq<u8>, u8)>,
        ata: Option<(Seq<u8>, u8)>,
        split: Option<(Seq<u8>, u8)>,
        rent: Rent,
    ) -> Result<Seq<ActionView>, ProgramError> {
        refusal_or_plan(
            self.spec_refusal(config, ata, split, rent),
            self.spec_plan(bump_of(config), bump_of(split), rent),
        )
    }

    /// Plans the first part of the instruction from addresses that were
    /// derived before.
    pub fn process_derived(
        &self,
        config: Option<(Pubkey, u8)>,
        ata: Option<(Pubkey, u8)>,
        split: Option<(Pubkey, u8)>,
        rent: &Rent,
    ) -> (r: Result<Vec<Action>, ProgramError>)
        ensures
            outcome_view(r) == self.spec_process(
                found_view(config),
                found_view(ata),
                found_view(split),
                *rent,
            ),
    {
        let a = &self.accounts;
        let config_bump = expect_address(
            config,
            &a.config_pda.key,
            PinocchioError::InvalidConfigPda,
        )?;
        let record = Config::load(a.config_pda.data.as_slice())?;
        if !pubkey_eq(&record.stake_account_main, &a.stake_account_main.key) {
            return Err(PinocchioError::InvalidStakeAccountMain.into_error());
        }
        if !pubkey_eq(&record.stake_account_reserve, &a.stake_account_reserve.key) {
            return Err(PinocchioError::InvalidStakeAccountReserve.into_error());
        }
        if !pubkey_eq(&record.lst_mint, &a.lst_mint.key) {
            return Err(PinocchioError::InvalidLstMint.into_error());
        }
        let _ = expect_address(ata, &a.withdrawer_ata.key, PinocchioError::InvalidWithdrawerAta)?;
        let split_bump = expect_address(
            split,
            &a.new_stake_account.key,
            PinocchioError::InvalidSplitAccountPda,
        )?;
        if a.new_stake_account.data.len() != 0 {
            return Err(ProgramError::AccountAlreadyInitialized);
        }
        let authority = signer_seeds(config_seeds(), config_bump);
        let new_stake_seeds = signer_seeds(
            split_seeds(&a.withdrawer.key, self.data.nonce),
            split_bump,
        );
        let create = ProgramAccount::stake_account_create(
            a.withdrawer,
            a.new_stake_account,
            &new_stake_seeds,
            rent,
        )?;
        let split_off = ProgramAccount::split_stake_account(
            a.stake_account_main,
            a.new_stake_account,
            self.data.lamports_to_split,
            a.config_pda,
            &authority,
        );
        let deactivate = ProgramAccount::deactivate_stake_account(
            a.new_stake_account,
            a.clock_sysvar,
            a.config_pda,
            &authority,
        );
        let plan: Vec<Action> = vec![create, split_off, deactivate];
        assert(plan_view(&plan) =~= seq![create@, split_off@, deactivate@]);
        Ok(plan)
    }

    /// Plans the first part of the instruction for the pool program
    /// `program_id`: derives the config address, the withdrawer's associated
    /// token address and the split address, and goes on as `process_derived`.
    pub fn process(&self, program_id: &Pubkey, rent: &Rent) -> (r: Result<
        Vec<Action>,
        ProgramError,
    >)
        ensures
            outcome_view(r) == self.spec_process(
                config_address(program_id@),
                associated_token_address(
                    self.accounts.withdrawer.key@,
                    self.accounts.token_program.key@,
                    self.accounts.lst_mint.key@,
                ),
                split_address(self.accounts.withdrawer.key@, self.data.nonce, program_id@),
                *rent,
            ),
    {
        let a = &self.accounts;
        let config = find_config_address(program_id);
        let ata = find_associated_token_address(
            &a.withdrawer.key,
            &a.token_program.key,
            &a.lst_mint.key,
        );
        let split = find_split_address(&a.withdrawer.key, self.data.nonce, program_id);
        self.process_derived(config, ata, split, rent)
    }

    /// The lamports that the pool manages once the split was made: the
    /// balances of the main, the reserve and the split stake account.
    pub open spec fn spec_managed(self) -> int {
        spec_managed_lamports(
            self.accounts.stake_account_main.lamports,
            self.accounts.stake_account_reserve.lamports,
            self.accounts.new_stake_account.lamports,
        )
    }

    /// The claim tokens to burn: the share of the supply that the amount
    /// split off is of the lamports that the pool manages, rounded down.
    pub open spec fn spec_burn_amount(self) -> int {
        spec_lst_to_burn(
            self.data.lamports_to_split,
            self.accounts.lst_mint.spec_mint_supply()->Ok_0,
            self.spec_managed() as u64,
        )
    }

    /// Why the second part of the instruction is refused, if it is, on the
    /// accounts as they are once the split was made. In this order: a mint
    /// whose supply cannot be read; `ArithmeticOverflow` where the managed
    /// lamports leave the 64-bit range or are zero, or the tokens to burn
    /// leave the 64-bit range; a token account whose amount cannot be read;
    /// `InsufficientLstBalance` where the withdrawer holds fewer tokens than
    /// are to be burned.
    pub open spec fn spec_settle_refusal(self) -> Option<ProgramError> {
        let a = self.accounts;
        let supply = a.lst_mint.spec_mint_supply();
        let balance = a.withdrawer_ata.spec_token_amount();
        if supply is Err {
            Some(supply->Err_0)
        } else if self.spec_managed() > u64::MAX || self.spec_managed() == 0
            || self.spec_burn_amount() > u64::MAX {
            Some(ProgramError::ArithmeticOverflow)
        } else if balance is Err {
            Some(balance->Err_0)
        } else if balance->Ok_0 < self.spec_burn_amount() {
            Some(custom(PinocchioError::InsufficientLstBalance))
        } else {
            None
        }
    }

    /// What the second part of the instruction does: its refusal, or the
    /// burn of the tokens from the withdrawer's token account, authorized by
    /// the withdrawer.
    pub open spec fn spec_settle(self) -> Result<ActionView, ProgramError> {
        match self.spec_settle_refusal() {
            Some(e) => Err(e),
            None => Ok(
                ActionView::Burn {
                    account: self.accounts.withdrawer_ata.key@,
                    mint: self.accounts.lst_mint.key@,
                    authority: self.accounts.withdrawer.key@,
                    amount: self.spec_burn_amount() as u64,
                },
            ),
        }
    }

    /// Plans the second part of the instruction: the burn.
    pub fn settle(&self) -> (r: Result<Action, ProgramError>)
        ensures
            step_view(r) == self.spec_settle(),
    {
        let a = &self.accounts;
        let supply = a.lst_mint.mint_supply()?;
        let managed = managed_lamports(
            a.stake_account_main.lamports,
            a.stake_account_reserve.lamports,
            a.new_stake_account.lamports,
        )?;
        let burn = lst_to_burn(self.data.lamports_to_split, supply, managed)?;
        let balance = a.withdrawer_ata.token_amount()?;
        if balance < burn {
            return Err(PinocchioError::InsufficientLstBalance.into_error());
        }
        Ok(
            Action::Burn {
                account: a.withdrawer_ata.key,
                mint: a.lst_mint.key,
                authority: a.withdrawer.key,
                amount: burn,
            },
        )
    }
}

/// An amount below the rent-exempt minimum of a stake account and one SOL
/// is refused, whatever the nonce.
pub proof fn lemma_split_below_minimum_is_refused(data: Seq<u8>, rent: Rent)
    requires
        data.len() == CrankSplitInstructionData::LEN,
        rent.lamports_per_byte <= MAX_LAMPORTS_PER_BYTE,
        spec_le_u64(data.subrange(0, 8)) < 328 * rent.lamports_per_byte + LAMPORTS_PER_SOL,
    ensures
        CrankSplitInstructionData::spec_try_from(data, rent) == Err::<
            CrankSplitInstructionData,
            ProgramError,
        >(custom(PinocchioError::SplitBelowMinimum)),
{
    lemma_minimum_split_fits(rent);
}

/// An amount of at least the rent-exempt minimum of a stake account and
/// one SOL is accepted with its nonce.
pub proof fn lemma_split_from_minimum_is_accepted(data: Seq<u8>, rent: Rent)
    requires
        data.len() == CrankSplitInstructionData::LEN,
        rent.lamports_per_byte <= MAX_LAMPORTS_PER_BYTE,
        spec_le_u64(data.subrange(0, 8)) >= 328 * rent.lamports_per_byte + LAMPORTS_PER_SOL,
    ensures
        CrankSplitInstructionData::spec_try_from(data, rent) == Ok::<
            CrankSplitInstructionData,
            ProgramError,
        >(
            CrankSplitInstructionData {
                lamports_to_split: spec_le_u64(data.subrange(0, 8)),
                nonce: spec_le_u64(data.subrange(8, 16)),
            },
        ),
{
    lemma_minimum_split_fits(rent);
}

/// A split that is planned begins with the creation of its split stake
/// account, and that account is at the address derived for withdrawer and
/// nonce.
pub proof fn lemma_split_creates_derived_account(
    ix: CrankSplit,
    config: Option<(Seq<u8>, u8)>,
    ata: Option<(Seq<u8>, u8)>,
    split: Option<(Seq<u8>, u8)>,
    rent: Rent,
)
    requires
        ix.spec_process(config, ata, split, rent) is Ok,
    ensures
        split is Some,
        split->Some_0.0 == ix.accounts.new_stake_account.key@,
        ix.accounts.new_stake_account.data@.len() == 0,
        ix.spec_process(config, ata, split, rent)->Ok_0.len() == 3,
        ix.spec_process(config, ata, split, rent)->Ok_0[0] is CreateAccount,
        ix.spec_process(config, ata, split, rent)->Ok_0[0]->CreateAccount_to
            == ix.accounts.new_stake_account.key@,
{
}

/// A split whose split stake account holds data is refused, whatever else
/// holds: while the account of a split exists, no second split is made into
/// it.
pub proof fn lemma_existing_split_account_is_refused(
    ix: CrankSplit,
    config: Option<(Seq<u8>, u8)>,
    ata: Option<(Seq<u8>, u8)>,
    split: Option<(Seq<u8>, u8)>,
    rent: Rent,
)
    requires
        ix.accounts.new_stake_account.data@.len() != 0,
    ensures
        ix.spec_process(config, ata, split, rent) is Err,
{
}

/// One withdrawer and one nonce give one split stake account: two splits
/// for the same pair under one pool program that are both planned begin with
/// the creation of the same account, and that account holds no data before
/// either. So the second is refused while the account of the first exists.
pub proof fn lemma_one_split_account_per_nonce(
    first: CrankSplit,
    second: CrankSplit,
    program_id: Seq<u8>,
    first_config: Option<(Seq<u8>, u8)>,
    first_ata: Option<(Seq<u8>, u8)>,
    first_rent: Rent,
    second_config: Option<(Seq<u8>, u8)>,
    second_ata: Option<(Seq<u8>, u8)>,
    second_rent: Rent,
)
    requires
        first.accounts.withdrawer.key@ == second.accounts.withdrawer.key@,
        first.data.nonce == second.data.nonce,
        first.spec_process(
            first_config,
            first_ata,
            split_address(first.accounts.withdrawer.key@, first.data.nonce, program_id),
            first_rent,
        ) is Ok,
        second.spec_process(
            second_config,
            second_ata,
            split_address(second.accounts.withdrawer.key@, second.data.nonce, program_id),
            second_rent,
        ) is Ok,
    ensures
        first.accounts.new_stake_account.key@ == second.accounts.new_stake_account.key@,
        first.accounts.new_stake_account.data@.len() == 0,
        second.accounts.new_stake_account.data@.len() == 0,
        first.spec_process(
            first_config,
            first_ata,
            split_address(first.accounts.withdrawer.key@, first.data.nonce, program_id),
            first_rent,
        )->Ok_0[0]->CreateAccount_to == second.spec_process(
            second_config,
            second_ata,
            split_address(second.accounts.withdrawer.key@, second.data.nonce, program_id),
            second_rent,
        )->Ok_0[0]->CreateAccount_to,
{
    let split = split_address(first.accounts.withdrawer.key@, first.data.nonce, program_id);
    lemma_split_creates_derived_account(first, first_config, first_ata, split, first_rent);
    lemma_split_creates_derived_account(second, second_config, second_ata, split, second_rent);
}

/// A withdrawer who holds fewer claim tokens than must be burned is
/// refused, and nothing is burned; one who holds enough burns exactly the
/// rounded-down share.
pub proof fn lemma_burn_needs_balance(ix: CrankSplit, supply: u64, balance: u64)
    requires
        ix.accounts.lst_mint.spec_mint_supply() == Ok::<u64, ProgramError>(supply),
        ix.accounts.withdrawer_ata.spec_token_amount() == Ok::<u64, ProgramError>(balance),
        0 < ix.spec_managed() <= u64::MAX,
        ix.spec_burn_amount() <= u64::MAX,
    ensures
        ix.spec_burn_amount() == (ix.data.lamports_to_split * supply) / ix.spec_managed(),
        balance < ix.spec_burn_amount() ==> ix.spec_settle() == Err::<ActionView, ProgramError>(
            custom(PinocchioError::InsufficientLstBalance),
        ),
        balance >= ix.spec_burn_amount() ==> ix.spec_settle() is Ok
            && ix.spec_settle()->Ok_0 is Burn && ix.spec_settle()->Ok_0->Burn_amount
            == ix.spec_burn_amount(),
{
}

} // verus!
