//! Initialize: sets the pool up once. It writes the configuration record,
//! creates and delegates the main stake account, creates the reserve stake
//! account, makes sure that the mint and the initializer's token account
//! exist, and mints the first claim tokens to the initializer.
use vstd::prelude::*;
use crate::account::{AccountInfo, MINT_LEN};
use crate::action::{extend_plan, outcome_view, plan_view, push_step, Action, ActionView};
use crate::errors::{custom, PinocchioError, ProgramError};
use crate::instructions::helpers::{
    bump_of, expect_address, refusal_or_plan, spec_address_refusal, spec_associated_check,
    spec_associated_init, spec_create_and_initialize, spec_create_signed, spec_delegate_stake,
    spec_initialize_mint, spec_initialize_stake, spec_step_unless_ok, spec_unless_ok, AccountCheck,
    AssociatedTokenAccount, MintAccount, MintInit, ProgramAccount, ProgramAccountInit,
    SignerAccount, StakeAccountCreate, StakeAccountDelegate, StakeAccountInitialize, SystemAccount,
    LAMPORTS_PER_SOL, STAKE_ACCOUNT_SPACE, STAKE_PROGRAM_ID, VOTE_PROGRAM_ID,
};
use crate::pubkey::{
    associated_token_address, associated_token_program_id, config_address, config_seeds,
    find_associated_token_address, find_config_address, find_stake_main_address,
    find_stake_reserve_address, found_view, signer_seeds, spec_config_seeds, spec_signer_seeds,
    spec_stake_main_seeds, spec_stake_reserve_seeds, stake_main_address, stake_main_seeds,
    stake_reserve_address, stake_reserve_seeds, system_program_id, token_program_id, Pubkey,
    ASSOCIATED_TOKEN_PROGRAM_ID, SYSTEM_PROGRAM_ID, TOKEN_PROGRAM_ID,
};
use crate::rent::{lemma_minimum_balance_exact, Rent, MAX_LAMPORTS_PER_BYTE};
use crate::state::{Config, ConfigView};

verus! {

/// Decimals of the claim token.
pub const LST_DECIMALS: u8 = 9;

/// Claim tokens minted to the initializer: one token of nine decimals.
pub const INITIAL_LST_AMOUNT: u64 = 1_000_000_000;

/// The accounts of Initialize, in the order in which the instruction takes
/// them.
pub struct InitializeAccounts<'a> {
    pub initializer: &'a AccountInfo,
    pub initializer_ata: &'a AccountInfo,
    pub config_pda: &'a AccountInfo,
    pub stake_account_main: &'a AccountInfo,
    pub stake_account_reserve: &'a AccountInfo,
    pub lst_mint: &'a AccountInfo,
    pub validator_vote_account: &'a AccountInfo,
    pub unused_account: &'a AccountInfo,
    pub system_program: &'a AccountInfo,
    pub stake_program: &'a AccountInfo,
    pub token_program: &'a AccountInfo,
    pub associated_token_program: &'a AccountInfo,
    pub rent_sysvar: &'a AccountInfo,
    pub clock_sysvar: &'a AccountInfo,
    pub history_sysvar: &'a AccountInfo,
}

/// What the check of an account that is still to be created returns:
/// `InvalidOwner` unless the system program owns it,
/// `AccountAlreadyInitialized` where it holds data.
pub open spec fn spec_check_vacant(account: AccountInfo) -> Result<(), ProgramError> {
    if account.owner@ != SYSTEM_PROGRAM_ID@ {
        Err(custom(PinocchioError::InvalidOwner))
    } else if account.data@.len() != 0 {
        Err(ProgramError::AccountAlreadyInitialized)
    } else {
        Ok(())
    }
}

/// Checks that `account` is still to be created.
pub fn check_vacant(account: &AccountInfo) -> (r: Result<(), ProgramError>)
    ensures
        r == spec_check_vacant(*account),
{
    SystemAccount::check(account)?;
    if account.data.len() != 0 {
        return Err(ProgramError::AccountAlreadyInitialized);
    }
    Ok(())
}

/// What the check of the claim-token mint returns: it passes where the
/// account is a mint of the token program, and where it is still to be
/// created; else it fails as the check of a mint does.
pub open spec fn spec_check_mint(account: AccountInfo) -> Result<(), ProgramError> {
    if MintAccount::spec_check(account) is Ok || spec_check_vacant(account) is Ok {
        Ok(())
    } else {
        MintAccount::spec_check(account)
    }
}

/// Checks that `account` is a mint of the token program or is still to be
/// created.
pub fn check_mint(account: &AccountInfo) -> (r: Result<(), ProgramError>)
    ensures
        r == spec_check_mint(*account),
{
    match MintAccount::check(account) {
        Ok(_) => Ok(()),
        Err(e) => match check_vacant(account) {
            Ok(_) => Ok(()),
            Err(_) => Err(e),
        },
    }
}

impl<'a> InitializeAccounts<'a> {
    /// Number of accounts that the instruction takes.
    pub const COUNT: usize = 15;

    /// Why `accounts` are refused, if they are. In this order:
    /// `NotEnoughAccountKeys` unless there are fifteen; `NotSigner` unless
    /// the initializer and the mint signed; a system or token program that is
    /// not at its address; a config, main stake or reserve stake account that
    /// is not vacant; a mint that neither passes as a mint nor is still to be
    /// created; a validator vote account that the vote program does not own; a
    /// stake or associated token program that is not at its address.
    pub open spec fn spec_refusal(accounts: Seq<AccountInfo>) -> Option<ProgramError> {
        if accounts.len() != Self::COUNT {
            Some(ProgramError::NotEnoughAccountKeys)
        } else if !accounts[0].is_signer || !accounts[5].is_signer {
            Some(custom(PinocchioError::NotSigner))
        } else if accounts[8].key@ != SYSTEM_PROGRAM_ID@ {
            Some(custom(PinocchioError::InvalidSystemProgram))
        } else if accounts[10].key@ != TOKEN_PROGRAM_ID@ {
            Some(custom(PinocchioError::InvalidTokenProgram))
        } else if spec_check_vacant(accounts[2]) is Err {
            Some(spec_check_vacant(accounts[2])->Err_0)
        } else if spec_check_vacant(accounts[3]) is Err {
            Some(spec_check_vacant(accounts[3])->Err_0)
        } else if spec_check_vacant(accounts[4]) is Err {
            Some(spec_check_vacant(accounts[4])->Err_0)
        } else if spec_check_mint(accounts[5]) is Err {
            Some(spec_check_mint(accounts[5])->Err_0)
        } else if accounts[6].owner@ != VOTE_PROGRAM_ID@ {
            Some(custom(PinocchioError::InvalidValidatorVoteAccount))
        } else if accounts[9].key@ != STAKE_PROGRAM_ID@ {
            Some(custom(PinocchioError::InvalidStakeProgram))
        } else if accounts[11].key@ != ASSOCIATED_TOKEN_PROGRAM_ID@ {
            Some(custom(PinocchioError::InvalidAssociatedTokenProgram))
        } else {
            None
        }
    }

    /// The accounts of the instruction taken from `accounts`, or why they
    /// are refused.
    pub open spec fn spec_try_from(accounts: Seq<AccountInfo>) -> Result<
        InitializeAccounts<'a>,
        ProgramError,
    > {
        match Self::spec_refusal(accounts) {
            Some(e) => Err(e),
            None => Ok(
                InitializeAccounts {
                    initializer: &accounts[0],
                    initializer_ata: &accounts[1],
                    config_pda: &accounts[2],
                    stake_account_main: &accounts[3],
                    stake_account_reserve: &accounts[4],
                    lst_mint: &accounts[5],
                    validator_vote_account: &accounts[6],
                    unused_account: &accounts[7],
                    system_program: &accounts[8],
                    stake_program: &accounts[9],
                    token_program: &accounts[10],
                    associated_token_program: &accounts[11],
                    rent_sysvar: &accounts[12],
                    clock_sysvar: &accounts[13],
                    history_sysvar: &accounts[14],
                },
            ),
        }
    }

    /// Takes the accounts of the instruction from `accounts`.
    pub fn try_from(accounts: &'a [AccountInfo]) -> (r: Result<Self, ProgramError>)
        ensures
            r == Self::spec_try_from(accounts@),
    {
        if accounts.len() != Self::COUNT {
            return Err(ProgramError::NotEnoughAccountKeys);
        }
        let initializer = &accounts[0];
        let config_pda = &accounts[2];
        let stake_account_main = &accounts[3];
        let stake_account_reserve = &accounts[4];
        let lst_mint = &accounts[5];
        let validator_vote_account = &accounts[6];
        let system_program = &accounts[8];
        let stake_program = &accounts[9];
        let token_program = &accounts[10];
        let associated_token_program = &accounts[11];
        SignerAccount::check(initializer)?;
        SignerAccount::check(lst_mint)?;
        if !system_program.has_key(&system_program_id()) {
            return Err(PinocchioError::InvalidSystemProgram.into_error());
        }
        if !token_program.has_key(&token_program_id()) {
            return Err(PinocchioError::InvalidTokenProgram.into_error());
        }
        check_vacant(config_pda)?;
        check_vacant(stake_account_main)?;
        check_vacant(stake_account_reserve)?;
        check_mint(lst_mint)?;
        if !validator_vote_account.is_owned_by(&VOTE_PROGRAM_ID) {
            return Err(PinocchioError::InvalidValidatorVoteAccount.into_error());
        }
        if !stake_program.has_key(&STAKE_PROGRAM_ID) {
            return Err(PinocchioError::InvalidStakeProgram.into_error());
        }
        if !associated_token_program.has_key(&associated_token_program_id()) {
            return Err(PinocchioError::InvalidAssociatedTokenProgram.into_error());
        }
        Ok(
            InitializeAccounts {
                initializer,
                initializer_ata: &accounts[1],
                config_pda,
                stake_account_main,
                stake_account_reserve,
                lst_mint,
                validator_vote_account,
                unused_account: &accounts[7],
                system_program,
                stake_program,
                token_program,
                associated_token_program,
                rent_sysvar: &accounts[12],
                clock_sysvar: &accounts[13],
                history_sysvar: &accounts[14],
            },
        )
    }
}

/// The Initialize instruction.
pub struct Initialize<'a> {
    pub accounts: InitializeAccounts<'a>,
}

/// The addresses that Initialize derives.
pub struct InitializeAddresses {
    /// The config address.
    pub config: Option<(Pubkey, u8)>,
    /// The main stake address.
    pub stake_main: Option<(Pubkey, u8)>,
    /// The reserve stake address.
    pub stake_reserve: Option<(Pubkey, u8)>,
    /// The associated token address of the initializer.
    pub initializer_ata: Option<(Pubkey, u8)>,
}

/// The addresses that Initialize derives, as plain values.
pub struct InitializeAddressesView {
    pub config: Option<(Seq<u8>, u8)>,
    pub stake_main: Option<(Seq<u8>, u8)>,
    pub stake_reserve: Option<(Seq<u8>, u8)>,
    pub initializer_ata: Option<(Seq<u8>, u8)>,
}

impl View for InitializeAddresses {
    type V = InitializeAddressesView;

    open spec fn view(&self) -> InitializeAddressesView {
        InitializeAddressesView {
            config: found_view(self.config),
            stake_main: found_view(self.stake_main),
            stake_reserve: found_view(self.stake_reserve),
            initializer_ata: found_view(self.initializer_ata),
        }
    }
}

impl<'a> Initialize<'a> {
    /// Selector of the instruction.
    pub const DISCRIMINATOR: u8 = 0;

    /// The instruction that `accounts` make up, or why they are refused.
    pub open spec fn spec_try_from(accounts: Seq<AccountInfo>) -> Result<
        Initialize<'a>,
        ProgramError,
    > {
        match InitializeAccounts::spec_try_from(accounts) {
            Err(e) => Err(e),
            Ok(accounts) => Ok(Initialize { accounts }),
        }
    }

    /// Takes the instruction from its accounts.
    pub fn try_from(accounts: &'a [AccountInfo]) -> (r: Result<Self, ProgramError>)
        ensures
            r == Self::spec_try_from(accounts@),
    {
        Ok(Initialize { accounts: InitializeAccounts::try_from(accounts)? })
    }

    /// The configuration record that the instruction writes: the
    /// initializer as admin, and the mint, main stake, reserve stake and
    /// validator vote account that it was given.
    pub open spec fn spec_config(self) -> ConfigView {
        ConfigView {
            admin: self.accounts.initializer.key@,
            lst_mint: self.accounts.lst_mint.key@,
            stake_account_main: self.accounts.stake_account_main.key@,
            stake_account_reserve: self.accounts.stake_account_reserve.key@,
            validator_vote_pubkey: self.accounts.validator_vote_account.key@,
        }
    }

    /// The step that creates the config account: the length of the record,
    /// owned by the pool program, paid by the initializer and signed for with
    /// the config seeds.
    pub open spec fn spec_create_config(
        self,
        program_id: Seq<u8>,
        config_bump: u8,
        rent: Rent,
    ) -> Result<ActionView, ProgramError> {
        spec_create_signed(
            program_id,
            Config::LEN,
            0,
            *self.accounts.initializer,
            *self.accounts.config_pda,
            spec_signer_seeds(spec_config_seeds(), config_bump),
            rent,
        )
    }

    /// The step that creates a stake account of the pool at `account`,
    /// paid by the initializer and signed for with `seeds`.
    pub open spec fn spec_create_stake(
        self,
        account: AccountInfo,
        seeds: Seq<Seq<u8>>,
        rent: Rent,
    ) -> Result<ActionView, ProgramError> {
        spec_create_signed(
            STAKE_PROGRAM_ID@,
            STAKE_ACCOUNT_SPACE,
            LAMPORTS_PER_SOL,
            *self.accounts.initializer,
            account,
            seeds,
            rent,
        )
    }

    /// The steps that make sure of the mint: none where the mint passes as
    /// a mint of the token program, else its creation with nine decimals and
    /// the config address as its authority.
    pub open spec fn spec_mint_steps(self, rent: Rent) -> Result<Seq<ActionView>, ProgramError> {
        let a = self.accounts;
        spec_unless_ok(
            MintAccount::spec_check(*a.lst_mint),
            spec_create_and_initialize(
                TOKEN_PROGRAM_ID@,
                MINT_LEN,
                *a.lst_mint,
                *a.initializer,
                rent,
                spec_initialize_mint(*a.lst_mint, LST_DECIMALS, a.config_pda.key@, None),
            ),
        )
    }

    /// The steps that make sure of the initializer's token account: none
    /// where it is a token account at the associated address `ata`, else its
    /// creation.
    pub open spec fn spec_ata_steps(self, ata: Option<(Seq<u8>, u8)>) -> Seq<ActionView> {
        let a = self.accounts;
        spec_step_unless_ok(
            spec_associated_check(*a.initializer_ata, ata),
            spec_associated_init(
                *a.initializer_ata,
                *a.lst_mint,
                *a.initializer,
                *a.initializer,
                *a.system_program,
                *a.token_program,
            ),
        )
    }

    /// Why the instruction is refused, if it is, where `derived` holds what
    /// was derived for the config, main stake and reserve stake address of the
    /// pool program `program_id`. In this order: a config account that is not
    /// at the config address, or whose creation cannot be planned; a main
    /// stake account that is not at its address, or whose creation cannot be
    /// planned; a reserve stake account that is not at its address, or whose
    /// creation cannot be planned; a mint that must be created and whose
    /// creation cannot be planned.
    pub open spec fn spec_refusal(
        self,
        program_id: Seq<u8>,
        derived: InitializeAddressesView,
        rent: Rent,
    ) -> Option<ProgramError> {
        let a = self.accounts;
        let config_refusal = spec_address_refusal(
            derived.config,
            a.config_pda.key@,
            PinocchioError::InvalidConfigPda,
        );
        let create_config = self.spec_create_config(program_id, bump_of(derived.config), rent);
        let main_refusal = spec_address_refusal(
            derived.stake_main,
            a.stake_account_main.key@,
            PinocchioError::InvalidStakeAccountMain,
        );
        let create_main = self.spec_create_stake(
            *a.stake_account_main,
            spec_signer_seeds(spec_stake_main_seeds(), bump_of(derived.stake_main)),
            rent,
        );
        let reserve_refusal = spec_address_refusal(
            derived.stake_reserve,
            a.stake_account_reserve.key@,
            PinocchioError::InvalidStakeAccountReserve,
        );
        let create_reserve = self.spec_create_stake(
            *a.stake_account_reserve,
            spec_signer_seeds(spec_stake_reserve_seeds(), bump_of(derived.stake_reserve)),
            rent,
        );
        if config_refusal is Some {
            config_refusal
        } else if create_config is Err {
            Some(create_config->Err_0)
        } else if main_refusal is Some {
            main_refusal
        } else if create_main is Err {
            Some(create_main->Err_0)
        } else if reserve_refusal is Some {
            reserve_refusal
        } else if create_reserve is Err {
            Some(create_reserve->Err_0)
        } else if self.spec_mint_steps(rent) is Err {
            Some(self.spec_mint_steps(rent)->Err_0)
        } else {
            None
        }
    }

    /// The steps of the instruction, in this order: the creation of the
    /// config account; the writing of the record; the creation of the main
    /// stake account, its initialization with the config address as staker and
    /// withdrawer, and its delegation to the validator; the creation of the
    /// reserve stake account; the steps that make sure of the mint and of the
    /// initializer's token account; the minting of the first claim tokens to
    /// the initializer's token account. The stake calls and the minting are
    /// authorized by the config address.
    pub open spec fn spec_plan(
        self,
        program_id: Seq<u8>,
        derived: InitializeAddressesView,
        rent: Rent,
    ) -> Seq<ActionView> {
        let a = self.accounts;
        let authority = spec_signer_seeds(spec_config_seeds(), bump_of(derived.config));
        seq![
            self.spec_create_config(program_id, bump_of(derived.config), rent)->Ok_0,
            ActionView::WriteConfig { account: a.config_pda.key@, config: self.spec_config() },
            self.spec_create_stake(
                *a.stake_account_main,
                spec_signer_seeds(spec_stake_main_seeds(), bump_of(derived.stake_main)),
                rent,
            )->Ok_0,
            spec_initialize_stake(
                *a.stake_account_main,
                *a.config_pda,
                *a.config_pda,
                *a.rent_sysvar,
                authority,
            ),
            spec_delegate_stake(
                *a.stake_account_main,
                *a.validator_vote_account,
                *a.clock_sysvar,
                *a.history_sysvar,
                *a.unused_account,
                *a.config_pda,
                authority,
            ),
            self.spec_create_stake(
                *a.stake_account_reserve,
                spec_signer_seeds(spec_stake_reserve_seeds(), bump_of(derived.stake_reserve)),
                rent,
            )->Ok_0,
        ] + self.spec_mint_steps(rent)->Ok_0 + self.spec_ata_steps(derived.initializer_ata) + seq![
            ActionView::MintTo {
                mint: a.lst_mint.key@,
                account: a.initializer_ata.key@,
                mint_authority: a.config_pda.key@,
                amount: INITIAL_LST_AMOUNT,
                signer_seeds: authority,
            },
        ]
    }

    /// What the instruction does: its refusal, or its plan.
    pub open spec fn spec_process(
        self,
        program_id: Seq<u8>,
        derived: InitializeAddressesView,
        rent: Rent,
    ) -> Result<Seq<ActionView>, ProgramError> {
        refusal_or_plan(
            self.spec_refusal(program_id, derived, rent),
            self.spec_plan(program_id, derived, rent),
        )
    }

    /// Plans the instruction from addresses that were derived before.
    pub fn process_derived(
        &self,
        program_id: &Pubkey,
        derived: &InitializeAddresses,
        rent: &Rent,
    ) -> (r: Result<Vec<Action>, ProgramError>)
        ensures
            outcome_view(r) == self.spec_process(program_id@, derived@, *rent),
    {
        let a = &self.accounts;
        let config_bump = expect_address(
            derived.config,
            &a.config_pda.key,
            PinocchioError::InvalidConfigPda,
        )?;
        let authority = signer_seeds(config_seeds(), config_bump);
        let create_config = ProgramAccount::init(
            a.initializer,
            a.config_pda,
            &authority,
            Config::LEN,
            program_id,
            rent,
        )?;
        let write_config = Action::WriteConfig {
            account: a.config_pda.key,
            config: Config {
                admin: a.initializer.key,
                lst_mint: a.lst_mint.key,
                stake_account_main: a.stake_account_main.key,
                stake_account_reserve: a.stake_account_reserve.key,
                validator_vote_pubkey: a.validator_vote_account.key,
            },
        };
        let main_bump = expect_address(
            derived.stake_main,
            &a.stake_account_main.key,
            PinocchioError::InvalidStakeAccountMain,
        )?;
        let main_seeds = signer_seeds(stake_main_seeds(), main_bump);
        let create_main = ProgramAccount::stake_account_create(
            a.initializer,
            a.stake_account_main,
            &main_seeds,
            rent,
        )?;
        let initialize_main = ProgramAccount::initialize_stake_account_no_lockup(
            a.stake_account_main,
            a.config_pda,
            a.config_pda,
            a.rent_sysvar,
            &authority,
        );
        let delegate_main = ProgramAccount::delegate_stake_account(
            a.stake_account_main,
            a.validator_vote_account,
            a.clock_sysvar,
            a.history_sysvar,
            a.unused_account,
            a.config_pda,
            &authority,
        );
        let reserve_bump = expect_address(
            derived.stake_reserve,
            &a.stake_account_reserve.key,
            PinocchioError::InvalidStakeAccountReserve,
        )?;
        let reserve_seeds = signer_seeds(stake_reserve_seeds(), reserve_bump);
        let create_reserve = ProgramAccount::stake_account_create(
            a.initializer,
            a.stake_account_reserve,
            &reserve_seeds,
            rent,
        )?;
        let mint_steps = MintAccount::init_if_needed(
            a.lst_mint,
            a.initializer,
            LST_DECIMALS,
            &a.config_pda.key,
            None,
            rent,
        )?;
        let ata_steps = AssociatedTokenAccount::init_if_needed_derived(
            a.initializer_ata,
            a.lst_mint,
            a.initializer,
            a.initializer,
            a.system_program,
            a.token_program,
            derived.initializer_ata,
        );
        let mint_to = Action::MintTo {
            mint: a.lst_mint.key,
            account: a.initializer_ata.key,
            mint_authority: a.config_pda.key,
            amount: INITIAL_LST_AMOUNT,
            signer_seeds: authority,
        };
        let mut plan: Vec<Action> = vec![
            create_config,
            write_config,
            create_main,
            initialize_main,
            delegate_main,
            create_reserve,
        ];
        let ghost head = plan_view(&plan);
        assert(head =~= seq![
            create_config@,
            write_config@,
            create_main@,
            initialize_main@,
            delegate_main@,
            create_reserve@,
        ]);
        extend_plan(&mut plan, mint_steps);
        extend_plan(&mut plan, ata_steps);
        push_step(&mut plan, mint_to);
        assert(plan_view(&plan) =~= self.spec_plan(program_id@, derived@, *rent));
        Ok(plan)
    }

    /// The addresses that the instruction derives for the pool program
    /// `program_id`.
    pub open spec fn spec_addresses(self, program_id: Seq<u8>) -> InitializeAddressesView {
        InitializeAddressesView {
            config: config_address(program_id),
            stake_main: stake_main_address(program_id),
            stake_reserve: stake_reserve_address(program_id),
            initializer_ata: associated_token_address(
                self.accounts.initializer.key@,
                self.accounts.token_program.key@,
                self.accounts.lst_mint.key@,
            ),
        }
    }

    /// Plans the instruction for the pool program `program_id`: derives the
    /// four addresses and goes on as `process_derived`.
    pub fn process(&self, program_id: &Pubkey, rent: &Rent) -> (r: Result<
        Vec<Action>,
        ProgramError,
    >)
        ensures
            outcome_view(r) == self.spec_process(
                program_id@,
                self.spec_addresses(program_id@),
                *rent,
            ),
    {
        let a = &self.accounts;
        let derived = InitializeAddresses {
            config: find_config_address(program_id),
            stake_main: find_stake_main_address(program_id),
            stake_reserve: find_stake_reserve_address(program_id),
            initializer_ata: find_associated_token_address(
                &a.initializer.key,
                &a.token_program.key,
                &a.lst_mint.key,
            ),
        };
        self.process_derived(program_id, &derived, rent)
    }
}

/// A pool is set up once: where the config account is owned by another
/// program than the system program, as it is once it was created, or holds
/// data, the accounts are refused.
pub proof fn lemma_existing_config_is_refused(accounts: Seq<AccountInfo>)
    requires
        accounts.len() == InitializeAccounts::COUNT ==> accounts[2].owner@ != SYSTEM_PROGRAM_ID@
            || accounts[2].data@.len() != 0,
    ensures
        Initialize::spec_try_from(accounts) is Err,
{
}

/// A mint that is still to be created is admitted: fifteen accounts that
/// are refused for nothing else are taken with a mint that signs, is owned by
/// the system program and holds no data; so are they with a mint that exists.
pub proof fn lemma_fresh_or_existing_mint_is_admitted(accounts: Seq<AccountInfo>)
    requires
        accounts.len() == InitializeAccounts::COUNT,
        accounts[0].is_signer,
        accounts[5].is_signer,
        accounts[8].key@ == SYSTEM_PROGRAM_ID@,
        accounts[10].key@ == TOKEN_PROGRAM_ID@,
        spec_check_vacant(accounts[2]) is Ok,
        spec_check_vacant(accounts[3]) is Ok,
        spec_check_vacant(accounts[4]) is Ok,
        accounts[6].owner@ == VOTE_PROGRAM_ID@,
        accounts[9].key@ == STAKE_PROGRAM_ID@,
        accounts[11].key@ == ASSOCIATED_TOKEN_PROGRAM_ID@,
        spec_check_vacant(accounts[5]) is Ok || MintAccount::spec_check(accounts[5]) is Ok,
    ensures
        Initialize::spec_try_from(accounts) is Ok,
        Initialize::spec_try_from(accounts)->Ok_0.accounts.lst_mint == accounts[5],
{
}

/// For a mint that is still to be created, Initialize plans its creation:
/// an account of the length of a mint, owned by the token program and paid by
/// the initializer, and its initialization with nine decimals, the config
/// address as its authority and no freeze authority. For a mint that exists it
/// plans neither.
pub proof fn lemma_fresh_mint_is_created(ix: Initialize, rent: Rent)
    requires
        rent.lamports_per_byte <= MAX_LAMPORTS_PER_BYTE,
    ensures
        MintAccount::spec_check(*ix.accounts.lst_mint) is Ok ==> ix.spec_mint_steps(rent) == Ok::<
            Seq<ActionView>,
            ProgramError,
        >(Seq::empty()),
        spec_check_vacant(*ix.accounts.lst_mint) is Ok ==> ix.spec_mint_steps(rent) == Ok::<
            Seq<ActionView>,
            ProgramError,
        >(
            seq![
                ActionView::CreateAccount {
                    from: ix.accounts.initializer.key@,
                    to: ix.accounts.lst_mint.key@,
                    lamports: ((128 + MINT_LEN) * rent.lamports_per_byte) as u64,
                    space: MINT_LEN as u64,
                    owner: TOKEN_PROGRAM_ID@,
                    signer_seeds: Seq::empty(),
                },
                ActionView::InitializeMint2 {
                    mint: ix.accounts.lst_mint.key@,
                    decimals: LST_DECIMALS,
                    mint_authority: ix.accounts.config_pda.key@,
                    freeze_authority: None,
                },
            ],
        ),
{
    lemma_minimum_balance_exact(rent.lamports_per_byte, MINT_LEN);
    if spec_check_vacant(*ix.accounts.lst_mint) is Ok {
        assert(SYSTEM_PROGRAM_ID@[0] != TOKEN_PROGRAM_ID@[0]);
    }
}

/// Where Initialize is planned, the config, main stake and reserve stake
/// account are at their derived addresses, the first step creates the config
/// account with the length of the record and the pool program as its owner,
/// the second writes the record, no later step writes it again, and the last
/// step mints the first claim tokens.
pub proof fn lemma_initialize_writes_config_once(
    ix: Initialize,
    program_id: Seq<u8>,
    derived: InitializeAddressesView,
    rent: Rent,
)
    requires
        ix.spec_process(program_id, derived, rent) is Ok,
    ensures
        derived.config is Some,
        derived.config->Some_0.0 == ix.accounts.config_pda.key@,
        derived.stake_main is Some,
        derived.stake_main->Some_0.0 == ix.accounts.stake_account_main.key@,
        derived.stake_reserve is Some,
        derived.stake_reserve->Some_0.0 == ix.accounts.stake_account_reserve.key@,
        ({
            let plan = ix.spec_process(program_id, derived, rent)->Ok_0;
            &&& plan.len() >= 7
            &&& plan[0] is CreateAccount
            &&& plan[0]->CreateAccount_to == ix.accounts.config_pda.key@
            &&& plan[0]->CreateAccount_owner == program_id
            &&& plan[0]->CreateAccount_space == Config::LEN
            &&& plan[1] == (ActionView::WriteConfig {
                account: ix.accounts.config_pda.key@,
                config: ix.spec_config(),
            })
            &&& forall|i: int| 2 <= i < plan.len() ==> !(#[trigger] plan[i] is WriteConfig)
            &&& plan.last() == (ActionView::MintTo {
                mint: ix.accounts.lst_mint.key@,
                account: ix.accounts.initializer_ata.key@,
                mint_authority: ix.accounts.config_pda.key@,
                amount: INITIAL_LST_AMOUNT,
                signer_seeds: spec_signer_seeds(spec_config_seeds(), derived.config->Some_0.1),
            })
        }),
{
    let plan = ix.spec_process(program_id, derived, rent)->Ok_0;
    let mint_steps = ix.spec_mint_steps(rent)->Ok_0;
    let ata_steps = ix.spec_ata_steps(derived.initializer_ata);
    assert(mint_steps.len() == 0 || mint_steps.len() == 2);
    assert(ata_steps.len() == 0 || ata_steps.len() == 1);
    assert(plan.len() == 6 + mint_steps.len() + ata_steps.len() + 1);
    assert forall|i: int| 2 <= i < plan.len() implies !(#[trigger] plan[i] is WriteConfig) by {
        if i >= 6 && i < 6 + mint_steps.len() {
            assert(plan[i] == mint_steps[i - 6]);
        } else if i >= 6 + mint_steps.len() && i < plan.len() - 1 {
            assert(plan[i] == ata_steps[i - 6 - mint_steps.len()]);
        }
    }
}

} // verus!
