//! Checks on accounts and the calls that create and drive them.
use vstd::prelude::*;
use crate::account::{mint_len, token_len, AccountInfo, MINT_LEN, TOKEN_ACCOUNT_LEN};
use crate::action::{
    meta_of, metas_view, optional_key_view, outcome_view, plan_view, AccountMeta, AccountMetaView,
    Action, ActionView,
};
use crate::bytes::{spec_u32_le_bytes, spec_u64_le_bytes, u32_le_bytes, u64_le_bytes};
use crate::errors::{custom, PinocchioError, ProgramError};
use crate::pubkey::{
    append_pubkey, associated_token_address, find_associated_token_address, found_view, pubkey_eq,
    seeds_view, system_program_id, token_program_id, Pubkey, SYSTEM_PROGRAM_ID, TOKEN_PROGRAM_ID,
};
use crate::rent::{
    lemma_minimum_balance_exact, spec_minimum_balance, Rent, MAX_LAMPORTS_PER_BYTE,
    MAX_PERMITTED_DATA_LENGTH,
};

verus! {

/// Address of the token program with extensions.
pub const TOKEN_2022_PROGRAM_ID: Pubkey = [
    0x06, 0xdd, 0xf6, 0xe1, 0xee, 0x75, 0x8f, 0xde, 0x18, 0x42, 0x5d, 0xbc, 0xe4, 0x6c, 0xcd, 0xda,
    0xb6, 0x1a, 0xfc, 0x4d, 0x83, 0xb9, 0x0d, 0x27, 0xfe, 0xbd, 0xf9, 0x28, 0xd8, 0xa1, 0x8b, 0xfc,
];

/// Offset of the byte that tells a mint from a token account where a record
/// of the token program with extensions is longer than a mint.
pub const TOKEN_2022_ACCOUNT_DISCRIMINATOR_OFFSET: usize = 165;

/// Value of that byte in a mint.
pub const TOKEN_2022_MINT_DISCRIMINATOR: u8 = 0x01;

/// Value of that byte in a token account.
pub const TOKEN_2022_TOKEN_ACCOUNT_DISCRIMINATOR: u8 = 0x02;

/// Address of the stake program.
pub const STAKE_PROGRAM_ID: Pubkey = [
    6, 161, 216, 23, 145, 55, 84, 42, 152, 52, 55, 189, 254, 42, 122, 178, 85, 127, 83, 92, 138,
    120, 114, 43, 104, 164, 157, 192, 0, 0, 0, 0,
];

/// Address of the vote program.
pub const VOTE_PROGRAM_ID: Pubkey = [
    7, 97, 72, 29, 53, 116, 116, 187, 124, 77, 118, 36, 235, 211, 189, 179, 216, 53, 94, 115, 209,
    16, 67, 252, 13, 163, 83, 128, 0, 0, 0, 0,
];

/// Number of lamports in one SOL.
pub const LAMPORTS_PER_SOL: u64 = 1_000_000_000;

/// Space of a stake account in bytes.
pub const STAKE_ACCOUNT_SPACE: usize = 200;

/// A check of one account, which passes or names what is wrong.
pub trait AccountCheck {
    /// What the check returns for `account`.
    spec fn spec_check(account: AccountInfo) -> Result<(), ProgramError>;

    /// Checks `account`.
    fn check(account: &AccountInfo) -> (r: Result<(), ProgramError>)
        ensures
            r == Self::spec_check(*account),
    ;
}

/// Whether `data` is a record of the token program with extensions of the
/// kind that `tag` stands for: a plain record of `plain_len` bytes, or one
/// longer than 165 bytes with `tag` at offset 165.
pub open spec fn extended_record(data: Seq<u8>, plain_len: usize, tag: u8) -> bool {
    data.len() == plain_len || (data.len() > TOKEN_2022_ACCOUNT_DISCRIMINATOR_OFFSET && data[165]
        == tag)
}

fn is_extended_record(data: &Vec<u8>, plain_len: usize, tag: u8) -> (r: bool)
    ensures
        r == extended_record(data@, plain_len, tag),
{
    if data.len() != plain_len {
        if data.len() <= TOKEN_2022_ACCOUNT_DISCRIMINATOR_OFFSET {
            return false;
        }
        if data[TOKEN_2022_ACCOUNT_DISCRIMINATOR_OFFSET] != tag {
            return false;
        }
    }
    true
}

/// An account that must have signed.
pub struct SignerAccount;

impl AccountCheck for SignerAccount {
    /// `NotSigner` unless the account signed.
    open spec fn spec_check(account: AccountInfo) -> Result<(), ProgramError> {
        if !account.is_signer {
            Err(custom(PinocchioError::NotSigner))
        } else {
            Ok(())
        }
    }

    fn check(account: &AccountInfo) -> (r: Result<(), ProgramError>) {
        if !account.is_signer {
            return Err(PinocchioError::NotSigner.into_error());
        }
        Ok(())
    }
}

/// An account that the system program must own.
pub struct SystemAccount;

impl AccountCheck for SystemAccount {
    /// `InvalidOwner` unless the system program owns the account.
    open spec fn spec_check(account: AccountInfo) -> Result<(), ProgramError> {
        if account.owner@ != SYSTEM_PROGRAM_ID@ {
            Err(custom(PinocchioError::InvalidOwner))
        } else {
            Ok(())
        }
    }

    fn check(account: &AccountInfo) -> (r: Result<(), ProgramError>) {
        if !account.is_owned_by(&system_program_id()) {
            return Err(PinocchioError::InvalidOwner.into_error());
        }
        Ok(())
    }
}

/// A mint of the token program.
pub struct MintAccount;

impl AccountCheck for MintAccount {
    /// `InvalidOwner` unless the token program owns the account, then
    /// `InvalidAccountData` unless it has the length of a mint.
    open spec fn spec_check(account: AccountInfo) -> Result<(), ProgramError> {
        if account.owner@ != TOKEN_PROGRAM_ID@ {
            Err(custom(PinocchioError::InvalidOwner))
        } else if account.data@.len() != MINT_LEN {
            Err(custom(PinocchioError::InvalidAccountData))
        } else {
            Ok(())
        }
    }

    fn check(account: &AccountInfo) -> (r: Result<(), ProgramError>) {
        if !account.is_owned_by(&token_program_id()) {
            return Err(PinocchioError::InvalidOwner.into_error());
        }
        if account.data.len() != mint_len() {
            return Err(PinocchioError::InvalidAccountData.into_error());
        }
        Ok(())
    }
}

/// A token account of the token program.
pub struct TokenAccount;

impl AccountCheck for TokenAccount {
    /// `InvalidOwner` unless the token program owns the account, then
    /// `InvalidAccountData` unless it has the length of a token account.
    open spec fn spec_check(account: AccountInfo) -> Result<(), ProgramError> {
        if account.owner@ != TOKEN_PROGRAM_ID@ {
            Err(custom(PinocchioError::InvalidOwner))
        } else if account.data@.len() != TOKEN_ACCOUNT_LEN {
            Err(custom(PinocchioError::InvalidAccountData))
        } else {
            Ok(())
        }
    }

    fn check(account: &AccountInfo) -> (r: Result<(), ProgramError>) {
        if !account.is_owned_by(&token_program_id()) {
            return Err(PinocchioError::InvalidOwner.into_error());
        }
        if account.data.len() != token_len() {
            return Err(PinocchioError::InvalidAccountData.into_error());
        }
        Ok(())
    }
}

/// A mint of the token program with extensions.
pub struct Mint2022Account;

impl AccountCheck for Mint2022Account {
    /// `InvalidOwner` unless the token program with extensions owns the
    /// account, then `InvalidAccountData` unless its data is a mint's.
    open spec fn spec_check(account: AccountInfo) -> Result<(), ProgramError> {
        if account.owner@ != TOKEN_2022_PROGRAM_ID@ {
            Err(custom(PinocchioError::InvalidOwner))
        } else if !extended_record(account.data@, MINT_LEN, TOKEN_2022_MINT_DISCRIMINATOR) {
            Err(custom(PinocchioError::InvalidAccountData))
        } else {
            Ok(())
        }
    }

    fn check(account: &AccountInfo) -> (r: Result<(), ProgramError>) {
        if !account.is_owned_by(&TOKEN_2022_PROGRAM_ID) {
            return Err(PinocchioError::InvalidOwner.into_error());
        }
        if !is_extended_record(&account.data, mint_len(), TOKEN_2022_MINT_DISCRIMINATOR) {
            return Err(PinocchioError::InvalidAccountData.into_error());
        }
        Ok(())
    }
}

/// A token account of the token program with extensions.
pub struct TokenAccount2022Account;

impl AccountCheck for TokenAccount2022Account {
    /// `InvalidOwner` unless the token program with extensions owns the
    /// account, then `InvalidAccountData` unless its data is a token
    /// account's.
    open spec fn spec_check(account: AccountInfo) -> Result<(), ProgramError> {
        if account.owner@ != TOKEN_2022_PROGRAM_ID@ {
            Err(custom(PinocchioError::InvalidOwner))
        } else if !extended_record(
            account.data@,
            TOKEN_ACCOUNT_LEN,
            TOKEN_2022_TOKEN_ACCOUNT_DISCRIMINATOR,
        ) {
            Err(custom(PinocchioError::InvalidAccountData))
        } else {
            Ok(())
        }
    }

    fn check(account: &AccountInfo) -> (r: Result<(), ProgramError>) {
        if !account.is_owned_by(&TOKEN_2022_PROGRAM_ID) {
            return Err(PinocchioError::InvalidOwner.into_error());
        }
        if !is_extended_record(
            &account.data,
            token_len(),
            TOKEN_2022_TOKEN_ACCOUNT_DISCRIMINATOR,
        ) {
            return Err(PinocchioError::InvalidAccountData.into_error());
        }
        Ok(())
    }
}

/// A mint of either token program.
pub struct MintInterface;

impl AccountCheck for MintInterface {
    /// What the check of the owning token program returns; `InvalidOwner`
    /// where neither owns the account.
    open spec fn spec_check(account: AccountInfo) -> Result<(), ProgramError> {
        if account.owner@ == TOKEN_2022_PROGRAM_ID@ {
            Mint2022Account::spec_check(account)
        } else {
            MintAccount::spec_check(account)
        }
    }

    fn check(account: &AccountInfo) -> (r: Result<(), ProgramError>) {
        if !account.is_owned_by(&TOKEN_2022_PROGRAM_ID) {
            MintAccount::check(account)
        } else {
            Mint2022Account::check(account)
        }
    }
}

/// A token account of either token program.
pub struct TokenAccountInterface;

impl AccountCheck for TokenAccountInterface {
    /// What the check of the owning token program returns; `InvalidOwner`
    /// where neither owns the account.
    open spec fn spec_check(account: AccountInfo) -> Result<(), ProgramError> {
        if account.owner@ == TOKEN_2022_PROGRAM_ID@ {
            TokenAccount2022Account::spec_check(account)
        } else {
            TokenAccount::spec_check(account)
        }
    }

    fn check(account: &AccountInfo) -> (r: Result<(), ProgramError>) {
        if !account.is_owned_by(&TOKEN_2022_PROGRAM_ID) {
            TokenAccount::check(account)
        } else {
            TokenAccount2022Account::check(account)
        }
    }
}

/// The plan that creates a record of `space` bytes owned by `program` at
/// `account`, paid by `payer` with the rent-exempt minimum, and then makes
/// `initialize` of it; `InvalidArgument` where the rent rate is above its
/// limit.
pub open spec fn spec_create_and_initialize(
    program: Seq<u8>,
    space: usize,
    account: AccountInfo,
    payer: AccountInfo,
    rent: Rent,
    initialize: ActionView,
) -> Result<Seq<ActionView>, ProgramError> {
    match spec_minimum_balance(rent.lamports_per_byte, space) {
        None => Err(ProgramError::InvalidArgument),
        Some(lamports) => Ok(
            seq![
                ActionView::CreateAccount {
                    from: payer.key@,
                    to: account.key@,
                    lamports,
                    space: space as u64,
                    owner: program,
                    signer_seeds: Seq::empty(),
                },
                initialize,
            ],
        ),
    }
}

/// The step that initializes the mint at `account`.
pub open spec fn spec_initialize_mint(
    account: AccountInfo,
    decimals: u8,
    mint_authority: Seq<u8>,
    freeze_authority: Option<Seq<u8>>,
) -> ActionView {
    ActionView::InitializeMint2 { mint: account.key@, decimals, mint_authority, freeze_authority }
}

/// The step that initializes the token account at `account`.
pub open spec fn spec_initialize_token_account(
    account: AccountInfo,
    mint: AccountInfo,
    owner: Seq<u8>,
) -> ActionView {
    ActionView::InitializeAccount3 { account: account.key@, mint: mint.key@, owner }
}

/// An empty plan where `checked` passed, else `init`.
pub open spec fn spec_unless_ok(
    checked: Result<(), ProgramError>,
    init: Result<Seq<ActionView>, ProgramError>,
) -> Result<Seq<ActionView>, ProgramError> {
    match checked {
        Ok(_) => Ok(Seq::empty()),
        Err(_) => init,
    }
}

fn create_and_initialize(
    program: &Pubkey,
    space: usize,
    account: &AccountInfo,
    payer: &AccountInfo,
    rent: &Rent,
    initialize: Action,
) -> (r: Result<Vec<Action>, ProgramError>)
    ensures
        outcome_view(r) == spec_create_and_initialize(
            program@,
            space,
            *account,
            *payer,
            *rent,
            initialize@,
        ),
{
    match rent.minimum_balance(space) {
        None => Err(ProgramError::InvalidArgument),
        Some(lamports) => {
            let unsigned: Vec<Vec<u8>> = Vec::new();
            assert(seeds_view(&unsigned) =~= Seq::<Seq<u8>>::empty());
            let create = Action::CreateAccount {
                from: payer.key,
                to: account.key,
                lamports,
                space: space as u64,
                owner: *program,
                signer_seeds: unsigned,
            };
            let plan: Vec<Action> = vec![create, initialize];
            assert(plan_view(&plan) =~= seq![create@, initialize@]);
            Ok(plan)
        },
    }
}

fn no_steps() -> (plan: Vec<Action>)
    ensures
        plan_view(&plan) == Seq::<ActionView>::empty(),
{
    let plan: Vec<Action> = Vec::new();
    assert(plan_view(&plan) =~= Seq::<ActionView>::empty());
    plan
}

/// Creation of a mint.
pub trait MintInit: AccountCheck {
    /// The token program that is to own the mint.
    spec fn spec_program() -> Seq<u8>;

    /// Plans the creation of the mint at `account`, paid by `payer`.
    fn init(
        account: &AccountInfo,
        payer: &AccountInfo,
        decimals: u8,
        mint_authority: &Pubkey,
        freeze_authority: Option<Pubkey>,
        rent: &Rent,
    ) -> (r: Result<Vec<Action>, ProgramError>)
        ensures
            outcome_view(r) == spec_create_and_initialize(
                Self::spec_program(),
                MINT_LEN,
                *account,
                *payer,
                *rent,
                spec_initialize_mint(
                    *account,
                    decimals,
                    mint_authority@,
                    optional_key_view(freeze_authority),
                ),
            ),
    ;

    /// Plans nothing where `account` passes the check, else its creation.
    fn init_if_needed(
        account: &AccountInfo,
        payer: &AccountInfo,
        decimals: u8,
        mint_authority: &Pubkey,
        freeze_authority: Option<Pubkey>,
        rent: &Rent,
    ) -> (r: Result<Vec<Action>, ProgramError>)
        ensures
            outcome_view(r) == spec_unless_ok(
                Self::spec_check(*account),
                spec_create_and_initialize(
                    Self::spec_program(),
                    MINT_LEN,
                    *account,
                    *payer,
                    *rent,
                    spec_initialize_mint(
                        *account,
                        decimals,
                        mint_authority@,
                        optional_key_view(freeze_authority),
                    ),
                ),
            ),
    ;
}

fn mint_init(
    program: &Pubkey,
    account: &AccountInfo,
    payer: &AccountInfo,
    decimals: u8,
    mint_authority: &Pubkey,
    freeze_authority: Option<Pubkey>,
    rent: &Rent,
) -> (r: Result<Vec<Action>, ProgramError>)
    ensures
        outcome_view(r) == spec_create_and_initialize(
            program@,
            MINT_LEN,
            *account,
            *payer,
            *rent,
            spec_initialize_mint(
                *account,
                decimals,
                mint_authority@,
                optional_key_view(freeze_authority),
            ),
        ),
{
    let initialize = Action::InitializeMint2 {
        mint: account.key,
        decimals,
        mint_authority: *mint_authority,
        freeze_authority,
    };
    create_and_initialize(program, mint_len(), account, payer, rent, initialize)
}

impl MintInit for MintAccount {
    open spec fn spec_program() -> Seq<u8> {
        TOKEN_PROGRAM_ID@
    }

    fn init(
        account: &AccountInfo,
        payer: &AccountInfo,
        decimals: u8,
        mint_authority: &Pubkey,
        freeze_authority: Option<Pubkey>,
        rent: &Rent,
    ) -> (r: Result<Vec<Action>, ProgramError>) {
        mint_init(
            &token_program_id(),
            account,
            payer,
            decimals,
            mint_authority,
            freeze_authority,
            rent,
        )
    }

    fn init_if_needed(
        account: &AccountInfo,
        payer: &AccountInfo,
        decimals: u8,
        mint_authority: &Pubkey,
        freeze_authority: Option<Pubkey>,
        rent: &Rent,
    ) -> (r: Result<Vec<Action>, ProgramError>) {
        match Self::check(account) {
            Ok(_) => Ok(no_steps()),
            Err(_) => Self::init(account, payer, decimals, mint_authority, freeze_authority, rent),
        }
    }
}

impl MintInit for Mint2022Account {
    open spec fn spec_program() -> Seq<u8> {
        TOKEN_2022_PROGRAM_ID@
    }

    fn init(
        account: &AccountInfo,
        payer: &AccountInfo,
        decimals: u8,
        mint_authority: &Pubkey,
        freeze_authority: Option<Pubkey>,
        rent: &Rent,
    ) -> (r: Result<Vec<Action>, ProgramError>) {
        mint_init(
            &TOKEN_2022_PROGRAM_ID,
            account,
            payer,
            decimals,
            mint_authority,
            freeze_authority,
            rent,
        )
    }

    fn init_if_needed(
        account: &AccountInfo,
        payer: &AccountInfo,
        decimals: u8,
        mint_authority: &Pubkey,
        freeze_authority: Option<Pubkey>,
        rent: &Rent,
    ) -> (r: Result<Vec<Action>, ProgramError>) {
        match Self::check(account) {
            Ok(_) => Ok(no_steps()),
            Err(_) => Self::init(account, payer, decimals, mint_authority, freeze_authority, rent),
        }
    }
}

/// Creation of a token account.
pub trait AccountInit: AccountCheck {
    /// The token program that is to own the token account.
    spec fn spec_program() -> Seq<u8>;

    /// Plans the creation of the token account at `account` for `mint` and
    /// `owner`, paid by `payer`.
    fn init(
        account: &AccountInfo,
        mint: &AccountInfo,
        payer: &AccountInfo,
        owner: &Pubkey,
        rent: &Rent,
    ) -> (r: Result<Vec<Action>, ProgramError>)
        ensures
            outcome_view(r) == spec_create_and_initialize(
                Self::spec_program(),
                TOKEN_ACCOUNT_LEN,
                *account,
                *payer,
                *rent,
                spec_initialize_token_account(*account, *mint, owner@),
            ),
    ;

    /// Plans nothing where `account` passes the check, else its creation.
    fn init_if_needed(
        account: &AccountInfo,
        mint: &AccountInfo,
        payer: &AccountInfo,
        owner: &Pubkey,
        rent: &Rent,
    ) -> (r: Result<Vec<Action>, ProgramError>)
        ensures
            outcome_view(r) == spec_unless_ok(
                Self::spec_check(*account),
                spec_create_and_initialize(
                    Self::spec_program(),
                    TOKEN_ACCOUNT_LEN,
                    *account,
                    *payer,
                    *rent,
                    spec_initialize_token_account(*account, *mint, owner@),
                ),
            ),
    ;
}

fn token_account_init(
    program: &Pubkey,
    account: &AccountInfo,
    mint: &AccountInfo,
    payer: &AccountInfo,
    owner: &Pubkey,
    rent: &Rent,
) -> (r: Result<Vec<Action>, ProgramError>)
    ensures
        outcome_view(r) == spec_create_and_initialize(
            program@,
            TOKEN_ACCOUNT_LEN,
            *account,
            *payer,
            *rent,
            spec_initialize_token_account(*account, *mint, owner@),
        ),
{
    let initialize = Action::InitializeAccount3 {
        account: account.key,
        mint: mint.key,
        owner: *owner,
    };
    create_and_initialize(program, token_len(), account, payer, rent, initialize)
}

impl AccountInit for TokenAccount {
    open spec fn spec_program() -> Seq<u8> {
        TOKEN_PROGRAM_ID@
    }

    fn init(
        account: &AccountInfo,
        mint: &AccountInfo,
        payer: &AccountInfo,
        owner: &Pubkey,
        rent: &Rent,
    ) -> (r: Result<Vec<Action>, ProgramError>) {
        token_account_init(&token_program_id(), account, mint, payer, owner, rent)
    }

    fn init_if_needed(
        account: &AccountInfo,
        mint: &AccountInfo,
        payer: &AccountInfo,
        owner: &Pubkey,
        rent: &Rent,
    ) -> (r: Result<Vec<Action>, ProgramError>) {
        match Self::check(account) {
            Ok(_) => Ok(no_steps()),
            Err(_) => Self::init(account, mint, payer, owner, rent),
        }
    }
}

impl AccountInit for TokenAccount2022Account {
    open spec fn spec_program() -> Seq<u8> {
        TOKEN_2022_PROGRAM_ID@
    }

    fn init(
        account: &AccountInfo,
        mint: &AccountInfo,
        payer: &AccountInfo,
        owner: &Pubkey,
        rent: &Rent,
    ) -> (r: Result<Vec<Action>, ProgramError>) {
        token_account_init(&TOKEN_2022_PROGRAM_ID, account, mint, payer, owner, rent)
    }

    fn init_if_needed(
        account: &AccountInfo,
        mint: &AccountInfo,
        payer: &AccountInfo,
        owner: &Pubkey,
        rent: &Rent,
    ) -> (r: Result<Vec<Action>, ProgramError>) {
        match Self::check(account) {
            Ok(_) => Ok(no_steps()),
            Err(_) => Self::init(account, mint, payer, owner, rent),
        }
    }
}

/// The token account of a wallet at its associated address.
pub struct AssociatedTokenAccount;

/// What the check of an associated token account returns, where `derived`
/// is what was derived for its wallet, token program and mint: what the
/// token account check returns where that fails, `InvalidSeeds` where nothing
/// was derived, `InvalidAddress` where the account is at another address.
pub open spec fn spec_associated_check(
    account: AccountInfo,
    derived: Option<(Seq<u8>, u8)>,
) -> Result<(), ProgramError> {
    match TokenAccount::spec_check(account) {
        Err(e) => Err(e),
        Ok(_) => match derived {
            None => Err(ProgramError::InvalidSeeds),
            Some((address, _)) => if address != account.key@ {
                Err(custom(PinocchioError::InvalidAddress))
            } else {
                Ok(())
            },
        },
    }
}

/// The step that creates the associated token account of `owner`.
pub open spec fn spec_associated_init(
    account: AccountInfo,
    mint: AccountInfo,
    payer: AccountInfo,
    owner: AccountInfo,
    system_program: AccountInfo,
    token_program: AccountInfo,
) -> ActionView {
    ActionView::CreateAssociatedTokenAccount {
        funding_account: payer.key@,
        account: account.key@,
        wallet: owner.key@,
        mint: mint.key@,
        system_program: system_program.key@,
        token_program: token_program.key@,
    }
}

/// An empty plan where `checked` passed, else the one step `init`.
pub open spec fn spec_step_unless_ok(checked: Result<(), ProgramError>, init: ActionView) -> Seq<
    ActionView,
> {
    match checked {
        Ok(_) => Seq::empty(),
        Err(_) => seq![init],
    }
}

/// The check of an associated token account.
pub trait AssociatedTokenAccountCheck {
    /// Checks that `account` is a token account at the associated address
    /// of `authority` for `mint` under `token_program`.
    fn check(
        account: &AccountInfo,
        authority: &AccountInfo,
        mint: &AccountInfo,
        token_program: &AccountInfo,
    ) -> (r: Result<(), ProgramError>)
        ensures
            r == spec_associated_check(
                *account,
                associated_token_address(authority.key@, token_program.key@, mint.key@),
            ),
    ;
}

/// Creation of an associated token account.
pub trait AssociatedTokenAccountInit {
    /// Plans the creation of the associated token account of `owner`.
    fn init(
        account: &AccountInfo,
        mint: &AccountInfo,
        payer: &AccountInfo,
        owner: &AccountInfo,
        system_program: &AccountInfo,
        token_program: &AccountInfo,
    ) -> (r: Action)
        ensures
            r@ == spec_associated_init(
                *account,
                *mint,
                *payer,
                *owner,
                *system_program,
                *token_program,
            ),
    ;

    /// Plans nothing where `account` is the associated token account of
    /// `payer`, else the creation of that of `owner`.
    fn init_if_needed(
        account: &AccountInfo,
        mint: &AccountInfo,
        payer: &AccountInfo,
        owner: &AccountInfo,
        system_program: &AccountInfo,
        token_program: &AccountInfo,
    ) -> (r: Vec<Action>)
        ensures
            plan_view(&r) == spec_step_unless_ok(
                spec_associated_check(
                    *account,
                    associated_token_address(payer.key@, token_program.key@, mint.key@),
                ),
                spec_associated_init(
                    *account,
                    *mint,
                    *payer,
                    *owner,
                    *system_program,
                    *token_program,
                ),
            ),
    ;
}

impl AssociatedTokenAccount {
    /// The check of an associated token account against an address that
    /// was derived before.
    pub fn check_derived(account: &AccountInfo, derived: Option<(Pubkey, u8)>) -> (r: Result<
        (),
        ProgramError,
    >)
        ensures
            r == spec_associated_check(*account, found_view(derived)),
    {
        match TokenAccount::check(account) {
            Err(e) => Err(e),
            Ok(_) => match derived {
                None => Err(ProgramError::InvalidSeeds),
                Some((address, _)) => {
                    if !pubkey_eq(&address, &account.key) {
                        Err(PinocchioError::InvalidAddress.into_error())
                    } else {
                        Ok(())
                    }
                },
            },
        }
    }

    /// Plans nothing where the check against `derived` passes, else the
    /// creation of the associated token account of `owner`.
    pub fn init_if_needed_derived(
        account: &AccountInfo,
        mint: &AccountInfo,
        payer: &AccountInfo,
        owner: &AccountInfo,
        system_program: &AccountInfo,
        token_program: &AccountInfo,
        derived: Option<(Pubkey, u8)>,
    ) -> (r: Vec<Action>)
        ensures
            plan_view(&r) == spec_step_unless_ok(
                spec_associated_check(*account, found_view(derived)),
                spec_associated_init(
                    *account,
                    *mint,
                    *payer,
                    *owner,
                    *system_program,
                    *token_program,
                ),
            ),
    {
        match Self::check_derived(account, derived) {
            Ok(_) => no_steps(),
            Err(_) => {
                let step = Self::init(account, mint, payer, owner, system_program, token_program);
                let plan: Vec<Action> = vec![step];
                assert(plan_view(&plan) =~= seq![step@]);
                plan
            },
        }
    }
}

impl AssociatedTokenAccountCheck for AssociatedTokenAccount {
    fn check(
        account: &AccountInfo,
        authority: &AccountInfo,
        mint: &AccountInfo,
        token_program: &AccountInfo,
    ) -> (r: Result<(), ProgramError>) {
        let derived = find_associated_token_address(&authority.key, &token_program.key, &mint.key);
        Self::check_derived(account, derived)
    }
}

impl AssociatedTokenAccountInit for AssociatedTokenAccount {
    fn init(
        account: &AccountInfo,
        mint: &AccountInfo,
        payer: &AccountInfo,
        owner: &AccountInfo,
        system_program: &AccountInfo,
        token_program: &AccountInfo,
    ) -> (r: Action) {
        Action::CreateAssociatedTokenAccount {
            funding_account: payer.key,
            account: account.key,
            wallet: owner.key,
            mint: mint.key,
            system_program: system_program.key,
            token_program: token_program.key,
        }
    }

    fn init_if_needed(
        account: &AccountInfo,
        mint: &AccountInfo,
        payer: &AccountInfo,
        owner: &AccountInfo,
        system_program: &AccountInfo,
        token_program: &AccountInfo,
    ) -> (r: Vec<Action>) {
        let derived = find_associated_token_address(&payer.key, &token_program.key, &mint.key);
        Self::init_if_needed_derived(
            account,
            mint,
            payer,
            owner,
            system_program,
            token_program,
            derived,
        )
    }
}

/// An account of the pool program, and the calls that the pool makes for
/// its stake accounts.
pub struct ProgramAccount;

/// The step that creates an account of `space` bytes owned by `program`
/// at `account`, paid by `payer` with the rent-exempt minimum and `extra`
/// lamports, and signed for with `seeds`; `InvalidArgument` where the space or
/// the rent rate is above its limit, `ArithmeticOverflow` where the balance
/// leaves the 64-bit range.
pub open spec fn spec_create_signed(
    program: Seq<u8>,
    space: usize,
    extra: u64,
    payer: AccountInfo,
    account: AccountInfo,
    seeds: Seq<Seq<u8>>,
    rent: Rent,
) -> Result<ActionView, ProgramError> {
    match spec_minimum_balance(rent.lamports_per_byte, space) {
        None => Err(ProgramError::InvalidArgument),
        Some(lamports) => if lamports + extra > u64::MAX {
            Err(ProgramError::ArithmeticOverflow)
        } else {
            Ok(
                ActionView::CreateAccount {
                    from: payer.key@,
                    to: account.key@,
                    lamports: (lamports + extra) as u64,
                    space: space as u64,
                    owner: program,
                    signer_seeds: seeds,
                },
            )
        },
    }
}

/// Within the limits of rent the creation is planned, with the rate times
/// the stored bytes and the extra lamports as its balance; above them it is
/// refused.
pub proof fn lemma_create_signed(
    program: Seq<u8>,
    space: usize,
    extra: u64,
    payer: AccountInfo,
    account: AccountInfo,
    seeds: Seq<Seq<u8>>,
    rent: Rent,
)
    ensures
        space > MAX_PERMITTED_DATA_LENGTH || rent.lamports_per_byte
            > MAX_LAMPORTS_PER_BYTE ==> spec_create_signed(
            program,
            space,
            extra,
            payer,
            account,
            seeds,
            rent,
        ) == Err::<ActionView, ProgramError>(ProgramError::InvalidArgument),
        space <= MAX_PERMITTED_DATA_LENGTH && rent.lamports_per_byte
            <= MAX_LAMPORTS_PER_BYTE && (128 + space) * rent.lamports_per_byte + extra
            <= u64::MAX ==> spec_create_signed(program, space, extra, payer, account, seeds, rent)
            == Ok::<ActionView, ProgramError>(
            ActionView::CreateAccount {
                from: payer.key@,
                to: account.key@,
                lamports: ((128 + space) * rent.lamports_per_byte + extra) as u64,
                space: space as u64,
                owner: program,
                signer_seeds: seeds,
            },
        ),
        space == STAKE_ACCOUNT_SPACE && extra == LAMPORTS_PER_SOL && rent.lamports_per_byte
            <= MAX_LAMPORTS_PER_BYTE ==> 328 * rent.lamports_per_byte
            + LAMPORTS_PER_SOL <= u64::MAX,
{
    if space <= MAX_PERMITTED_DATA_LENGTH && rent.lamports_per_byte
        <= MAX_LAMPORTS_PER_BYTE {
        lemma_minimum_balance_exact(rent.lamports_per_byte, space);
    }
}

/// The outcome of planning one step as plain values.
pub open spec fn step_view(r: Result<Action, ProgramError>) -> Result<ActionView, ProgramError> {
    match r {
        Ok(step) => Ok(step@),
        Err(e) => Err(e),
    }
}

fn clone_bytes(bytes: &Vec<u8>) -> (copy: Vec<u8>)
    ensures
        copy@ == bytes@,
{
    let mut copy: Vec<u8> = Vec::new();
    let mut i: usize = 0;
    while i < bytes.len()
        invariant
            i <= bytes@.len(),
            copy@ == bytes@.subrange(0, i as int),
        decreases bytes@.len() - i,
    {
        copy.push(bytes[i]);
        i += 1;
        assert(copy@ =~= bytes@.subrange(0, i as int));
    }
    assert(bytes@.subrange(0, bytes@.len() as int) =~= bytes@);
    copy
}

/// A copy of `seeds`.
pub fn clone_seeds(seeds: &Vec<Vec<u8>>) -> (copy: Vec<Vec<u8>>)
    ensures
        seeds_view(&copy) == seeds_view(seeds),
{
    let mut copy: Vec<Vec<u8>> = Vec::new();
    let mut i: usize = 0;
    while i < seeds.len()
        invariant
            i <= seeds@.len(),
            copy@.len() == i,
            forall|j: int| 0 <= j < i ==> copy@[j]@ == seeds@[j]@,
        decreases seeds@.len() - i,
    {
        copy.push(clone_bytes(&seeds[i]));
        i += 1;
    }
    assert(seeds_view(&copy) =~= seeds_view(seeds));
    copy
}

fn create_signed(
    program: &Pubkey,
    space: usize,
    extra: u64,
    payer: &AccountInfo,
    account: &AccountInfo,
    seeds: &Vec<Vec<u8>>,
    rent: &Rent,
) -> (r: Result<Action, ProgramError>)
    ensures
        step_view(r) == spec_create_signed(
            program@,
            space,
            extra,
            *payer,
            *account,
            seeds_view(seeds),
            *rent,
        ),
{
    match rent.minimum_balance(space) {
        None => Err(ProgramError::InvalidArgument),
        Some(minimum) => match minimum.checked_add(extra) {
            None => Err(ProgramError::ArithmeticOverflow),
            Some(lamports) => Ok(
                Action::CreateAccount {
                    from: payer.key,
                    to: account.key,
                    lamports,
                    space: space as u64,
                    owner: *program,
                    signer_seeds: clone_seeds(seeds),
                },
            ),
        },
    }
}

impl ProgramAccount {
    /// `InvalidOwner` unless the pool program `program_id` owns the account.
    pub open spec fn spec_check(account: AccountInfo, program_id: Seq<u8>) -> Result<
        (),
        ProgramError,
    > {
        if account.owner@ != program_id {
            Err(custom(PinocchioError::InvalidOwner))
        } else {
            Ok(())
        }
    }

    /// Checks that the pool program `program_id` owns `account`.
    pub fn check(account: &AccountInfo, program_id: &Pubkey) -> (r: Result<(), ProgramError>)
        ensures
            r == Self::spec_check(*account, program_id@),
    {
        if !account.is_owned_by(program_id) {
            return Err(PinocchioError::InvalidOwner.into_error());
        }
        Ok(())
    }
}

/// Creation of an account of the pool program at a derived address.
pub trait ProgramAccountInit {
    /// Plans the creation of `account` with `space` bytes, owned by the pool
    /// program `program_id`, paid by `payer` and signed for with `seeds`.
    fn init(
        payer: &AccountInfo,
        account: &AccountInfo,
        seeds: &Vec<Vec<u8>>,
        space: usize,
        program_id: &Pubkey,
        rent: &Rent,
    ) -> (r: Result<Action, ProgramError>)
        ensures
            step_view(r) == spec_create_signed(
                program_id@,
                space,
                0,
                *payer,
                *account,
                seeds_view(seeds),
                *rent,
            ),
    ;
}

impl ProgramAccountInit for ProgramAccount {
    fn init(
        payer: &AccountInfo,
        account: &AccountInfo,
        seeds: &Vec<Vec<u8>>,
        space: usize,
        program_id: &Pubkey,
        rent: &Rent,
    ) -> (r: Result<Action, ProgramError>) {
        create_signed(program_id, space, 0, payer, account, seeds, rent)
    }
}

/// Closing of an account of the pool program.
pub trait AccountClose {
    /// Closes `account`: its balance goes to `destination`, and it is left
    /// with no lamports, no data and the system program as its owner.
    fn close(account: &mut AccountInfo, destination: &mut AccountInfo) -> (r: Result<
        (),
        ProgramError,
    >)
        requires
            old(account).data@.len() > 0,
            old(account).lamports + old(destination).lamports <= u64::MAX,
        ensures
            r.is_ok(),
            final(account).lamports == 0,
            final(account).data@.len() == 0,
            final(account).owner@ == SYSTEM_PROGRAM_ID@,
            final(account).key == old(account).key,
            final(account).is_signer == old(account).is_signer,
            final(account).is_writable == old(account).is_writable,
            final(destination).lamports == old(destination).lamports + old(account).lamports,
            final(destination).key == old(destination).key,
            final(destination).owner == old(destination).owner,
            final(destination).data == old(destination).data,
            final(destination).is_signer == old(destination).is_signer,
            final(destination).is_writable == old(destination).is_writable,
    ;
}

impl AccountClose for ProgramAccount {
    fn close(account: &mut AccountInfo, destination: &mut AccountInfo) -> (r: Result<
        (),
        ProgramError,
    >) {
        destination.lamports = destination.lamports + account.lamports;
        account.lamports = 0;
        account.data = Vec::new();
        account.owner = system_program_id();
        Ok(())
    }
}

/// Selector of the stake program's instruction that initializes a stake
/// account.
pub const STAKE_INITIALIZE: u32 = 0;

/// Selector of the stake program's instruction that delegates a stake.
pub const STAKE_DELEGATE: u32 = 2;

/// Selector of the stake program's instruction that splits a stake.
pub const STAKE_SPLIT: u32 = 3;

/// Selector of the stake program's instruction that withdraws from a stake
/// account.
pub const STAKE_WITHDRAW: u32 = 4;

/// Selector of the stake program's instruction that deactivates a stake.
pub const STAKE_DEACTIVATE: u32 = 5;

/// Selector of the stake program's instruction that merges two stakes.
pub const STAKE_MERGE: u32 = 7;

/// The account at `key` as the authority of a stake instruction: it signs
/// and is not written.
pub open spec fn authority_meta(key: Seq<u8>) -> AccountMetaView {
    AccountMetaView { pubkey: key, is_writable: false, is_signer: true }
}

/// A call of the stake program.
pub open spec fn spec_stake_call(
    data: Seq<u8>,
    accounts: Seq<AccountMetaView>,
    seeds: Seq<Seq<u8>>,
) -> ActionView {
    ActionView::Invoke { program_id: STAKE_PROGRAM_ID@, accounts, data, signer_seeds: seeds }
}

/// The call that initializes the stake account `account` without lockup:
/// the selector, the staker, the withdrawer and 48 zero bytes for the lockup.
pub open spec fn spec_initialize_stake(
    account: AccountInfo,
    staker: AccountInfo,
    withdrawer: AccountInfo,
    rent_sysvar: AccountInfo,
    seeds: Seq<Seq<u8>>,
) -> ActionView {
    spec_stake_call(
        spec_u32_le_bytes(STAKE_INITIALIZE) + staker.key@ + withdrawer.key@ + Seq::new(
            48,
            |i: int| 0u8,
        ),
        seq![meta_of(account), meta_of(rent_sysvar)],
        seeds,
    )
}

/// The call that delegates the stake account `account` to `vote_account`.
pub open spec fn spec_delegate_stake(
    account: AccountInfo,
    vote_account: AccountInfo,
    clock_sysvar: AccountInfo,
    history_sysvar: AccountInfo,
    unused_account: AccountInfo,
    stake_authority: AccountInfo,
    seeds: Seq<Seq<u8>>,
) -> ActionView {
    spec_stake_call(
        spec_u32_le_bytes(STAKE_DELEGATE),
        seq![
            meta_of(account),
            meta_of(vote_account),
            meta_of(clock_sysvar),
            meta_of(history_sysvar),
            meta_of(unused_account),
            authority_meta(stake_authority.key@),
        ],
        seeds,
    )
}

/// The call that merges the stake account `source` into `destination`.
pub open spec fn spec_merge_stake(
    destination: AccountInfo,
    source: AccountInfo,
    clock_sysvar: AccountInfo,
    history_sysvar: AccountInfo,
    stake_authority: AccountInfo,
    seeds: Seq<Seq<u8>>,
) -> ActionView {
    spec_stake_call(
        spec_u32_le_bytes(STAKE_MERGE),
        seq![
            meta_of(destination),
            meta_of(source),
            meta_of(clock_sysvar),
            meta_of(history_sysvar),
            authority_meta(stake_authority.key@),
        ],
        seeds,
    )
}

/// The call that splits `lamports` off the stake account `source` into
/// `destination`: the selector and the amount in eight little-endian bytes.
pub open spec fn spec_split_stake(
    source: AccountInfo,
    destination: AccountInfo,
    lamports: u64,
    stake_authority: AccountInfo,
    seeds: Seq<Seq<u8>>,
) -> ActionView {
    spec_stake_call(
        spec_u32_le_bytes(STAKE_SPLIT) + spec_u64_le_bytes(lamports),
        seq![meta_of(source), meta_of(destination), authority_meta(stake_authority.key@)],
        seeds,
    )
}

/// The call that deactivates the stake account `account`.
pub open spec fn spec_deactivate_stake(
    account: AccountInfo,
    clock_sysvar: AccountInfo,
    stake_authority: AccountInfo,
    seeds: Seq<Seq<u8>>,
) -> ActionView {
    spec_stake_call(
        spec_u32_le_bytes(STAKE_DEACTIVATE),
        seq![meta_of(account), meta_of(clock_sysvar), authority_meta(stake_authority.key@)],
        seeds,
    )
}

/// The call that withdraws the whole balance of the stake account
/// `account` to `withdrawer`: the selector and the balance in eight
/// little-endian bytes.
pub open spec fn spec_withdraw_stake(
    account: AccountInfo,
    withdrawer: AccountInfo,
    clock_sysvar: AccountInfo,
    history_sysvar: AccountInfo,
    withdraw_authority: AccountInfo,
    seeds: Seq<Seq<u8>>,
) -> ActionView {
    spec_stake_call(
        spec_u32_le_bytes(STAKE_WITHDRAW) + spec_u64_le_bytes(account.lamports),
        seq![
            meta_of(account),
            meta_of(withdrawer),
            meta_of(clock_sysvar),
            meta_of(history_sysvar),
            authority_meta(withdraw_authority.key@),
        ],
        seeds,
    )
}

fn stake_call(data: Vec<u8>, accounts: Vec<AccountMeta>, seeds: &Vec<Vec<u8>>) -> (r: Action)
    ensures
        r@ == spec_stake_call(data@, metas_view(&accounts), seeds_view(seeds)),
{
    Action::Invoke {
        program_id: STAKE_PROGRAM_ID,
        accounts,
        data,
        signer_seeds: clone_seeds(seeds),
    }
}

/// Creation of a stake account at a derived address.
pub trait StakeAccountCreate {
    /// Plans the creation of the stake account `account`: 200 bytes owned by
    /// the stake program, funded by `payer` with the rent-exempt minimum and
    /// one SOL, signed for with `seeds`.
    fn stake_account_create(
        payer: &AccountInfo,
        account: &AccountInfo,
        seeds: &Vec<Vec<u8>>,
        rent: &Rent,
    ) -> (r: Result<Action, ProgramError>)
        ensures
            step_view(r) == spec_create_signed(
                STAKE_PROGRAM_ID@,
                STAKE_ACCOUNT_SPACE,
                LAMPORTS_PER_SOL,
                *payer,
                *account,
                seeds_view(seeds),
                *rent,
            ),
    ;
}

impl StakeAccountCreate for ProgramAccount {
    fn stake_account_create(
        payer: &AccountInfo,
        account: &AccountInfo,
        seeds: &Vec<Vec<u8>>,
        rent: &Rent,
    ) -> (r: Result<Action, ProgramError>) {
        create_signed(
            &STAKE_PROGRAM_ID,
            STAKE_ACCOUNT_SPACE,
            LAMPORTS_PER_SOL,
            payer,
            account,
            seeds,
            rent,
        )
    }
}

/// Initialization of a stake account.
pub trait StakeAccountInitialize {
    /// Plans the initialization of the stake account `account` without
    /// lockup, with `staker` and `withdrawer` as its authorities.
    fn initialize_stake_account_no_lockup(
        account: &AccountInfo,
        staker: &AccountInfo,
        withdrawer: &AccountInfo,
        rent_sysvar: &AccountInfo,
        seeds: &Vec<Vec<u8>>,
    ) -> (r: Action)
        ensures
            r@ == spec_initialize_stake(
                *account,
                *staker,
                *withdrawer,
                *rent_sysvar,
                seeds_view(seeds),
            ),
    ;
}

impl StakeAccountInitialize for ProgramAccount {
    fn initialize_stake_account_no_lockup(
        account: &AccountInfo,
        staker: &AccountInfo,
        withdrawer: &AccountInfo,
        rent_sysvar: &AccountInfo,
        seeds: &Vec<Vec<u8>>,
    ) -> (r: Action) {
        let mut data = u32_le_bytes(STAKE_INITIALIZE);
        append_pubkey(&mut data, &staker.key);
        append_pubkey(&mut data, &withdrawer.key);
        let ghost filled = data@;
        let mut i: usize = 0;
        while i < 48
            invariant
                i <= 48,
                data@ == filled + Seq::new(i as nat, |j: int| 0u8),
            decreases 48 - i,
        {
            data.push(0u8);
            i += 1;
            assert(data@ =~= filled + Seq::new(i as nat, |j: int| 0u8));
        }
        let accounts: Vec<AccountMeta> = vec![
            AccountMeta::of(account),
            AccountMeta::of(rent_sysvar),
        ];
        assert(metas_view(&accounts) =~= seq![meta_of(*account), meta_of(*rent_sysvar)]);
        stake_call(data, accounts, seeds)
    }
}

/// Delegation of a stake account.
pub trait StakeAccountDelegate {
    /// Plans the delegation of the stake account `account` to
    /// `vote_account`, authorized by `stake_authority`.
    fn delegate_stake_account(
        account: &AccountInfo,
        vote_account: &AccountInfo,
        clock_sysvar: &AccountInfo,
        history_sysvar: &AccountInfo,
        unused_account: &AccountInfo,
        stake_authority: &AccountInfo,
        seeds: &Vec<Vec<u8>>,
    ) -> (r: Action)
        ensures
            r@ == spec_delegate_stake(
                *account,
                *vote_account,
                *clock_sysvar,
                *history_sysvar,
                *unused_account,
                *stake_authority,
                seeds_view(seeds),
            ),
    ;
}

impl StakeAccountDelegate for ProgramAccount {
    fn delegate_stake_account(
        account: &AccountInfo,
        vote_account: &AccountInfo,
        clock_sysvar: &AccountInfo,
        history_sysvar: &AccountInfo,
        unused_account: &AccountInfo,
        stake_authority: &AccountInfo,
        seeds: &Vec<Vec<u8>>,
    ) -> (r: Action) {
        let data = u32_le_bytes(STAKE_DELEGATE);
        let accounts: Vec<AccountMeta> = vec![
            AccountMeta::of(account),
            AccountMeta::of(vote_account),
            AccountMeta::of(clock_sysvar),
            AccountMeta::of(history_sysvar),
            AccountMeta::of(unused_account),
            AccountMeta::new(&stake_authority.key, false, true),
        ];
        assert(metas_view(&accounts) =~= seq![
            meta_of(*account),
            meta_of(*vote_account),
            meta_of(*clock_sysvar),
            meta_of(*history_sysvar),
            meta_of(*unused_account),
            authority_meta(stake_authority.key@),
        ]);
        stake_call(data, accounts, seeds)
    }
}

/// Merging of two stake accounts.
pub trait StakeAccountMerge {
    /// Plans the merge of the stake account `source` into `destination`,
    /// authorized by `stake_authority`.
    fn merge_stake_account(
        destination: &AccountInfo,
        source: &AccountInfo,
        clock_sysvar: &AccountInfo,
        history_sysvar: &AccountInfo,
        stake_authority: &AccountInfo,
        seeds: &Vec<Vec<u8>>,
    ) -> (r: Action)
        ensures
            r@ == spec_merge_stake(
                *destination,
                *source,
                *clock_sysvar,
                *history_sysvar,
                *stake_authority,
                seeds_view(seeds),
            ),
    ;
}

impl StakeAccountMerge for ProgramAccount {
    fn merge_stake_account(
        destination: &AccountInfo,
        source: &AccountInfo,
        clock_sysvar: &AccountInfo,
        history_sysvar: &AccountInfo,
        stake_authority: &AccountInfo,
        seeds: &Vec<Vec<u8>>,
    ) -> (r: Action) {
        let data = u32_le_bytes(STAKE_MERGE);
        let accounts: Vec<AccountMeta> = vec![
            AccountMeta::of(destination),
            AccountMeta::of(source),
            AccountMeta::of(clock_sysvar),
            AccountMeta::of(history_sysvar),
            AccountMeta::new(&stake_authority.key, false, true),
        ];
        assert(metas_view(&accounts) =~= seq![
            meta_of(*destination),
            meta_of(*source),
            meta_of(*clock_sysvar),
            meta_of(*history_sysvar),
            authority_meta(stake_authority.key@),
        ]);
        stake_call(data, accounts, seeds)
    }
}

/// Splitting of a stake account.
pub trait StakeAccountSplit {
    /// Plans the split of `lamports` off the stake account `source` into
    /// `destination`, authorized by `stake_authority`.
    fn split_stake_account(
        source: &AccountInfo,
        destination: &AccountInfo,
        lamports: u64,
        stake_authority: &AccountInfo,
        seeds: &Vec<Vec<u8>>,
    ) -> (r: Action)
        ensures
            r@ == spec_split_stake(
                *source,
                *destination,
                lamports,
                *stake_authority,
                seeds_view(seeds),
            ),
    ;
}

impl StakeAccountSplit for ProgramAccount {
    fn split_stake_account(
        source: &AccountInfo,
        destination: &AccountInfo,
        lamports: u64,
        stake_authority: &AccountInfo,
        seeds: &Vec<Vec<u8>>,
    ) -> (r: Action) {
        let mut data = u32_le_bytes(STAKE_SPLIT);
        let mut amount = u64_le_bytes(lamports);
        data.append(&mut amount);
        let accounts: Vec<AccountMeta> = vec![
            AccountMeta::of(source),
            AccountMeta::of(destination),
            AccountMeta::readonly_signer(&stake_authority.key),
        ];
        assert(metas_view(&accounts) =~= seq![
            meta_of(*source),
            meta_of(*destination),
            authority_meta(stake_authority.key@),
        ]);
        stake_call(data, accounts, seeds)
    }
}

/// Deactivation of a stake account.
pub trait StakeAccountDeactivate {
    /// Plans the deactivation of the stake account `account`, authorized
    /// by `stake_authority`.
    fn deactivate_stake_account(
        account: &AccountInfo,
        clock_sysvar: &AccountInfo,
        stake_authority: &AccountInfo,
        seeds: &Vec<Vec<u8>>,
    ) -> (r: Action)
        ensures
            r@ == spec_deactivate_stake(
                *account,
                *clock_sysvar,
                *stake_authority,
                seeds_view(seeds),
            ),
    ;
}

impl StakeAccountDeactivate for ProgramAccount {
    fn deactivate_stake_account(
        account: &AccountInfo,
        clock_sysvar: &AccountInfo,
        stake_authority: &AccountInfo,
        seeds: &Vec<Vec<u8>>,
    ) -> (r: Action) {
        let data = u32_le_bytes(STAKE_DEACTIVATE);
        let accounts: Vec<AccountMeta> = vec![
            AccountMeta::of(account),
            AccountMeta::of(clock_sysvar),
            AccountMeta::readonly_signer(&stake_authority.key),
        ];
        assert(metas_view(&accounts) =~= seq![
            meta_of(*account),
            meta_of(*clock_sysvar),
            authority_meta(stake_authority.key@),
        ]);
        stake_call(data, accounts, seeds)
    }
}

/// Withdrawal from a stake account.
pub trait StakeAccountWithdraw {
    /// Plans the withdrawal of the whole balance of the stake account
    /// `account_to_withdraw_from` to `withdrawer`, authorized by
    /// `withdraw_authority`.
    fn withdraw_stake_account(
        account_to_withdraw_from: &AccountInfo,
        withdrawer: &AccountInfo,
        clock_sysvar: &AccountInfo,
        history_sysvar: &AccountInfo,
        withdraw_authority: &AccountInfo,
        seeds: &Vec<Vec<u8>>,
    ) -> (r: Action)
        ensures
            r@ == spec_withdraw_stake(
                *account_to_withdraw_from,
                *withdrawer,
                *clock_sysvar,
                *history_sysvar,
                *withdraw_authority,
                seeds_view(seeds),
            ),
    ;
}

impl StakeAccountWithdraw for ProgramAccount {
    fn withdraw_stake_account(
        account_to_withdraw_from: &AccountInfo,
        withdrawer: &AccountInfo,
        clock_sysvar: &AccountInfo,
        history_sysvar: &AccountInfo,
        withdraw_authority: &AccountInfo,
        seeds: &Vec<Vec<u8>>,
    ) -> (r: Action) {
        let mut data = u32_le_bytes(STAKE_WITHDRAW);
        let mut amount = u64_le_bytes(account_to_withdraw_from.lamports);
        data.append(&mut amount);
        let accounts: Vec<AccountMeta> = vec![
            AccountMeta::of(account_to_withdraw_from),
            AccountMeta::of(withdrawer),
            AccountMeta::of(clock_sysvar),
            AccountMeta::of(history_sysvar),
            AccountMeta::readonly_signer(&withdraw_authority.key),
        ];
        assert(metas_view(&accounts) =~= seq![
            meta_of(*account_to_withdraw_from),
            meta_of(*withdrawer),
            meta_of(*clock_sysvar),
            meta_of(*history_sysvar),
            authority_meta(withdraw_authority.key@),
        ]);
        stake_call(data, accounts, seeds)
    }
}

/// Why an account at `key` is refused where its address must be the one
/// that was derived: `InvalidSeeds` where nothing was derived, `mismatch`
/// where the account is at another address.
pub open spec fn spec_address_refusal(
    derived: Option<(Seq<u8>, u8)>,
    key: Seq<u8>,
    mismatch: PinocchioError,
) -> Option<ProgramError> {
    match derived {
        None => Some(ProgramError::InvalidSeeds),
        Some((address, _)) => if address != key {
            Some(custom(mismatch))
        } else {
            None
        },
    }
}

/// The bump seed of a derivation.
pub open spec fn bump_of(derived: Option<(Seq<u8>, u8)>) -> u8 {
    derived->Some_0.1
}

/// The outcome of an instruction: its refusal where there is one, else its
/// plan.
pub open spec fn refusal_or_plan(refusal: Option<ProgramError>, plan: Seq<ActionView>) -> Result<
    Seq<ActionView>,
    ProgramError,
> {
    match refusal {
        Some(e) => Err(e),
        None => Ok(plan),
    }
}

/// Compares the address `key` with a derived one: returns the bump seed of
/// the derivation where they are the same, else the refusal.
pub fn expect_address(derived: Option<(Pubkey, u8)>, key: &Pubkey, mismatch: PinocchioError) -> (r:
    Result<u8, ProgramError>)
    ensures
        match r {
            Ok(bump) => spec_address_refusal(found_view(derived), key@, mismatch) is None && bump
                == bump_of(found_view(derived)),
            Err(e) => spec_address_refusal(found_view(derived), key@, mismatch) == Some(e),
        },
{
    match derived {
        None => Err(ProgramError::InvalidSeeds),
        Some((address, bump)) => {
            if !pubkey_eq(&address, key) {
                Err(mismatch.into_error())
            } else {
                Ok(bump)
            }
        },
    }
}

} // verus!
