use solana_liquid_staking::account::{AccountInfo, MINT_LEN, TOKEN_ACCOUNT_LEN};
use solana_liquid_staking::action::{extend_plan, push_step, AccountMeta, Action};
use solana_liquid_staking::errors::{PinocchioError, ProgramError};
use solana_liquid_staking::instructions::helpers::{
    clone_seeds, expect_address, AccountCheck, AccountClose, AccountInit,
    AssociatedTokenAccount, AssociatedTokenAccountCheck, AssociatedTokenAccountInit,
    Mint2022Account, MintAccount, MintInit, MintInterface, ProgramAccount, ProgramAccountInit,
    SignerAccount, StakeAccountCreate, StakeAccountDeactivate, StakeAccountDelegate,
    StakeAccountInitialize, StakeAccountMerge, StakeAccountSplit, StakeAccountWithdraw,
    SystemAccount, TokenAccount, TokenAccount2022Account, TokenAccountInterface,
    STAKE_PROGRAM_ID, TOKEN_2022_PROGRAM_ID, VOTE_PROGRAM_ID,
};
use solana_liquid_staking::pubkey::{
    find_associated_token_address, ASSOCIATED_TOKEN_PROGRAM_ID, SYSTEM_PROGRAM_ID,
    TOKEN_PROGRAM_ID,
};
use solana_liquid_staking::rent::Rent;
use solana_liquid_staking::ID;

fn account(tag: u8, owner: [u8; 32], data_len: usize) -> AccountInfo {
    AccountInfo {
        key: [tag; 32],
        owner,
        lamports: 1_000_000,
        is_signer: false,
        is_writable: true,
        data: vec![0u8; data_len],
    }
}

fn custom(e: PinocchioError) -> ProgramError {
    ProgramError::from(e)
}

fn rent() -> Rent {
    Rent { lamports_per_byte: 6960 }
}

fn seeds() -> Vec<Vec<u8>> {
    vec![b"config".to_vec(), vec![251]]
}

#[test]
fn record_lengths_are_those_of_the_token_program() {
    assert_eq!(MINT_LEN, 82);
    assert_eq!(TOKEN_ACCOUNT_LEN, 165);
    assert_eq!(MINT_LEN, pinocchio_token::state::Mint::LEN);
    assert_eq!(TOKEN_ACCOUNT_LEN, pinocchio_token::state::Account::LEN);
}

#[test]
fn accounts_answer_for_their_fields() {
    let mut a = account(1, TOKEN_PROGRAM_ID, 3);
    a.is_signer = true;
    a.is_writable = false;
    assert_eq!(a.key(), &[1u8; 32]);
    assert_eq!(a.owner(), &TOKEN_PROGRAM_ID);
    assert_eq!(a.lamports(), 1_000_000);
    assert!(a.is_signer());
    assert!(!a.is_writable());
    assert_eq!(a.data_len(), 3);
    assert!(!a.data_is_empty());
    assert!(account(1, TOKEN_PROGRAM_ID, 0).data_is_empty());
    assert!(a.is_owned_by(&TOKEN_PROGRAM_ID));
    assert!(!a.is_owned_by(&SYSTEM_PROGRAM_ID));
    assert!(a.has_key(&[1u8; 32]));
    assert!(!a.has_key(&[2u8; 32]));
}

#[test]
fn mint_supply_is_read_at_its_offset() {
    let mut mint = account(1, TOKEN_PROGRAM_ID, 82);
    mint.data[36..44].copy_from_slice(&1_997_722_319u64.to_le_bytes());
    mint.data[35] = 0xff;
    mint.data[44] = 0xff;
    assert_eq!(mint.mint_supply(), Ok(1_997_722_319));
    assert_eq!(account(1, TOKEN_PROGRAM_ID, 81).mint_supply(), Err(ProgramError::InvalidAccountData));
    assert_eq!(account(1, TOKEN_PROGRAM_ID, 165).mint_supply(), Err(ProgramError::InvalidAccountData));
    assert_eq!(
        account(1, TOKEN_2022_PROGRAM_ID, 82).mint_supply(),
        Err(ProgramError::InvalidAccountOwner)
    );
    assert_eq!(account(1, SYSTEM_PROGRAM_ID, 0).mint_supply(), Err(ProgramError::InvalidAccountData));
}

#[test]
fn token_amount_is_read_at_its_offset() {
    let mut token = account(1, TOKEN_PROGRAM_ID, 165);
    token.data[64..72].copy_from_slice(&997_722_319u64.to_le_bytes());
    token.data[63] = 0xff;
    token.data[72] = 0xff;
    assert_eq!(token.token_amount(), Ok(997_722_319));
    assert_eq!(account(1, TOKEN_PROGRAM_ID, 82).token_amount(), Err(ProgramError::InvalidAccountData));
    assert_eq!(
        account(1, SYSTEM_PROGRAM_ID, 165).token_amount(),
        Err(ProgramError::InvalidAccountData)
    );
}

#[test]
fn stake_state_is_the_first_four_bytes() {
    let mut stake = account(1, STAKE_PROGRAM_ID, 200);
    assert_eq!(stake.stake_state(), Ok(0));
    stake.data[0] = 2;
    assert_eq!(stake.stake_state(), Ok(2));
    stake.data[3] = 1;
    assert_eq!(stake.stake_state(), Ok(0x0100_0002));
    assert_eq!(account(1, STAKE_PROGRAM_ID, 3).stake_state(), Err(ProgramError::InvalidAccountData));
    assert_eq!(account(1, STAKE_PROGRAM_ID, 0).stake_state(), Err(ProgramError::InvalidAccountData));
    assert_eq!(account(1, STAKE_PROGRAM_ID, 4).stake_state(), Ok(0));
}

#[test]
fn signer_and_owner_checks() {
    let mut a = account(1, SYSTEM_PROGRAM_ID, 0);
    assert_eq!(SignerAccount::check(&a), Err(custom(PinocchioError::NotSigner)));
    a.is_signer = true;
    assert_eq!(SignerAccount::check(&a), Ok(()));
    assert_eq!(SystemAccount::check(&a), Ok(()));
    assert_eq!(
        SystemAccount::check(&account(1, TOKEN_PROGRAM_ID, 0)),
        Err(custom(PinocchioError::InvalidOwner))
    );
    assert_eq!(ProgramAccount::check(&account(1, ID, 160), &ID), Ok(()));
    assert_eq!(
        ProgramAccount::check(&account(1, SYSTEM_PROGRAM_ID, 160), &ID),
        Err(custom(PinocchioError::InvalidOwner))
    );
    assert_eq!(ProgramAccount::check(&account(1, [8u8; 32], 0), &[8u8; 32]), Ok(()));
}

#[test]
fn mint_and_token_account_checks() {
    assert_eq!(MintAccount::check(&account(1, TOKEN_PROGRAM_ID, 82)), Ok(()));
    assert_eq!(
        MintAccount::check(&account(1, TOKEN_PROGRAM_ID, 165)),
        Err(custom(PinocchioError::InvalidAccountData))
    );
    assert_eq!(
        MintAccount::check(&account(1, SYSTEM_PROGRAM_ID, 82)),
        Err(custom(PinocchioError::InvalidOwner))
    );
    assert_eq!(
        MintAccount::check(&account(1, TOKEN_2022_PROGRAM_ID, 82)),
        Err(custom(PinocchioError::InvalidOwner))
    );
    assert_eq!(TokenAccount::check(&account(1, TOKEN_PROGRAM_ID, 165)), Ok(()));
    assert_eq!(
        TokenAccount::check(&account(1, TOKEN_PROGRAM_ID, 82)),
        Err(custom(PinocchioError::InvalidAccountData))
    );
    assert_eq!(
        TokenAccount::check(&account(1, VOTE_PROGRAM_ID, 165)),
        Err(custom(PinocchioError::InvalidOwner))
    );
}

#[test]
fn checks_of_the_token_program_with_extensions() {
    let invalid_data = Err(custom(PinocchioError::InvalidAccountData));
    let invalid_owner = Err(custom(PinocchioError::InvalidOwner));
    assert_eq!(Mint2022Account::check(&account(1, TOKEN_2022_PROGRAM_ID, 82)), Ok(()));
    assert_eq!(Mint2022Account::check(&account(1, TOKEN_PROGRAM_ID, 82)), invalid_owner);
    assert_eq!(Mint2022Account::check(&account(1, TOKEN_2022_PROGRAM_ID, 81)), invalid_data);
    assert_eq!(Mint2022Account::check(&account(1, TOKEN_2022_PROGRAM_ID, 165)), invalid_data);
    let mut extended = account(1, TOKEN_2022_PROGRAM_ID, 166);
    assert_eq!(Mint2022Account::check(&extended), invalid_data);
    assert_eq!(TokenAccount2022Account::check(&extended), invalid_data);
    extended.data[165] = 1;
    assert_eq!(Mint2022Account::check(&extended), Ok(()));
    assert_eq!(TokenAccount2022Account::check(&extended), invalid_data);
    extended.data[165] = 2;
    assert_eq!(Mint2022Account::check(&extended), invalid_data);
    assert_eq!(TokenAccount2022Account::check(&extended), Ok(()));
    assert_eq!(TokenAccount2022Account::check(&account(1, TOKEN_2022_PROGRAM_ID, 165)), Ok(()));
    assert_eq!(TokenAccount2022Account::check(&account(1, TOKEN_2022_PROGRAM_ID, 82)), invalid_data);
    assert_eq!(TokenAccount2022Account::check(&account(1, TOKEN_PROGRAM_ID, 165)), invalid_owner);
}

#[test]
fn checks_of_either_token_program() {
    let invalid_data = Err(custom(PinocchioError::InvalidAccountData));
    let invalid_owner = Err(custom(PinocchioError::InvalidOwner));
    assert_eq!(MintInterface::check(&account(1, TOKEN_PROGRAM_ID, 82)), Ok(()));
    assert_eq!(MintInterface::check(&account(1, TOKEN_2022_PROGRAM_ID, 82)), Ok(()));
    assert_eq!(MintInterface::check(&account(1, TOKEN_PROGRAM_ID, 83)), invalid_data);
    assert_eq!(MintInterface::check(&account(1, TOKEN_2022_PROGRAM_ID, 83)), invalid_data);
    assert_eq!(MintInterface::check(&account(1, SYSTEM_PROGRAM_ID, 82)), invalid_owner);
    let mut extended = account(1, TOKEN_2022_PROGRAM_ID, 200);
    extended.data[165] = 1;
    assert_eq!(MintInterface::check(&extended), Ok(()));
    assert_eq!(TokenAccountInterface::check(&extended), invalid_data);
    extended.owner = TOKEN_PROGRAM_ID;
    assert_eq!(MintInterface::check(&extended), invalid_data);
    assert_eq!(TokenAccountInterface::check(&account(1, TOKEN_PROGRAM_ID, 165)), Ok(()));
    assert_eq!(TokenAccountInterface::check(&account(1, TOKEN_2022_PROGRAM_ID, 165)), Ok(()));
    assert_eq!(TokenAccountInterface::check(&account(1, TOKEN_PROGRAM_ID, 82)), invalid_data);
    assert_eq!(TokenAccountInterface::check(&account(1, STAKE_PROGRAM_ID, 165)), invalid_owner);
}

#[test]
fn associated_token_account_check() {
    let wallet = account(7, SYSTEM_PROGRAM_ID, 0);
    let mint = account(9, TOKEN_PROGRAM_ID, 82);
    let token_program = AccountInfo { key: TOKEN_PROGRAM_ID, ..account(0, SYSTEM_PROGRAM_ID, 0) };
    let derived = find_associated_token_address(&wallet.key, &TOKEN_PROGRAM_ID, &mint.key);
    let mut ata = account(0, TOKEN_PROGRAM_ID, 165);
    ata.key = derived.unwrap().0;
    assert_eq!(AssociatedTokenAccount::check(&ata, &wallet, &mint, &token_program), Ok(()));
    assert_eq!(AssociatedTokenAccount::check_derived(&ata, derived), Ok(()));

    let elsewhere = account(3, TOKEN_PROGRAM_ID, 165);
    assert_eq!(
        AssociatedTokenAccount::check(&elsewhere, &wallet, &mint, &token_program),
        Err(custom(PinocchioError::InvalidAddress))
    );
    let other_wallet = account(8, SYSTEM_PROGRAM_ID, 0);
    assert_eq!(
        AssociatedTokenAccount::check(&ata, &other_wallet, &mint, &token_program),
        Err(custom(PinocchioError::InvalidAddress))
    );
    assert_eq!(
        AssociatedTokenAccount::check_derived(&ata, None),
        Err(ProgramError::InvalidSeeds)
    );
    let mut not_a_token_account = ata.clone();
    not_a_token_account.data = vec![0u8; 82];
    assert_eq!(
        AssociatedTokenAccount::check(&not_a_token_account, &wallet, &mint, &token_program),
        Err(custom(PinocchioError::InvalidAccountData))
    );
    assert_eq!(
        AssociatedTokenAccount::check_derived(&not_a_token_account, None),
        Err(custom(PinocchioError::InvalidAccountData))
    );
    let mut unowned = ata.clone();
    unowned.owner = SYSTEM_PROGRAM_ID;
    assert_eq!(
        AssociatedTokenAccount::check(&unowned, &wallet, &mint, &token_program),
        Err(custom(PinocchioError::InvalidOwner))
    );
}

#[test]
fn expected_addresses() {
    let key = [4u8; 32];
    assert_eq!(expect_address(Some((key, 250)), &key, PinocchioError::InvalidConfigPda), Ok(250));
    assert_eq!(
        expect_address(Some(([5u8; 32], 250)), &key, PinocchioError::InvalidConfigPda),
        Err(custom(PinocchioError::InvalidConfigPda))
    );
    assert_eq!(
        expect_address(Some(([5u8; 32], 250)), &key, PinocchioError::InvalidSplitAccountPda),
        Err(custom(PinocchioError::InvalidSplitAccountPda))
    );
    assert_eq!(
        expect_address(None, &key, PinocchioError::InvalidConfigPda),
        Err(ProgramError::InvalidSeeds)
    );
}

#[test]
fn mint_creation() {
    let mint = account(1, SYSTEM_PROGRAM_ID, 0);
    let payer = account(2, SYSTEM_PROGRAM_ID, 0);
    let authority = [3u8; 32];
    let expected = vec![
        Action::CreateAccount {
            from: [2u8; 32],
            to: [1u8; 32],
            lamports: 1_461_600,
            space: 82,
            owner: TOKEN_PROGRAM_ID,
            signer_seeds: vec![],
        },
        Action::InitializeMint2 {
            mint: [1u8; 32],
            decimals: 9,
            mint_authority: authority,
            freeze_authority: None,
        },
    ];
    assert_eq!(MintAccount::init(&mint, &payer, 9, &authority, None, &rent()), Ok(expected.clone()));
    assert_eq!(
        MintAccount::init_if_needed(&mint, &payer, 9, &authority, None, &rent()),
        Ok(expected)
    );
    let existing = account(1, TOKEN_PROGRAM_ID, 82);
    assert_eq!(
        MintAccount::init_if_needed(&existing, &payer, 9, &authority, None, &rent()),
        Ok(vec![])
    );
    let with_freeze = Mint2022Account::init(&mint, &payer, 6, &authority, Some([4u8; 32]), &rent());
    assert_eq!(
        with_freeze,
        Ok(vec![
            Action::CreateAccount {
                from: [2u8; 32],
                to: [1u8; 32],
                lamports: 1_461_600,
                space: 82,
                owner: TOKEN_2022_PROGRAM_ID,
                signer_seeds: vec![],
            },
            Action::InitializeMint2 {
                mint: [1u8; 32],
                decimals: 6,
                mint_authority: authority,
                freeze_authority: Some([4u8; 32]),
            },
        ])
    );
    assert_eq!(
        Mint2022Account::init_if_needed(&existing, &payer, 6, &authority, None, &rent())
            .unwrap()
            .len(),
        2
    );
    assert_eq!(
        Mint2022Account::init_if_needed(
            &account(1, TOKEN_2022_PROGRAM_ID, 82),
            &payer,
            6,
            &authority,
            None,
            &rent()
        ),
        Ok(vec![])
    );
    let dear = Rent { lamports_per_byte: u64::MAX };
    assert_eq!(
        MintAccount::init(&mint, &payer, 9, &authority, None, &dear),
        Err(ProgramError::InvalidArgument)
    );
    assert_eq!(
        MintAccount::init_if_needed(&existing, &payer, 9, &authority, None, &dear),
        Ok(vec![])
    );
}

#[test]
fn token_account_creation() {
    let token = account(1, SYSTEM_PROGRAM_ID, 0);
    let mint = account(5, TOKEN_PROGRAM_ID, 82);
    let payer = account(2, SYSTEM_PROGRAM_ID, 0);
    let owner = [3u8; 32];
    let expected = vec![
        Action::CreateAccount {
            from: [2u8; 32],
            to: [1u8; 32],
            lamports: 2_039_280,
            space: 165,
            owner: TOKEN_PROGRAM_ID,
            signer_seeds: vec![],
        },
        Action::InitializeAccount3 { account: [1u8; 32], mint: [5u8; 32], owner },
    ];
    assert_eq!(TokenAccount::init(&token, &mint, &payer, &owner, &rent()), Ok(expected.clone()));
    assert_eq!(TokenAccount::init_if_needed(&token, &mint, &payer, &owner, &rent()), Ok(expected));
    assert_eq!(
        TokenAccount::init_if_needed(
            &account(1, TOKEN_PROGRAM_ID, 165),
            &mint,
            &payer,
            &owner,
            &rent()
        ),
        Ok(vec![])
    );
    let extended = TokenAccount2022Account::init(&token, &mint, &payer, &owner, &rent()).unwrap();
    assert_eq!(
        extended[0],
        Action::CreateAccount {
            from: [2u8; 32],
            to: [1u8; 32],
            lamports: 2_039_280,
            space: 165,
            owner: TOKEN_2022_PROGRAM_ID,
            signer_seeds: vec![],
        }
    );
    assert_eq!(
        TokenAccount2022Account::init_if_needed(
            &account(1, TOKEN_2022_PROGRAM_ID, 165),
            &mint,
            &payer,
            &owner,
            &rent()
        ),
        Ok(vec![])
    );
    assert_eq!(
        TokenAccount::init(&token, &mint, &payer, &owner, &Rent { lamports_per_byte: u64::MAX }),
        Err(ProgramError::InvalidArgument)
    );
}

#[test]
fn associated_token_account_creation() {
    let wallet = account(7, SYSTEM_PROGRAM_ID, 0);
    let mint = account(9, TOKEN_PROGRAM_ID, 82);
    let system_program = AccountInfo { key: SYSTEM_PROGRAM_ID, ..account(0, SYSTEM_PROGRAM_ID, 0) };
    let token_program = AccountInfo { key: TOKEN_PROGRAM_ID, ..account(0, SYSTEM_PROGRAM_ID, 0) };
    let derived = find_associated_token_address(&wallet.key, &TOKEN_PROGRAM_ID, &mint.key);
    let mut ata = account(0, SYSTEM_PROGRAM_ID, 0);
    ata.key = derived.unwrap().0;
    let create = Action::CreateAssociatedTokenAccount {
        funding_account: wallet.key,
        account: ata.key,
        wallet: wallet.key,
        mint: mint.key,
        system_program: SYSTEM_PROGRAM_ID,
        token_program: TOKEN_PROGRAM_ID,
    };
    assert_eq!(
        AssociatedTokenAccount::init(&ata, &mint, &wallet, &wallet, &system_program, &token_program),
        create
    );
    assert_eq!(
        AssociatedTokenAccount::init_if_needed(
            &ata,
            &mint,
            &wallet,
            &wallet,
            &system_program,
            &token_program
        ),
        vec![create.clone()]
    );
    let mut existing = ata.clone();
    existing.owner = TOKEN_PROGRAM_ID;
    existing.data = vec![0u8; 165];
    assert_eq!(
        AssociatedTokenAccount::init_if_needed(
            &existing,
            &mint,
            &wallet,
            &wallet,
            &system_program,
            &token_program
        ),
        vec![]
    );
    assert_eq!(
        AssociatedTokenAccount::init_if_needed_derived(
            &existing,
            &mint,
            &wallet,
            &wallet,
            &system_program,
            &token_program,
            None
        ),
        vec![Action::CreateAssociatedTokenAccount {
            funding_account: wallet.key,
            account: ata.key,
            wallet: wallet.key,
            mint: mint.key,
            system_program: SYSTEM_PROGRAM_ID,
            token_program: TOKEN_PROGRAM_ID,
        }]
    );
    assert_eq!(ASSOCIATED_TOKEN_PROGRAM_ID[0], 140);
}

#[test]
fn program_and_stake_account_creation() {
    let payer = account(2, SYSTEM_PROGRAM_ID, 0);
    let target = account(1, SYSTEM_PROGRAM_ID, 0);
    assert_eq!(
        ProgramAccount::init(&payer, &target, &seeds(), 160, &ID, &rent()),
        Ok(Action::CreateAccount {
            from: [2u8; 32],
            to: [1u8; 32],
            lamports: 2_004_480,
            space: 160,
            owner: ID,
            signer_seeds: seeds(),
        })
    );
    assert_eq!(
        ProgramAccount::init(&payer, &target, &seeds(), 10_485_761, &ID, &rent()),
        Err(ProgramError::InvalidArgument)
    );
    assert_eq!(
        ProgramAccount::stake_account_create(&payer, &target, &seeds(), &rent()),
        Ok(Action::CreateAccount {
            from: [2u8; 32],
            to: [1u8; 32],
            lamports: 1_002_282_880,
            space: 200,
            owner: STAKE_PROGRAM_ID,
            signer_seeds: seeds(),
        })
    );
    assert_eq!(
        ProgramAccount::stake_account_create(
            &payer,
            &target,
            &seeds(),
            &Rent { lamports_per_byte: 1_759_197_129_868 }
        ),
        Err(ProgramError::InvalidArgument)
    );
    assert_eq!(
        ProgramAccount::stake_account_create(
            &payer,
            &target,
            &seeds(),
            &Rent { lamports_per_byte: 1_759_197_129_867 }
        ),
        Ok(Action::CreateAccount {
            from: [2u8; 32],
            to: [1u8; 32],
            lamports: 328 * 1_759_197_129_867 + 1_000_000_000,
            space: 200,
            owner: STAKE_PROGRAM_ID,
            signer_seeds: seeds(),
        })
    );
}

fn meta(tag: u8, is_writable: bool, is_signer: bool) -> AccountMeta {
    AccountMeta { pubkey: [tag; 32], is_writable, is_signer }
}

fn readonly(tag: u8) -> AccountInfo {
    AccountInfo { is_writable: false, ..account(tag, SYSTEM_PROGRAM_ID, 0) }
}

#[test]
fn account_metas() {
    assert_eq!(AccountMeta::new(&[1u8; 32], true, false), meta(1, true, false));
    assert_eq!(AccountMeta::new(&[1u8; 32], false, true), meta(1, false, true));
    assert_eq!(AccountMeta::readonly_signer(&[1u8; 32]), meta(1, false, true));
    let mut a = account(6, SYSTEM_PROGRAM_ID, 0);
    assert_eq!(AccountMeta::of(&a), meta(6, true, false));
    a.is_signer = true;
    a.is_writable = false;
    assert_eq!(AccountMeta::of(&a), meta(6, false, true));
}

#[test]
fn stake_initialize_instruction() {
    let stake = account(1, STAKE_PROGRAM_ID, 200);
    let authority = account(2, ID, 160);
    let other = account(3, ID, 160);
    let mut data = vec![0u8, 0, 0, 0];
    data.extend_from_slice(&[2u8; 32]);
    data.extend_from_slice(&[3u8; 32]);
    data.extend_from_slice(&[0u8; 48]);
    assert_eq!(data.len(), 116);
    assert_eq!(
        ProgramAccount::initialize_stake_account_no_lockup(
            &stake,
            &authority,
            &other,
            &readonly(4),
            &seeds()
        ),
        Action::Invoke {
            program_id: STAKE_PROGRAM_ID,
            accounts: vec![meta(1, true, false), meta(4, false, false)],
            data,
            signer_seeds: seeds(),
        }
    );
}

#[test]
fn stake_delegate_instruction() {
    let stake = account(1, STAKE_PROGRAM_ID, 200);
    let vote = account(2, VOTE_PROGRAM_ID, 3762);
    let authority = account(6, ID, 160);
    assert_eq!(
        ProgramAccount::delegate_stake_account(
            &stake,
            &vote,
            &readonly(3),
            &readonly(4),
            &readonly(5),
            &authority,
            &seeds()
        ),
        Action::Invoke {
            program_id: STAKE_PROGRAM_ID,
            accounts: vec![
                meta(1, true, false),
                meta(2, true, false),
                meta(3, false, false),
                meta(4, false, false),
                meta(5, false, false),
                meta(6, false, true),
            ],
            data: vec![2, 0, 0, 0],
            signer_seeds: seeds(),
        }
    );
}

#[test]
fn stake_merge_instruction() {
    let main = account(1, STAKE_PROGRAM_ID, 200);
    let reserve = account(2, STAKE_PROGRAM_ID, 200);
    let authority = account(5, ID, 160);
    assert_eq!(
        ProgramAccount::merge_stake_account(
            &main,
            &reserve,
            &readonly(3),
            &readonly(4),
            &authority,
            &seeds()
        ),
        Action::Invoke {
            program_id: STAKE_PROGRAM_ID,
            accounts: vec![
                meta(1, true, false),
                meta(2, true, false),
                meta(3, false, false),
                meta(4, false, false),
                meta(5, false, true),
            ],
            data: vec![7, 0, 0, 0],
            signer_seeds: seeds(),
        }
    );
}

#[test]
fn stake_split_instruction() {
    let main = account(1, STAKE_PROGRAM_ID, 200);
    let split = account(2, STAKE_PROGRAM_ID, 200);
    let authority = account(3, ID, 160);
    assert_eq!(
        ProgramAccount::split_stake_account(&main, &split, 1_500_000_000, &authority, &seeds()),
        Action::Invoke {
            program_id: STAKE_PROGRAM_ID,
            accounts: vec![meta(1, true, false), meta(2, true, false), meta(3, false, true)],
            data: vec![3, 0, 0, 0, 0, 47, 104, 89, 0, 0, 0, 0],
            signer_seeds: seeds(),
        }
    );
}

#[test]
fn stake_deactivate_instruction() {
    let split = account(1, STAKE_PROGRAM_ID, 200);
    let authority = account(3, ID, 160);
    assert_eq!(
        ProgramAccount::deactivate_stake_account(&split, &readonly(2), &authority, &seeds()),
        Action::Invoke {
            program_id: STAKE_PROGRAM_ID,
            accounts: vec![meta(1, true, false), meta(2, false, false), meta(3, false, true)],
            data: vec![5, 0, 0, 0],
            signer_seeds: seeds(),
        }
    );
}

#[test]
fn stake_withdraw_instruction() {
    let mut split = account(1, STAKE_PROGRAM_ID, 200);
    split.lamports = 2_502_282_880;
    let mut withdrawer = account(2, SYSTEM_PROGRAM_ID, 0);
    withdrawer.is_signer = true;
    let authority = account(5, ID, 160);
    let mut data = vec![4u8, 0, 0, 0];
    data.extend_from_slice(&2_502_282_880u64.to_le_bytes());
    assert_eq!(
        ProgramAccount::withdraw_stake_account(
            &split,
            &withdrawer,
            &readonly(3),
            &readonly(4),
            &authority,
            &seeds()
        ),
        Action::Invoke {
            program_id: STAKE_PROGRAM_ID,
            accounts: vec![
                meta(1, true, false),
                meta(2, true, true),
                meta(3, false, false),
                meta(4, false, false),
                meta(5, false, true),
            ],
            data,
            signer_seeds: seeds(),
        }
    );
}

#[test]
fn closing_moves_the_balance_and_empties_the_account() {
    let mut closed = account(1, ID, 160);
    closed.lamports = 2_004_480;
    let mut destination = account(2, SYSTEM_PROGRAM_ID, 0);
    destination.lamports = 5;
    assert_eq!(ProgramAccount::close(&mut closed, &mut destination), Ok(()));
    assert_eq!(closed, AccountInfo { lamports: 0, ..account(1, SYSTEM_PROGRAM_ID, 0) });
    assert_eq!(destination, AccountInfo { lamports: 2_004_485, ..account(2, SYSTEM_PROGRAM_ID, 0) });
}

#[test]
fn plans_grow_at_their_end() {
    let first = Action::Transfer { from: [1u8; 32], to: [2u8; 32], lamports: 3 };
    let second = Action::Burn { account: [1u8; 32], mint: [2u8; 32], authority: [3u8; 32], amount: 4 };
    let third = Action::Transfer { from: [5u8; 32], to: [6u8; 32], lamports: 7 };
    let mut plan = vec![first.clone()];
    extend_plan(&mut plan, vec![second.clone(), third.clone()]);
    assert_eq!(plan, vec![first.clone(), second.clone(), third.clone()]);
    extend_plan(&mut plan, vec![]);
    assert_eq!(plan.len(), 3);
    push_step(&mut plan, first.clone());
    assert_eq!(plan, vec![first.clone(), second, third, first]);
    assert_eq!(clone_seeds(&seeds()), seeds());
    assert_eq!(clone_seeds(&vec![]), Vec::<Vec<u8>>::new());
}
