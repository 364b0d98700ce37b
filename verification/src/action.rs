//! What an instruction asks of its collaborators: the calls into the system,
//! token, associated token and stake programs, in the order in which they are
//! to be made.
use vstd::prelude::*;
use crate::account::AccountInfo;
use crate::errors::ProgramError;
use crate::pubkey::{seeds_view, Pubkey};
use crate::state::{Config, ConfigView};

verus! {

/// An account of a call: its address and how the callee may use it.
#[derive(Clone, Copy, Debug, PartialEq, Eq)]
pub struct AccountMeta {
    /// Address of the account.
    pub pubkey: Pubkey,
    /// Whether the callee may write the account.
    pub is_writable: bool,
    /// Whether the account signs the call.
    pub is_signer: bool,
}

/// An account of a call as plain values.
pub struct AccountMetaView {
    pub pubkey: Seq<u8>,
    pub is_writable: bool,
    pub is_signer: bool,
}

impl View for AccountMeta {
    type V = AccountMetaView;

    open spec fn view(&self) -> AccountMetaView {
        AccountMetaView {
            pubkey: self.pubkey@,
            is_writable: self.is_writable,
            is_signer: self.is_signer,
        }
    }
}

impl AccountMeta {
    /// The account `pubkey` with the given flags.
    pub fn new(pubkey: &Pubkey, is_writable: bool, is_signer: bool) -> (meta: AccountMeta)
        ensures
            meta@ == (AccountMetaView { pubkey: pubkey@, is_writable, is_signer }),
    {
        AccountMeta { pubkey: *pubkey, is_writable, is_signer }
    }

    /// The account `pubkey`, signing and not writable.
    pub fn readonly_signer(pubkey: &Pubkey) -> (meta: AccountMeta)
        ensures
            meta@ == (AccountMetaView { pubkey: pubkey@, is_writable: false, is_signer: true }),
    {
        AccountMeta { pubkey: *pubkey, is_writable: false, is_signer: true }
    }

    /// The account `account` with the flags that it has in this instruction.
    pub fn of(account: &AccountInfo) -> (meta: AccountMeta)
        ensures
            meta@ == meta_of(*account),
    {
        AccountMeta {
            pubkey: account.key,
            is_writable: account.is_writable,
            is_signer: account.is_signer,
        }
    }
}

/// The account `account` with the flags that it has in this instruction.
pub open spec fn meta_of(account: AccountInfo) -> AccountMetaView {
    AccountMetaView {
        pubkey: account.key@,
        is_writable: account.is_writable,
        is_signer: account.is_signer,
    }
}

/// The accounts of a call as plain values.
pub open spec fn metas_view(metas: &Vec<AccountMeta>) -> Seq<AccountMetaView> {
    Seq::new(metas@.len(), |i: int| metas@[i]@)
}

/// One step of an instruction. `signer_seeds` holds the seeds with which
/// the program signs the call for one of its derived addresses, and is empty
/// where it signs for none.
#[derive(Clone, Debug, PartialEq, Eq)]
pub enum Action {
    /// System program: create the account `to`, paid by `from`.
    CreateAccount {
        from: Pubkey,
        to: Pubkey,
        lamports: u64,
        space: u64,
        owner: Pubkey,
        signer_seeds: Vec<Vec<u8>>,
    },
    /// System program: move lamports from `from` to `to`.
    Transfer { from: Pubkey, to: Pubkey, lamports: u64 },
    /// Token program: initialize the mint `mint`.
    InitializeMint2 {
        mint: Pubkey,
        decimals: u8,
        mint_authority: Pubkey,
        freeze_authority: Option<Pubkey>,
    },
    /// Token program: initialize the token account `account`.
    InitializeAccount3 { account: Pubkey, mint: Pubkey, owner: Pubkey },
    /// Associated token program: create the token account of `wallet`.
    CreateAssociatedTokenAccount {
        funding_account: Pubkey,
        account: Pubkey,
        wallet: Pubkey,
        mint: Pubkey,
        system_program: Pubkey,
        token_program: Pubkey,
    },
    /// Token program: mint `amount` tokens to `account`.
    MintTo {
        mint: Pubkey,
        account: Pubkey,
        mint_authority: Pubkey,
        amount: u64,
        signer_seeds: Vec<Vec<u8>>,
    },
    /// Token program: burn `amount` tokens of `account`.
    Burn { account: Pubkey, mint: Pubkey, authority: Pubkey, amount: u64 },
    /// A call of `program_id` with the given accounts and data.
    Invoke {
        program_id: Pubkey,
        accounts: Vec<AccountMeta>,
        data: Vec<u8>,
        signer_seeds: Vec<Vec<u8>>,
    },
    /// Write the configuration record into the data of `account`.
    WriteConfig { account: Pubkey, config: Config },
}

/// A step as plain values.
pub enum ActionView {
    CreateAccount {
        from: Seq<u8>,
        to: Seq<u8>,
        lamports: u64,
        space: u64,
        owner: Seq<u8>,
        signer_seeds: Seq<Seq<u8>>,
    },
    Transfer { from: Seq<u8>, to: Seq<u8>, lamports: u64 },
    InitializeMint2 {
        mint: Seq<u8>,
        decimals: u8,
        mint_authority: Seq<u8>,
        freeze_authority: Option<Seq<u8>>,
    },
    InitializeAccount3 { account: Seq<u8>, mint: Seq<u8>, owner: Seq<u8> },
    CreateAssociatedTokenAccount {
        funding_account: Seq<u8>,
        account: Seq<u8>,
        wallet: Seq<u8>,
        mint: Seq<u8>,
        system_program: Seq<u8>,
        token_program: Seq<u8>,
    },
    MintTo {
        mint: Seq<u8>,
        account: Seq<u8>,
        mint_authority: Seq<u8>,
        amount: u64,
        signer_seeds: Seq<Seq<u8>>,
    },
    Burn { account: Seq<u8>, mint: Seq<u8>, authority: Seq<u8>, amount: u64 },
    Invoke {
        program_id: Seq<u8>,
        accounts: Seq<AccountMetaView>,
        data: Seq<u8>,
        signer_seeds: Seq<Seq<u8>>,
    },
    WriteConfig { account: Seq<u8>, config: ConfigView },
}

/// An optional address as plain values.
pub open spec fn optional_key_view(key: Option<Pubkey>) -> Option<Seq<u8>> {
    match key {
        Some(k) => Some(k@),
        None => None,
    }
}

impl View for Action {
    type V = ActionView;

    open spec fn view(&self) -> ActionView {
        match *self {
            Action::CreateAccount { from, to, lamports, space, owner, signer_seeds } => {
                ActionView::CreateAccount {
                    from: from@,
                    to: to@,
                    lamports,
                    space,
                    owner: owner@,
                    signer_seeds: seeds_view(&signer_seeds),
                }
            },
            Action::Transfer { from, to, lamports } => ActionView::Transfer {
                from: from@,
                to: to@,
                lamports,
            },
            Action::InitializeMint2 { mint, decimals, mint_authority, freeze_authority } => {
                ActionView::InitializeMint2 {
                    mint: mint@,
                    decimals,
                    mint_authority: mint_authority@,
                    freeze_authority: optional_key_view(freeze_authority),
                }
            },
            Action::InitializeAccount3 { account, mint, owner } => ActionView::InitializeAccount3 {
                account: account@,
                mint: mint@,
                owner: owner@,
            },
            Action::CreateAssociatedTokenAccount {
                funding_account,
                account,
                wallet,
                mint,
                system_program,
                token_program,
            } => ActionView::CreateAssociatedTokenAccount {
                funding_account: funding_account@,
                account: account@,
                wallet: wallet@,
                mint: mint@,
                system_program: system_program@,
                token_program: token_program@,
            },
            Action::MintTo { mint, account, mint_authority, amount, signer_seeds } => {
                ActionView::MintTo {
                    mint: mint@,
                    account: account@,
                    mint_authority: mint_authority@,
                    amount,
                    signer_seeds: seeds_view(&signer_seeds),
                }
            },
            Action::Burn { account, mint, authority, amount } => ActionView::Burn {
                account: account@,
                mint: mint@,
                authority: authority@,
                amount,
            },
            Action::Invoke { program_id, accounts, data, signer_seeds } => ActionView::Invoke {
                program_id: program_id@,
                accounts: metas_view(&accounts),
                data: data@,
                signer_seeds: seeds_view(&signer_seeds),
            },
            Action::WriteConfig { account, config } => ActionView::WriteConfig {
                account: account@,
                config: config@,
            },
        }
    }
}

/// The steps of a plan as plain values.
pub open spec fn plan_view(plan: &Vec<Action>) -> Seq<ActionView> {
    Seq::new(plan@.len(), |i: int| plan@[i]@)
}

/// The outcome of an instruction as plain values: its plan or its failure.
pub open spec fn outcome_view(r: Result<Vec<Action>, ProgramError>) -> Result<
    Seq<ActionView>,
    ProgramError,
> {
    match r {
        Ok(plan) => Ok(plan_view(&plan)),
        Err(e) => Err(e),
    }
}

/// Appends the steps of `more` to `plan`.
pub fn extend_plan(plan: &mut Vec<Action>, more: Vec<Action>)
    ensures
        plan_view(final(plan)) == plan_view(old(plan)) + plan_view(&more),
{
    let mut rest = more;
    let ghost before = plan@;
    let ghost added = rest@;
    plan.append(&mut rest);
    assert(plan@ == before + added);
    assert(plan_view(plan) =~= plan_view(old(plan)) + plan_view(&more));
}

/// Appends one step to `plan`.
pub fn push_step(plan: &mut Vec<Action>, step: Action)
    ensures
        plan_view(final(plan)) == plan_view(old(plan)).push(step@),
{
    plan.push(step);
    assert(plan_view(plan) =~= plan_view(old(plan)).push(step@));
}

} // verus!
