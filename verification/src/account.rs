//! Accounts as an instruction sees them, and the fields that the pool reads
//! in the records of the token and stake programs.
use vstd::prelude::*;
use crate::bytes::{le_u32, le_u64, spec_le_u32, spec_le_u64};
use crate::errors::ProgramError;
use crate::pubkey::{pubkey_eq, token_program_id, Pubkey, TOKEN_PROGRAM_ID};

verus! {

/// Length of a mint record of the token program.
pub const MINT_LEN: usize = 82;

/// Length of a token account record of the token program.
pub const TOKEN_ACCOUNT_LEN: usize = 165;

/// Offset of the supply in a mint record.
pub const MINT_SUPPLY_OFFSET: usize = 36;

/// Offset of the amount in a token account record.
pub const TOKEN_AMOUNT_OFFSET: usize = 64;

/// Lifecycle tag of a stake account that is not initialized.
pub const STAKE_STATE_UNINITIALIZED: u32 = 0;

/// Lifecycle tag of a stake account that is delegated.
pub const STAKE_STATE_DELEGATED: u32 = 2;

/// Reads `pinocchio_token::state::Mint::LEN`. The contract claims that it
/// is 82.
#[verifier::external_body]
pub(crate) fn mint_len() -> (len: usize)
    ensures
        len == MINT_LEN,
{
    pinocchio_token::state::Mint::LEN
}

/// Reads `pinocchio_token::state::Account::LEN`. The contract claims that it
/// is 165.
#[verifier::external_body]
pub(crate) fn token_len() -> (len: usize)
    ensures
        len == TOKEN_ACCOUNT_LEN,
{
    pinocchio_token::state::Account::LEN
}

/// An account as handed to an instruction: its address, its owner, its
/// balance, whether it signed and may be written, and its data.
#[derive(Clone, Debug, PartialEq, Eq)]
pub struct AccountInfo {
    /// Address of the account.
    pub key: Pubkey,
    /// Program that owns the account.
    pub owner: Pubkey,
    /// Balance in lamports.
    pub lamports: u64,
    /// Whether the account signed the transaction.
    pub is_signer: bool,
    /// Whether the instruction may write the account.
    pub is_writable: bool,
    /// The account's data.
    pub data: Vec<u8>,
}

impl AccountInfo {
    /// The supply that the account holds as a mint of the token program:
    /// `InvalidAccountData` unless it has the length of a mint,
    /// `InvalidAccountOwner` unless the token program owns it, else the
    /// little-endian value at offset 36.
    pub open spec fn spec_mint_supply(self) -> Result<u64, ProgramError> {
        if self.data@.len() != MINT_LEN {
            Err(ProgramError::InvalidAccountData)
        } else if self.owner@ != TOKEN_PROGRAM_ID@ {
            Err(ProgramError::InvalidAccountOwner)
        } else {
            Ok(spec_le_u64(self.data@.subrange(36, 44)))
        }
    }

    /// The amount that the account holds as a token account of the token
    /// program: `InvalidAccountData` unless it has the length of a token
    /// account and the token program owns it, else the little-endian value at
    /// offset 64.
    pub open spec fn spec_token_amount(self) -> Result<u64, ProgramError> {
        if self.data@.len() != TOKEN_ACCOUNT_LEN || self.owner@ != TOKEN_PROGRAM_ID@ {
            Err(ProgramError::InvalidAccountData)
        } else {
            Ok(spec_le_u64(self.data@.subrange(64, 72)))
        }
    }

    /// The lifecycle tag of the account as a stake account: the
    /// little-endian value of its first four bytes, `InvalidAccountData`
    /// where it has fewer.
    pub open spec fn spec_stake_state(self) -> Result<u32, ProgramError> {
        if self.data@.len() < 4 {
            Err(ProgramError::InvalidAccountData)
        } else {
            Ok(spec_le_u32(self.data@.subrange(0, 4)))
        }
    }

    /// The address of the account.
    pub fn key(&self) -> (key: &Pubkey)
        ensures
            key@ == self.key@,
    {
        &self.key
    }

    /// The program that owns the account.
    pub fn owner(&self) -> (owner: &Pubkey)
        ensures
            owner@ == self.owner@,
    {
        &self.owner
    }

    /// The balance of the account in lamports.
    pub fn lamports(&self) -> (lamports: u64)
        ensures
            lamports == self.lamports,
    {
        self.lamports
    }

    /// Whether the account signed the transaction.
    pub fn is_signer(&self) -> (r: bool)
        ensures
            r == self.is_signer,
    {
        self.is_signer
    }

    /// Whether the instruction may write the account.
    pub fn is_writable(&self) -> (r: bool)
        ensures
            r == self.is_writable,
    {
        self.is_writable
    }

    /// The length of the account's data.
    pub fn data_len(&self) -> (len: usize)
        ensures
            len == self.data@.len(),
    {
        self.data.len()
    }

    /// Whether the account holds no data.
    pub fn data_is_empty(&self) -> (r: bool)
        ensures
            r == (self.data@.len() == 0),
    {
        self.data.len() == 0
    }

    /// Whether `program` owns the account.
    pub fn is_owned_by(&self, program: &Pubkey) -> (r: bool)
        ensures
            r == (self.owner@ == program@),
    {
        pubkey_eq(&self.owner, program)
    }

    /// Whether the account's address is `key`.
    pub fn has_key(&self, key: &Pubkey) -> (r: bool)
        ensures
            r == (self.key@ == key@),
    {
        pubkey_eq(&self.key, key)
    }

    /// Reads the supply of a mint of the token program.
    pub fn mint_supply(&self) -> (r: Result<u64, ProgramError>)
        ensures
            r == self.spec_mint_supply(),
    {
        if self.data.len() != mint_len() {
            return Err(ProgramError::InvalidAccountData);
        }
        if !self.is_owned_by(&token_program_id()) {
            return Err(ProgramError::InvalidAccountOwner);
        }
        Ok(le_u64(self.data.as_slice(), MINT_SUPPLY_OFFSET))
    }

    /// Reads the amount of a token account of the token program.
    pub fn token_amount(&self) -> (r: Result<u64, ProgramError>)
        ensures
            r == self.spec_token_amount(),
    {
        if self.data.len() != token_len() {
            return Err(ProgramError::InvalidAccountData);
        }
        if !self.is_owned_by(&token_program_id()) {
            return Err(ProgramError::InvalidAccountData);
        }
        Ok(le_u64(self.data.as_slice(), TOKEN_AMOUNT_OFFSET))
    }

    /// Reads the lifecycle tag of a stake account.
    pub fn stake_state(&self) -> (r: Result<u32, ProgramError>)
        ensures
            r == self.spec_stake_state(),
    {
        if self.data.len() < 4 {
            return Err(ProgramError::InvalidAccountData);
        }
        Ok(le_u32(self.data.as_slice(), 0))
    }
}

} // verus!
