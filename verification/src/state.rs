//! The pool's configuration record and its fixed byte layout.
use vstd::prelude::*;
use crate::errors::ProgramError;
use crate::pubkey::{append_pubkey, pubkey_at, Pubkey};

verus! {

/// The configuration record of the pool: five addresses, fixed when the pool
/// is initialized.
#[derive(Clone, Copy, Debug, PartialEq, Eq)]
pub struct Config {
    /// The account that initialized the pool.
    pub admin: Pubkey,
    /// The mint of the claim token.
    pub lst_mint: Pubkey,
    /// The main stake account.
    pub stake_account_main: Pubkey,
    /// The reserve stake account.
    pub stake_account_reserve: Pubkey,
    /// The vote account of the validator that the pool delegates to.
    pub validator_vote_pubkey: Pubkey,
}

/// A configuration record as plain values.
pub struct ConfigView {
    pub admin: Seq<u8>,
    pub lst_mint: Seq<u8>,
    pub stake_account_main: Seq<u8>,
    pub stake_account_reserve: Seq<u8>,
    pub validator_vote_pubkey: Seq<u8>,
}

impl View for Config {
    type V = ConfigView;

    open spec fn view(&self) -> ConfigView {
        ConfigView {
            admin: self.admin@,
            lst_mint: self.lst_mint@,
            stake_account_main: self.stake_account_main@,
            stake_account_reserve: self.stake_account_reserve@,
            validator_vote_pubkey: self.validator_vote_pubkey@,
        }
    }
}

impl ConfigView {
    /// Every field holds 32 bytes.
    pub open spec fn wf(self) -> bool {
        &&& self.admin.len() == 32
        &&& self.lst_mint.len() == 32
        &&& self.stake_account_main.len() == 32
        &&& self.stake_account_reserve.len() == 32
        &&& self.validator_vote_pubkey.len() == 32
    }

    /// The 160 bytes of the record: the five addresses in order.
    pub open spec fn to_bytes(self) -> Seq<u8> {
        self.admin + self.lst_mint + self.stake_account_main + self.stake_account_reserve
            + self.validator_vote_pubkey
    }

    /// The record that 160 bytes hold.
    pub open spec fn from_bytes(bytes: Seq<u8>) -> ConfigView {
        ConfigView {
            admin: bytes.subrange(0, 32),
            lst_mint: bytes.subrange(32, 64),
            stake_account_main: bytes.subrange(64, 96),
            stake_account_reserve: bytes.subrange(96, 128),
            validator_vote_pubkey: bytes.subrange(128, 160),
        }
    }
}

/// What loading a record from `bytes` gives: the record where there are
/// exactly 160 bytes, else `InvalidAccountData`.
pub open spec fn spec_load(bytes: Seq<u8>) -> Result<ConfigView, ProgramError> {
    if bytes.len() != Config::LEN {
        Err(ProgramError::InvalidAccountData)
    } else {
        Ok(ConfigView::from_bytes(bytes))
    }
}

/// A load result with the record as plain values.
pub open spec fn load_view(r: Result<Config, ProgramError>) -> Result<ConfigView, ProgramError> {
    match r {
        Ok(config) => Ok(config@),
        Err(e) => Err(e),
    }
}

impl Config {
    /// Length of the record in bytes.
    pub const LEN: usize = 160;

    /// Reads the record from the data of the config account.
    pub fn load(bytes: &[u8]) -> (r: Result<Config, ProgramError>)
        ensures
            load_view(r) == spec_load(bytes@),
    {
        if bytes.len() != Config::LEN {
            return Err(ProgramError::InvalidAccountData);
        }
        Ok(
            Config {
                admin: pubkey_at(bytes, 0),
                lst_mint: pubkey_at(bytes, 32),
                stake_account_main: pubkey_at(bytes, 64),
                stake_account_reserve: pubkey_at(bytes, 96),
                validator_vote_pubkey: pubkey_at(bytes, 128),
            },
        )
    }

    /// The 160 bytes of the record.
    pub fn to_bytes(&self) -> (bytes: Vec<u8>)
        ensures
            bytes@ == self@.to_bytes(),
            bytes@.len() == Config::LEN,
    {
        let mut out: Vec<u8> = Vec::new();
        assert(out@ =~= Seq::<u8>::empty());
        append_pubkey(&mut out, &self.admin);
        append_pubkey(&mut out, &self.lst_mint);
        append_pubkey(&mut out, &self.stake_account_main);
        append_pubkey(&mut out, &self.stake_account_reserve);
        append_pubkey(&mut out, &self.validator_vote_pubkey);
        assert(out@ =~= self@.to_bytes());
        out
    }

    /// Writes the record over the data of the config account, which must
    /// hold exactly 160 bytes; other data is left as it is and refused with
    /// `InvalidAccountData`.
    pub fn store(&self, data: &mut Vec<u8>) -> (r: Result<(), ProgramError>)
        ensures
            old(data)@.len() == Config::LEN ==> r.is_ok() && final(data)@ == self@.to_bytes(),
            old(data)@.len() != Config::LEN ==> r == Err::<(), ProgramError>(
                ProgramError::InvalidAccountData,
            ) && final(data)@ == old(data)@,
    {
        if data.len() != Config::LEN {
            return Err(ProgramError::InvalidAccountData);
        }
        *data = self.to_bytes();
        Ok(())
    }

    /// Sets all five addresses of the record.
    pub fn set_inner(
        &mut self,
        admin: Pubkey,
        lst_mint: Pubkey,
        stake_account_main: Pubkey,
        stake_account_reserve: Pubkey,
        validator_vote_pubkey: Pubkey,
    )
        ensures
            final(self)@ == (ConfigView {
                admin: admin@,
                lst_mint: lst_mint@,
                stake_account_main: stake_account_main@,
                stake_account_reserve: stake_account_reserve@,
                validator_vote_pubkey: validator_vote_pubkey@,
            }),
    {
        self.admin = admin;
        self.lst_mint = lst_mint;
        self.stake_account_main = stake_account_main;
        self.stake_account_reserve = stake_account_reserve;
        self.validator_vote_pubkey = validator_vote_pubkey;
    }
}

/// Loading the bytes of a record gives the record back.
pub proof fn lemma_load_to_bytes(config: ConfigView)
    requires
        config.wf(),
    ensures
        config.to_bytes().len() == Config::LEN,
        spec_load(config.to_bytes()) == Ok::<ConfigView, ProgramError>(config),
{
    let bytes = config.to_bytes();
    assert(bytes.subrange(0, 32) =~= config.admin);
    assert(bytes.subrange(32, 64) =~= config.lst_mint);
    assert(bytes.subrange(64, 96) =~= config.stake_account_main);
    assert(bytes.subrange(96, 128) =~= config.stake_account_reserve);
    assert(bytes.subrange(128, 160) =~= config.validator_vote_pubkey);
}

/// The bytes of the record that 160 bytes hold are those bytes.
pub proof fn lemma_to_bytes_load(bytes: Seq<u8>)
    requires
        bytes.len() == Config::LEN,
    ensures
        ConfigView::from_bytes(bytes).wf(),
        ConfigView::from_bytes(bytes).to_bytes() == bytes,
{
    assert(ConfigView::from_bytes(bytes).to_bytes() =~= bytes);
}

} // verus!
