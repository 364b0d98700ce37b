//! Rent: the balance that exempts an account of a given size from rent.
use vstd::prelude::*;

verus! {

/// Bytes of storage that the runtime charges for every account besides its
/// data.
pub const ACCOUNT_STORAGE_OVERHEAD: u64 = 128;

/// Greatest data length that an account may have.
pub const MAX_PERMITTED_DATA_LENGTH: u64 = 10485760;

/// Greatest rent rate for which a minimum balance is computed.
pub const MAX_LAMPORTS_PER_BYTE: u64 = 1_759_197_129_867;

/// The rent parameters of the cluster.
#[derive(Clone, Copy, Debug, PartialEq, Eq)]
pub struct Rent {
    /// Lamports charged per byte of storage.
    pub lamports_per_byte: u64,
}

/// The balance that exempts an account with `data_len` bytes of data from
/// rent at the rate `lamports_per_byte`; `None` where the length or the rate
/// is above its limit.
pub open spec fn spec_minimum_balance(lamports_per_byte: u64, data_len: usize) -> Option<u64> {
    if data_len > MAX_PERMITTED_DATA_LENGTH || lamports_per_byte > MAX_LAMPORTS_PER_BYTE {
        None
    } else {
        Some(((ACCOUNT_STORAGE_OVERHEAD + data_len) * lamports_per_byte) as u64)
    }
}

/// Calls `pinocchio::sysvars::rent::Rent::try_minimum_balance` on the rent
/// value that `Rent::from_bytes` reads from the rate. The contract claims
/// that it fails where the data length is above 10 MiB or the rate above
/// 1,759,197,129,867, and that it otherwise returns the rate times the data
/// length plus 128.
#[verifier::external_body]
fn try_minimum_balance(lamports_per_byte: u64, data_len: usize) -> (balance: Option<u64>)
    ensures
        balance == spec_minimum_balance(lamports_per_byte, data_len),
{
    let rent = pinocchio::sysvars::rent::Rent::from_bytes(&lamports_per_byte.to_ne_bytes()).ok()?;
    rent.try_minimum_balance(data_len).ok()
}

impl Rent {
    /// The rent-exempt minimum for an account with `data_len` bytes of data.
    pub fn minimum_balance(&self, data_len: usize) -> (balance: Option<u64>)
        ensures
            balance == spec_minimum_balance(self.lamports_per_byte, data_len),
    {
        try_minimum_balance(self.lamports_per_byte, data_len)
    }
}

/// Within the limits the minimum balance is the exact product: it never
/// wraps around.
pub proof fn lemma_minimum_balance_exact(lamports_per_byte: u64, data_len: usize)
    requires
        data_len <= MAX_PERMITTED_DATA_LENGTH,
        lamports_per_byte <= MAX_LAMPORTS_PER_BYTE,
    ensures
        spec_minimum_balance(lamports_per_byte, data_len) == Some(
            ((ACCOUNT_STORAGE_OVERHEAD + data_len) * lamports_per_byte) as u64,
        ),
        (ACCOUNT_STORAGE_OVERHEAD + data_len) * lamports_per_byte <= u64::MAX,
{
    assert((ACCOUNT_STORAGE_OVERHEAD + data_len) * lamports_per_byte <= 10485888
        * 1_759_197_129_867) by (nonlinear_arith)
        requires
            0 <= ACCOUNT_STORAGE_OVERHEAD + data_len <= 10485888,
            0 <= lamports_per_byte <= 1_759_197_129_867,
    ;
}

} // verus!
