//! Error values of the pool program.
use vstd::prelude::*;

verus! {

/// The pool's own failures. Each has a stable numeric code, its position in
/// this list starting from zero, and a fixed diagnostic text.
#[derive(Clone, Copy, Debug, PartialEq, Eq, Structural)]
pub enum PinocchioError {
    /// Lamport balance below rent-exempt threshold.
    NotRentExempt,
    /// The account did not sign the transaction.
    NotSigner,
    /// The account is owned by another program than expected.
    InvalidOwner,
    /// The account data has the wrong length or content.
    InvalidAccountData,
    /// The account address is not the expected one.
    InvalidAddress,
    /// The system program account is not the system program.
    InvalidSystemProgram,
    /// The token program account is not the token program.
    InvalidTokenProgram,
    /// The stake program account is not the stake program.
    InvalidStakeProgram,
    /// The associated token program account is not that program.
    InvalidAssociatedTokenProgram,
    /// The validator vote account is not owned by the vote program.
    InvalidValidatorVoteAccount,
    /// The config account is not at the derived config address.
    InvalidConfigPda,
    /// The main stake account is not the pool's.
    InvalidStakeAccountMain,
    /// The reserve stake account is not the pool's.
    InvalidStakeAccountReserve,
    /// The mint is not the pool's claim-token mint.
    InvalidLstMint,
    /// The depositor's token account is not at its associated address.
    InvalidDepositorAta,
    /// The withdrawer's token account is not at its associated address.
    InvalidWithdrawerAta,
    /// The split account is not at the address derived for withdrawer and nonce.
    InvalidSplitAccountPda,
    /// Deposit amount below minimum (1 SOL).
    DepositBelowMinimum,
    /// Split amount below minimum.
    SplitBelowMinimum,
    /// The reserve stake account is already initialized.
    ReserveAlreadyInitialized,
    /// The reserve stake account is not delegated.
    ReserveNotStaked,
    /// The withdrawer holds fewer claim tokens than must be burned.
    InsufficientLstBalance,
    /// The validator vote account is not the pool's validator.
    InvalidValidatorVoteKey,
}

impl PinocchioError {
    /// The numeric code of the error.
    pub open spec fn spec_code(self) -> u32 {
        match self {
            PinocchioError::NotRentExempt => 0,
            PinocchioError::NotSigner => 1,
            PinocchioError::InvalidOwner => 2,
            PinocchioError::InvalidAccountData => 3,
            PinocchioError::InvalidAddress => 4,
            PinocchioError::InvalidSystemProgram => 5,
            PinocchioError::InvalidTokenProgram => 6,
            PinocchioError::InvalidStakeProgram => 7,
            PinocchioError::InvalidAssociatedTokenProgram => 8,
            PinocchioError::InvalidValidatorVoteAccount => 9,
            PinocchioError::InvalidConfigPda => 10,
            PinocchioError::InvalidStakeAccountMain => 11,
            PinocchioError::InvalidStakeAccountReserve => 12,
            PinocchioError::InvalidLstMint => 13,
            PinocchioError::InvalidDepositorAta => 14,
            PinocchioError::InvalidWithdrawerAta => 15,
            PinocchioError::InvalidSplitAccountPda => 16,
            PinocchioError::DepositBelowMinimum => 17,
            PinocchioError::SplitBelowMinimum => 18,
            PinocchioError::ReserveAlreadyInitialized => 19,
            PinocchioError::ReserveNotStaked => 20,
            PinocchioError::InsufficientLstBalance => 21,
            PinocchioError::InvalidValidatorVoteKey => 22,
        }
    }

    /// The diagnostic text of the error.
    pub open spec fn spec_message(self) -> Seq<char> {
        match self {
            PinocchioError::NotRentExempt => "Lamport balance below rent-exempt threshold"@,
            PinocchioError::NotSigner => "Account is not signer"@,
            PinocchioError::InvalidOwner => "Invalid owner"@,
            PinocchioError::InvalidAccountData => "Invalid account data"@,
            PinocchioError::InvalidAddress => "Invalid address"@,
            PinocchioError::InvalidSystemProgram => "Invalid system program"@,
            PinocchioError::InvalidTokenProgram => "Invalid token program"@,
            PinocchioError::InvalidStakeProgram => "Invalid stake program"@,
            PinocchioError::InvalidAssociatedTokenProgram => "Invalid associated token program"@,
            PinocchioError::InvalidValidatorVoteAccount => "Invalid validator vote account"@,
            PinocchioError::InvalidConfigPda => "Invalid config PDA"@,
            PinocchioError::InvalidStakeAccountMain => "Invalid stake account main"@,
            PinocchioError::InvalidStakeAccountReserve => "Invalid stake account reserve"@,
            PinocchioError::InvalidLstMint => "Invalid LST mint"@,
            PinocchioError::InvalidDepositorAta => "Invalid depositor ATA"@,
            PinocchioError::InvalidWithdrawerAta => "Invalid withdrawer ATA"@,
            PinocchioError::InvalidSplitAccountPda => "Invalid split account PDA"@,
            PinocchioError::DepositBelowMinimum => "Deposit amount below minimum (1 SOL)"@,
            PinocchioError::SplitBelowMinimum => "Split amount below minimum"@,
            PinocchioError::ReserveAlreadyInitialized => {
                "Reserve stake account already initialized"@
            },
            PinocchioError::ReserveNotStaked => "Reserve stake not in staked state"@,
            PinocchioError::InsufficientLstBalance => "Insufficient LST balance for withdrawal"@,
            PinocchioError::InvalidValidatorVoteKey => "Invalid validator vote key"@,
        }
    }

    /// Returns the numeric code of the error.
    pub fn code(&self) -> (r: u32)
        ensures
            r == self.spec_code(),
            r <= 22,
    {
        match self {
            PinocchioError::NotRentExempt => 0,
            PinocchioError::NotSigner => 1,
            PinocchioError::InvalidOwner => 2,
            PinocchioError::InvalidAccountData => 3,
            PinocchioError::InvalidAddress => 4,
            PinocchioError::InvalidSystemProgram => 5,
            PinocchioError::InvalidTokenProgram => 6,
            PinocchioError::InvalidStakeProgram => 7,
            PinocchioError::InvalidAssociatedTokenProgram => 8,
            PinocchioError::InvalidValidatorVoteAccount => 9,
            PinocchioError::InvalidConfigPda => 10,
            PinocchioError::InvalidStakeAccountMain => 11,
            PinocchioError::InvalidStakeAccountReserve => 12,
            PinocchioError::InvalidLstMint => 13,
            PinocchioError::InvalidDepositorAta => 14,
            PinocchioError::InvalidWithdrawerAta => 15,
            PinocchioError::InvalidSplitAccountPda => 16,
            PinocchioError::DepositBelowMinimum => 17,
            PinocchioError::SplitBelowMinimum => 18,
            PinocchioError::ReserveAlreadyInitialized => 19,
            PinocchioError::ReserveNotStaked => 20,
            PinocchioError::InsufficientLstBalance => 21,
            PinocchioError::InvalidValidatorVoteKey => 22,
        }
    }

    /// The error with the code `code`, if there is one.
    pub open spec fn spec_from_code(code: u32) -> Option<PinocchioError> {
        if code == 0 {
            Some(PinocchioError::NotRentExempt)
        } else if code == 1 {
            Some(PinocchioError::NotSigner)
        } else if code == 2 {
            Some(PinocchioError::InvalidOwner)
        } else if code == 3 {
            Some(PinocchioError::InvalidAccountData)
        } else if code == 4 {
            Some(PinocchioError::InvalidAddress)
        } else if code == 5 {
            Some(PinocchioError::InvalidSystemProgram)
        } else if code == 6 {
            Some(PinocchioError::InvalidTokenProgram)
        } else if code == 7 {
            Some(PinocchioError::InvalidStakeProgram)
        } else if code == 8 {
            Some(PinocchioError::InvalidAssociatedTokenProgram)
        } else if code == 9 {
            Some(PinocchioError::InvalidValidatorVoteAccount)
        } else if code == 10 {
            Some(PinocchioError::InvalidConfigPda)
        } else if code == 11 {
            Some(PinocchioError::InvalidStakeAccountMain)
        } else if code == 12 {
            Some(PinocchioError::InvalidStakeAccountReserve)
        } else if code == 13 {
            Some(PinocchioError::InvalidLstMint)
        } else if code == 14 {
            Some(PinocchioError::InvalidDepositorAta)
        } else if code == 15 {
            Some(PinocchioError::InvalidWithdrawerAta)
        } else if code == 16 {
            Some(PinocchioError::InvalidSplitAccountPda)
        } else if code == 17 {
            Some(PinocchioError::DepositBelowMinimum)
        } else if code == 18 {
            Some(PinocchioError::SplitBelowMinimum)
        } else if code == 19 {
            Some(PinocchioError::ReserveAlreadyInitialized)
        } else if code == 20 {
            Some(PinocchioError::ReserveNotStaked)
        } else if code == 21 {
            Some(PinocchioError::InsufficientLstBalance)
        } else if code == 22 {
            Some(PinocchioError::InvalidValidatorVoteKey)
        } else {
            None
        }
    }

    /// Returns the error with the code `code`: `Some` for the codes up to
    /// 22, `None` above.
    pub fn from_code(code: u32) -> (r: Option<PinocchioError>)
        ensures
            r == Self::spec_from_code(code),
            code <= 22 <==> r is Some,
            r is Some ==> r->Some_0.spec_code() == code,
    {
        match code {
            0 => Some(PinocchioError::NotRentExempt),
            1 => Some(PinocchioError::NotSigner),
            2 => Some(PinocchioError::InvalidOwner),
            3 => Some(PinocchioError::InvalidAccountData),
            4 => Some(PinocchioError::InvalidAddress),
            5 => Some(PinocchioError::InvalidSystemProgram),
            6 => Some(PinocchioError::InvalidTokenProgram),
            7 => Some(PinocchioError::InvalidStakeProgram),
            8 => Some(PinocchioError::InvalidAssociatedTokenProgram),
            9 => Some(PinocchioError::InvalidValidatorVoteAccount),
            10 => Some(PinocchioError::InvalidConfigPda),
            11 => Some(PinocchioError::InvalidStakeAccountMain),
            12 => Some(PinocchioError::InvalidStakeAccountReserve),
            13 => Some(PinocchioError::InvalidLstMint),
            14 => Some(PinocchioError::InvalidDepositorAta),
            15 => Some(PinocchioError::InvalidWithdrawerAta),
            16 => Some(PinocchioError::InvalidSplitAccountPda),
            17 => Some(PinocchioError::DepositBelowMinimum),
            18 => Some(PinocchioError::SplitBelowMinimum),
            19 => Some(PinocchioError::ReserveAlreadyInitialized),
            20 => Some(PinocchioError::ReserveNotStaked),
            21 => Some(PinocchioError::InsufficientLstBalance),
            22 => Some(PinocchioError::InvalidValidatorVoteKey),
            _ => None,
        }
    }

    /// Returns the diagnostic text of the error.
    pub fn message(&self) -> (r: String)
        ensures
            r@ == self.spec_message(),
    {
        let text: &str = match self {
            PinocchioError::NotRentExempt => "Lamport balance below rent-exempt threshold",
            PinocchioError::NotSigner => "Account is not signer",
            PinocchioError::InvalidOwner => "Invalid owner",
            PinocchioError::InvalidAccountData => "Invalid account data",
            PinocchioError::InvalidAddress => "Invalid address",
            PinocchioError::InvalidSystemProgram => "Invalid system program",
            PinocchioError::InvalidTokenProgram => "Invalid token program",
            PinocchioError::InvalidStakeProgram => "Invalid stake program",
            PinocchioError::InvalidAssociatedTokenProgram => "Invalid associated token program",
            PinocchioError::InvalidValidatorVoteAccount => "Invalid validator vote account",
            PinocchioError::InvalidConfigPda => "Invalid config PDA",
            PinocchioError::InvalidStakeAccountMain => "Invalid stake account main",
            PinocchioError::InvalidStakeAccountReserve => "Invalid stake account reserve",
            PinocchioError::InvalidLstMint => "Invalid LST mint",
            PinocchioError::InvalidDepositorAta => "Invalid depositor ATA",
            PinocchioError::InvalidWithdrawerAta => "Invalid withdrawer ATA",
            PinocchioError::InvalidSplitAccountPda => "Invalid split account PDA",
            PinocchioError::DepositBelowMinimum => "Deposit amount below minimum (1 SOL)",
            PinocchioError::SplitBelowMinimum => "Split amount below minimum",
            PinocchioError::ReserveAlreadyInitialized => {
                "Reserve stake account already initialized"
            },
            PinocchioError::ReserveNotStaked => "Reserve stake not in staked state",
            PinocchioError::InsufficientLstBalance => "Insufficient LST balance for withdrawal",
            PinocchioError::InvalidValidatorVoteKey => "Invalid validator vote key",
        };
        text.to_owned()
    }
}

/// A failure of an instruction, as the runtime reports it: one of the
/// runtime's own kinds, or a program-specific code.
#[derive(Clone, Copy, Debug, PartialEq, Eq, Structural)]
pub enum ProgramError {
    /// A program-specific failure, by its code.
    Custom(u32),
    /// An argument handed to a collaborator is out of its range.
    InvalidArgument,
    /// The instruction data has the wrong length or selector.
    InvalidInstructionData,
    /// An account's data has the wrong length.
    InvalidAccountData,
    /// An account is owned by another program than required.
    InvalidAccountOwner,
    /// An account that must be empty already holds data.
    AccountAlreadyInitialized,
    /// The number of accounts differs from what the instruction takes.
    NotEnoughAccountKeys,
    /// No program address can be derived from the seeds.
    InvalidSeeds,
    /// A computation left the 64-bit range.
    ArithmeticOverflow,
}

impl From<PinocchioError> for ProgramError {
    fn from(e: PinocchioError) -> (r: ProgramError) {
        ProgramError::Custom(e.code())
    }
}

impl vstd::std_specs::convert::FromSpecImpl<PinocchioError> for ProgramError {
    open spec fn obeys_from_spec() -> bool {
        true
    }

    open spec fn from_spec(e: PinocchioError) -> ProgramError {
        ProgramError::Custom(e.spec_code())
    }
}

/// The runtime failure that carries the code of a pool failure.
pub open spec fn custom(e: PinocchioError) -> ProgramError {
    ProgramError::Custom(e.spec_code())
}

impl PinocchioError {
    /// The runtime failure that carries the code of this failure.
    pub fn into_error(self) -> (r: ProgramError)
        ensures
            r == custom(self),
    {
        ProgramError::Custom(self.code())
    }
}

/// Two pool failures with the same code are the same failure.
pub proof fn lemma_codes_are_distinct(a: PinocchioError, b: PinocchioError)
    ensures
        a.spec_code() == b.spec_code() <==> a == b,
        custom(a) == custom(b) <==> a == b,
{
}

/// Every pool failure is found again by its code.
pub proof fn lemma_code_names_its_error(e: PinocchioError)
    ensures
        PinocchioError::spec_from_code(e.spec_code()) == Some(e),
{
}

} // verus!
