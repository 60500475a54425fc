//! The closed set of failures, each with a stable numeric code and message.

use vstd::prelude::*;

verus! {

/// A failure of validation or execution. The variants stand in the order of
/// their numeric codes, starting at zero.
#[derive(Clone, Copy, Debug, PartialEq, Eq, Structural)]
pub enum RWAError {
    /// The instruction payload has the wrong length or an invalid field.
    InvalidInstructionData,
    /// A supplied address differs from the one derived from its seeds.
    PdaMismatch,
    /// The account is owned by another program than the role requires.
    InvalidOwner,
    /// The account did not sign the transaction.
    NotSigner,
    /// The account's address is not the expected one.
    InvalidAddress,
    /// The account's data does not have the shape of the expected record.
    InvalidAccountData,
    /// The derived account does not exist on chain: its balance is zero.
    UninitialisedAccount,
    /// The account list does not have the length the operation declares.
    NotEnoughAccountKeys,
    /// The creator's identity record has not been approved.
    CreatorNotVerified,
}

/// Number of distinct error codes; the codes are `0 .. ERROR_COUNT`.
pub const ERROR_COUNT: u32 = 9;

/// The value the host reports for `ProgramError::Custom(0)`, which cannot be
/// zero because zero means success.
pub const CUSTOM_ZERO: u64 = 0x1_0000_0000;

/// What the host sees for a custom error code: the code itself, except that
/// code zero is moved out of the way of the success value.
pub open spec fn custom_host_code(code: u32) -> u64 {
    if code == 0 {
        CUSTOM_ZERO
    } else {
        code as u64
    }
}

/// Converts `ProgramError::Custom(code)` to the host's `u64` through
/// pinocchio's `From<ProgramError> for u64`. The contract restates that
/// conversion's `Custom` arm: zero becomes `CUSTOM_ZERO`, any other code is
/// widened unchanged.
#[verifier::external_body]
fn program_error_custom_to_u64(code: u32) -> (r: u64)
    ensures
        r == custom_host_code(code),
{
    u64::from(pinocchio::program_error::ProgramError::Custom(code))
}

impl RWAError {
    /// The numeric code of this error.
    pub open spec fn code_spec(self) -> u32 {
        match self {
            RWAError::InvalidInstructionData => 0,
            RWAError::PdaMismatch => 1,
            RWAError::InvalidOwner => 2,
            RWAError::NotSigner => 3,
            RWAError::InvalidAddress => 4,
            RWAError::InvalidAccountData => 5,
            RWAError::UninitialisedAccount => 6,
            RWAError::NotEnoughAccountKeys => 7,
            RWAError::CreatorNotVerified => 8,
        }
    }

    /// The error that a numeric code stands for, if any.
    pub open spec fn from_code(value: u32) -> Option<RWAError> {
        if value == 0 {
            Some(RWAError::InvalidInstructionData)
        } else if value == 1 {
            Some(RWAError::PdaMismatch)
        } else if value == 2 {
            Some(RWAError::InvalidOwner)
        } else if value == 3 {
            Some(RWAError::NotSigner)
        } else if value == 4 {
            Some(RWAError::InvalidAddress)
        } else if value == 5 {
            Some(RWAError::InvalidAccountData)
        } else if value == 6 {
            Some(RWAError::UninitialisedAccount)
        } else if value == 7 {
            Some(RWAError::NotEnoughAccountKeys)
        } else if value == 8 {
            Some(RWAError::CreatorNotVerified)
        } else {
            None
        }
    }

    /// The static message of this error.
    pub open spec fn message(self) -> Seq<char> {
        match self {
            RWAError::InvalidInstructionData => "Invalid instruction data"@,
            RWAError::PdaMismatch => "PDA mismatch"@,
            RWAError::InvalidOwner => "Invalid account owner"@,
            RWAError::NotSigner => "Expected a signer"@,
            RWAError::InvalidAddress => "Invalid address"@,
            RWAError::InvalidAccountData => "Invalid account data"@,
            RWAError::UninitialisedAccount =>
                "The pda doesn't exist onchain because it's balance is 0"@,
            RWAError::NotEnoughAccountKeys =>
                "Not Enough Accounts passed that were required by the ix..."@,
            RWAError::CreatorNotVerified => "Creator KYC is not verified"@,
        }
    }

    /// Returns the numeric code of this error.
    pub fn code(&self) -> (c: u32)
        ensures
            c == self.code_spec(),
            c < ERROR_COUNT,
    {
        match self {
            RWAError::InvalidInstructionData => 0,
            RWAError::PdaMismatch => 1,
            RWAError::InvalidOwner => 2,
            RWAError::NotSigner => 3,
            RWAError::InvalidAddress => 4,
            RWAError::InvalidAccountData => 5,
            RWAError::UninitialisedAccount => 6,
            RWAError::NotEnoughAccountKeys => 7,
            RWAError::CreatorNotVerified => 8,
        }
    }

    /// Returns the error with the given code, or `None` for a number that is
    /// no error code.
    pub fn try_from(value: u32) -> (r: Option<RWAError>)
        ensures
            r == Self::from_code(value),
            r is Some <==> value < ERROR_COUNT,
            r matches Some(e) ==> e.code_spec() == value,
    {
        match value {
            0 => Some(RWAError::InvalidInstructionData),
            1 => Some(RWAError::PdaMismatch),
            2 => Some(RWAError::InvalidOwner),
            3 => Some(RWAError::NotSigner),
            4 => Some(RWAError::InvalidAddress),
            5 => Some(RWAError::InvalidAccountData),
            6 => Some(RWAError::UninitialisedAccount),
            7 => Some(RWAError::NotEnoughAccountKeys),
            8 => Some(RWAError::CreatorNotVerified),
            _ => None,
        }
    }

    /// Returns the static message of this error.
    pub fn to_str(&self) -> (s: &'static str)
        ensures
            s@ == self.message(),
    {
        match self {
            RWAError::InvalidInstructionData => "Invalid instruction data",
            RWAError::PdaMismatch => "PDA mismatch",
            RWAError::InvalidOwner => "Invalid account owner",
            RWAError::NotSigner => "Expected a signer",
            RWAError::InvalidAddress => "Invalid address",
            RWAError::InvalidAccountData => "Invalid account data",
            RWAError::UninitialisedAccount =>
                "The pda doesn't exist onchain because it's balance is 0",
            RWAError::NotEnoughAccountKeys =>
                "Not Enough Accounts passed that were required by the ix...",
            RWAError::CreatorNotVerified => "Creator KYC is not verified",
        }
    }

    /// Returns the value the host reports when a transaction fails with this
    /// error: that of a custom program error carrying the error's code.
    pub fn host_code(&self) -> (r: u64)
        ensures
            r == custom_host_code(self.code_spec()),
            r != 0,
    {
        program_error_custom_to_u64(self.code())
    }

    /// Every error is found again from its code.
    pub proof fn code_round_trip(e: RWAError)
        ensures
            Self::from_code(e.code_spec()) == Some(e),
    {
    }

    /// Two different errors never share a code, nor the value reported to the
    /// host.
    pub proof fn codes_distinct(a: RWAError, b: RWAError)
        requires
            a != b,
        ensures
            a.code_spec() != b.code_spec(),
            custom_host_code(a.code_spec()) != custom_host_code(b.code_spec()),
    {
    }
}

} // verus!
