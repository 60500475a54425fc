//! The building blocks of every instruction handler: capability checks on
//! accounts, the typed access to fixed-layout records, and the identities and
//! record lengths of the programs that the registry works with.

use crate::account::Account;
use crate::account::AccountView;
use crate::account::Pubkey;
use crate::errors::RWAError;
use crate::states::Record;
use vstd::prelude::*;

pub mod ata;
pub mod helper;
pub mod mint;

pub use crate::states::DataLen;
pub use ata::AssociatedTokenAccount;
pub use ata::AssociatedTokenAccountCheck;
pub use ata::AssociatedTokenAccountInit;
pub use ata::TokenAccount;
pub use helper::AccountClose;
pub use helper::ProgramAccount;
pub use helper::ProgramAccountInit;
pub use helper::RecordState;
pub use helper::SignerAccount;
pub use helper::SystemAccount;
pub use mint::Mint2022Account;
pub use mint::MintInit;

verus! {

/// The identity of the system program, which owns every plain account that
/// holds a balance and no record.
pub const SYSTEM_PROGRAM_ID: Pubkey = [
    0, 0, 0, 0, 0, 0, 0, 0, 0, 0, 0, 0, 0, 0, 0, 0,
    0, 0, 0, 0, 0, 0, 0, 0, 0, 0, 0, 0, 0, 0, 0, 0,
];

/// The identity of the Token-2022 program,
/// `TokenzQdBNbLqP5VEhdkAS6EPFLC1PHnBqCXEpPxuEb`.
pub const TOKEN_2022_PROGRAM_ID: Pubkey = [
    0x06, 0xdd, 0xf6, 0xe1, 0xee, 0x75, 0x8f, 0xde, 0x18, 0x42, 0x5d, 0xbc, 0xe4, 0x6c, 0xcd, 0xda,
    0xb6, 0x1a, 0xfc, 0x4d, 0x83, 0xb9, 0x0d, 0x27, 0xfe, 0xbd, 0xf9, 0x28, 0xd8, 0xa1, 0x8b, 0xfc,
];

/// The identity of the associated token account program,
/// `ATokenGPvbdGVxr1b2hvZbsiqW5xWH25efTNsLJA8knL`.
pub const ASSOCIATED_TOKEN_PROGRAM_ID: Pubkey = [
    0x8c, 0x97, 0x25, 0x8f, 0x4e, 0x24, 0x89, 0xf1, 0xbb, 0x3d, 0x10, 0x29, 0x14, 0x8e, 0x0d, 0x83,
    0x0b, 0x5a, 0x13, 0x99, 0xda, 0xff, 0x10, 0x84, 0x04, 0x8e, 0x7b, 0xd8, 0xdb, 0xe9, 0xf8, 0x59,
];

/// The length of a mint's data, in bytes.
pub const MINT_LEN: usize = 82;

/// The length of a token account's data, in bytes.
pub const TOKEN_ACCOUNT_LEN: usize = 165;

/// Returns `pinocchio_system::id()`, the identity that the system program's
/// crate declares: the base58 string of thirty-two `1`, which is thirty-two
/// zero bytes.
#[verifier::external_body]
pub(crate) fn system_program_id() -> (id: Pubkey)
    ensures
        id == SYSTEM_PROGRAM_ID,
{
    pinocchio_system::id()
}

/// Returns `pinocchio_token_2022::id()`, the identity that the Token-2022
/// crate declares; the contract gives the bytes that its base58 string
/// `TokenzQdBNbLqP5VEhdkAS6EPFLC1PHnBqCXEpPxuEb` decodes to.
#[verifier::external_body]
pub(crate) fn token_2022_program_id() -> (id: Pubkey)
    ensures
        id == TOKEN_2022_PROGRAM_ID,
{
    pinocchio_token_2022::id()
}

/// Returns `pinocchio_associated_token_account::id()`, the identity that the
/// associated token account crate declares; the contract gives the bytes that
/// its base58 string `ATokenGPvbdGVxr1b2hvZbsiqW5xWH25efTNsLJA8knL` decodes to.
#[verifier::external_body]
pub(crate) fn associated_token_program_id() -> (id: Pubkey)
    ensures
        id == ASSOCIATED_TOKEN_PROGRAM_ID,
{
    pinocchio_associated_token_account::id()
}

/// Returns `pinocchio_token_2022::state::Mint::BASE_LEN`, the size of the
/// crate's `Mint`: 4 + 32 + 8 + 1 + 1 + 4 + 32 bytes of byte-aligned fields.
#[verifier::external_body]
pub(crate) fn mint_len() -> (n: usize)
    ensures
        n == MINT_LEN,
{
    pinocchio_token_2022::state::Mint::BASE_LEN
}

/// Returns `pinocchio_token_2022::state::TokenAccount::BASE_LEN`, the size of
/// the crate's `TokenAccount`: 32 + 32 + 8 + 4 + 32 + 1 + 4 + 8 + 8 + 4 + 32
/// bytes of byte-aligned fields.
#[verifier::external_body]
pub(crate) fn token_account_len() -> (n: usize)
    ensures
        n == TOKEN_ACCOUNT_LEN,
{
    pinocchio_token_2022::state::TokenAccount::BASE_LEN
}

/// One capability that an account can have. The check reads the account and
/// changes nothing.
pub trait AccountCheck {
    /// What the check of an account returns.
    spec fn check_spec(account: AccountView) -> Result<(), RWAError>;

    /// Checks the capability on `account`.
    fn check(account: &Account) -> (r: Result<(), RWAError>)
        ensures
            r == Self::check_spec(account@),
    ;
}

/// What reading a record of type `T` from `data` returns: the record that the
/// bytes stand for where there are exactly `T::LEN` of them, and `mismatch`
/// otherwise.
pub open spec fn load_spec<T: Record>(data: Seq<u8>, mismatch: RWAError) -> Result<T, RWAError> {
    if data.len() == T::spec_len() {
        Ok(T::decode(data))
    } else {
        Err(mismatch)
    }
}

/// Reads the record of type `T` that an account's data holds. The data must
/// have exactly `T::LEN` bytes: a shorter or longer buffer is
/// `InvalidAccountData`.
pub fn load_acc<T: Record>(data: &[u8]) -> (r: Result<T, RWAError>)
    ensures
        r == load_spec::<T>(data@, RWAError::InvalidAccountData),
        r is Ok <==> data@.len() == T::spec_len(),
{
    proof {
        T::lemma_len();
    }
    if data.len() != T::LEN {
        return Err(RWAError::InvalidAccountData);
    }
    Ok(T::from_bytes(data))
}

/// Writes `value` as the record of type `T` that an account's data holds, in
/// place. The data must have exactly `T::LEN` bytes: a shorter or longer
/// buffer is `InvalidAccountData`, and is left as it was. On success the data
/// is the stored form of `value`, so that reading it back gives `value`.
pub fn store_acc<T: Record>(data: &mut [u8], value: &T) -> (r: Result<(), RWAError>)
    ensures
        r is Ok <==> old(data)@.len() == T::spec_len(),
        r is Ok ==> final(data)@ == value.encode() && load_spec::<T>(
            final(data)@,
            RWAError::InvalidAccountData,
        ) == Ok::<T, RWAError>(*value),
        r is Err ==> r == Err::<(), RWAError>(RWAError::InvalidAccountData) && final(data)@ == old(
            data,
        )@,
        final(data)@.len() == old(data)@.len(),
{
    proof {
        T::lemma_len();
    }
    if data.len() != T::LEN {
        return Err(RWAError::InvalidAccountData);
    }
    let bytes = value.to_bytes();
    proof {
        value.lemma_encode_len();
        value.lemma_decode_encode();
    }
    let n = data.len();
    let mut i: usize = 0;
    while i < n
        invariant
            i <= n,
            n == data@.len(),
            n == bytes@.len(),
            forall|j: int| 0 <= j < i ==> data@[j] == bytes@[j],
        decreases n - i,
    {
        data[i] = bytes[i];
        i += 1;
    }
    assert(data@ =~= bytes@);
    Ok(())
}

/// Reads the operand of type `T` of an instruction. The payload must have
/// exactly `T::LEN` bytes: a shorter or longer one is
/// `InvalidInstructionData`.
pub fn load_ix_data<T: Record>(data: &[u8]) -> (r: Result<T, RWAError>)
    ensures
        r == load_spec::<T>(data@, RWAError::InvalidInstructionData),
        r is Ok <==> data@.len() == T::spec_len(),
{
    proof {
        T::lemma_len();
    }
    if data.len() != T::LEN {
        return Err(RWAError::InvalidInstructionData);
    }
    Ok(T::from_bytes(data))
}

} // verus!
