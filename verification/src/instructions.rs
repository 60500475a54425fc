//! The operations of the program: which discriminator selects which, the
//! fixed-size operand of each, and the handlers.
//!
//! An instruction payload is one discriminator byte followed by the operand.
//! Operands have the same layout rules as the records: fields in declaration
//! order, no padding, little-endian integers.

use crate::account::Pubkey;
use crate::errors::RWAError;
use crate::layout::append_bool;
use crate::layout::append_bytes;
use crate::layout::append_u64;
use crate::layout::append_u8;
use crate::layout::array_of;
use crate::layout::bool_byte;
use crate::layout::byte_bool;
use crate::layout::lemma_array_of_view;
use crate::layout::read_array;
use crate::layout::read_bool;
use crate::layout::read_u64;
use crate::states::DataLen;
use crate::states::Record;
use crate::utils::load_ix_data;
use crate::utils::load_spec;
use vstd::bytes::lemma_auto_spec_u64_to_from_le_bytes;
use vstd::bytes::spec_u64_from_le_bytes;
use vstd::bytes::spec_u64_to_le_bytes;
use vstd::prelude::*;

pub mod admin;
pub mod create_rwa;
pub mod creator_kyc;
pub mod init_token_config;
pub mod mint_rwa;

pub use admin::init_global_config::GlobalConfigAccounts;
pub use admin::init_global_config::InitGlobalConfigInstruction;
pub use create_rwa::CreateRWAAccount;
pub use create_rwa::CreateRWAInstruction;
pub use creator_kyc::CreatorKYCAccount;
pub use creator_kyc::CreatorKYCInstruction;
pub use init_token_config::InitTokenConfigInstruction;
pub use init_token_config::TokenConfigAccounts;
pub use mint_rwa::MintRWAAccount;

verus! {

/// An operand that is read from the exact bytes of an instruction payload.
pub trait ZeroCopyTryFrom: Record {
    /// Reads the operand. The payload must have exactly `LEN` bytes: a
    /// shorter or longer one is `InvalidInstructionData`.
    fn try_from_bytes(data: &[u8]) -> (r: Result<Self, RWAError>)
        ensures
            r == load_spec::<Self>(data@, RWAError::InvalidInstructionData),
            r is Ok <==> data@.len() == Self::spec_len(),
    ;
}

/// The operations that have a handler.
#[derive(Clone, Copy, Debug, PartialEq, Eq, Structural)]
pub enum RWAInstruction {
    InitGlobalConfig,
    InitTokenConfig,
    CreateRWA,
    MintRWA,
    CreatorKYC,
}

impl RWAInstruction {
    /// The operation that a discriminator byte selects. Both 1 and 4 select
    /// the initialisation of a token configuration. The bytes 3 and 5, which
    /// stand for the two approvals, 255, which is reserved for batches, and
    /// every other byte select no operation: such an instruction does nothing.
    pub open spec fn route(discriminator: u8) -> Option<RWAInstruction> {
        if discriminator == 0 {
            Some(RWAInstruction::InitGlobalConfig)
        } else if discriminator == 1 || discriminator == 4 {
            Some(RWAInstruction::InitTokenConfig)
        } else if discriminator == 2 {
            Some(RWAInstruction::CreatorKYC)
        } else if discriminator == 6 {
            Some(RWAInstruction::CreateRWA)
        } else if discriminator == 7 {
            Some(RWAInstruction::MintRWA)
        } else {
            None
        }
    }

    /// The discriminator byte under which clients send the operation.
    pub open spec fn discriminator_spec(self) -> u8 {
        match self {
            RWAInstruction::InitGlobalConfig => 0,
            RWAInstruction::InitTokenConfig => 1,
            RWAInstruction::CreatorKYC => 2,
            RWAInstruction::CreateRWA => 6,
            RWAInstruction::MintRWA => 7,
        }
    }

    /// Returns the operation that a discriminator byte selects.
    pub fn from_discriminator(discriminator: u8) -> (r: Option<RWAInstruction>)
        ensures
            r == Self::route(discriminator),
    {
        match discriminator {
            0 => Some(RWAInstruction::InitGlobalConfig),
            1 => Some(RWAInstruction::InitTokenConfig),
            2 => Some(RWAInstruction::CreatorKYC),
            4 => Some(RWAInstruction::InitTokenConfig),
            6 => Some(RWAInstruction::CreateRWA),
            7 => Some(RWAInstruction::MintRWA),
            _ => None,
        }
    }

    /// Returns the discriminator byte under which clients send the operation.
    pub fn discriminator(&self) -> (d: u8)
        ensures
            d == self.discriminator_spec(),
            Self::route(d) == Some(*self),
    {
        match self {
            RWAInstruction::InitGlobalConfig => 0,
            RWAInstruction::InitTokenConfig => 1,
            RWAInstruction::CreatorKYC => 2,
            RWAInstruction::CreateRWA => 6,
            RWAInstruction::MintRWA => 7,
        }
    }
}

/// What splitting a payload returns: the discriminator byte and the operand
/// bytes after it, or `InvalidInstructionData` for an empty payload.
pub open spec fn split_spec(instruction_data: Seq<u8>) -> Result<(u8, Seq<u8>), RWAError> {
    if instruction_data.len() == 0 {
        Err(RWAError::InvalidInstructionData)
    } else {
        Ok((instruction_data[0], instruction_data.subrange(1, instruction_data.len() as int)))
    }
}

/// Splits an instruction payload into its discriminator byte and its operand.
pub fn split_discriminator(instruction_data: &[u8]) -> (r: Result<(u8, &[u8]), RWAError>)
    ensures
        match r {
            Ok((discriminator, operand)) => split_spec(instruction_data@) == Ok::<
                (u8, Seq<u8>),
                RWAError,
            >((discriminator, operand@)),
            Err(e) => split_spec(instruction_data@) == Err::<(u8, Seq<u8>), RWAError>(e),
        },
{
    if instruction_data.len() == 0 {
        return Err(RWAError::InvalidInstructionData);
    }
    let operand = vstd::slice::slice_subrange(instruction_data, 1, instruction_data.len());
    Ok((instruction_data[0], operand))
}

/// The operand of the initialisation of the global configuration.
#[derive(Clone, Copy, Debug, PartialEq)]
pub struct InitGlobalConfig {
    /// The bump seed that the client computed; the handler derives its own.
    pub bump: u8,
    /// The time from which the registry is open.
    pub open_time: u64,
    /// The largest number of decimals a token may declare.
    pub max_decimal: u8,
    /// The fee, in basis points.
    pub fees_bps: u8,
    /// Whether the registry accepts operations.
    pub active: bool,
}

impl DataLen for InitGlobalConfig {
    const LEN: usize = 12;

    open spec fn spec_len() -> usize {
        12
    }

    proof fn lemma_len() {
    }
}

impl Record for InitGlobalConfig {
    open spec fn encode(&self) -> Seq<u8> {
        seq![self.bump] + spec_u64_to_le_bytes(self.open_time) + seq![self.max_decimal] + seq![
            self.fees_bps,
        ] + seq![bool_byte(self.active)]
    }

    open spec fn decode(bytes: Seq<u8>) -> InitGlobalConfig {
        InitGlobalConfig {
            bump: bytes[0],
            open_time: spec_u64_from_le_bytes(bytes.subrange(1, 9)),
            max_decimal: bytes[9],
            fees_bps: bytes[10],
            active: byte_bool(bytes[11]),
        }
    }

    proof fn lemma_encode_len(&self) {
        lemma_auto_spec_u64_to_from_le_bytes();
    }

    proof fn lemma_decode_encode(&self) {
        lemma_auto_spec_u64_to_from_le_bytes();
        let bytes = self.encode();
        assert(bytes.subrange(1, 9) =~= spec_u64_to_le_bytes(self.open_time));
    }

    fn to_bytes(&self) -> (out: Vec<u8>) {
        let mut out: Vec<u8> = Vec::new();
        append_u8(&mut out, self.bump);
        append_u64(&mut out, self.open_time);
        append_u8(&mut out, self.max_decimal);
        append_u8(&mut out, self.fees_bps);
        append_bool(&mut out, self.active);
        assert(out@ =~= self.encode());
        out
    }

    fn from_bytes(bytes: &[u8]) -> (r: InitGlobalConfig) {
        InitGlobalConfig {
            bump: bytes[0],
            open_time: read_u64(bytes, 1),
            max_decimal: bytes[9],
            fees_bps: bytes[10],
            active: read_bool(bytes, 11),
        }
    }
}

impl ZeroCopyTryFrom for InitGlobalConfig {
    fn try_from_bytes(data: &[u8]) -> (r: Result<Self, RWAError>) {
        load_ix_data::<Self>(data)
    }
}

/// The operand of the initialisation of a token configuration.
#[derive(Clone, Copy, Debug, PartialEq)]
pub struct InitTokenConfig {
    /// The bump seed that the client computed; the handler derives its own.
    pub bump: u8,
    /// The creator of the token.
    pub creator: Pubkey,
    /// The token's mint.
    pub mint: Pubkey,
    /// The number of decimals of the token.
    pub decimals: u8,
    /// A description of the asset, zero-padded.
    pub description: [u8; 128],
    /// The kind of asset behind the token, zero-padded.
    pub asset_type: [u8; 8],
    /// A compact link to the audit of the asset.
    pub audit_cid: [u8; 32],
    /// What the client asks for; a new configuration is never active.
    pub active: bool,
}

impl DataLen for InitTokenConfig {
    const LEN: usize = 235;

    open spec fn spec_len() -> usize {
        235
    }

    proof fn lemma_len() {
    }
}

impl Record for InitTokenConfig {
    open spec fn encode(&self) -> Seq<u8> {
        seq![self.bump] + self.creator@ + self.mint@ + seq![self.decimals] + self.description@
            + self.asset_type@ + self.audit_cid@ + seq![bool_byte(self.active)]
    }

    open spec fn decode(bytes: Seq<u8>) -> InitTokenConfig {
        InitTokenConfig {
            bump: bytes[0],
            creator: array_of::<32>(bytes.subrange(1, 33)),
            mint: array_of::<32>(bytes.subrange(33, 65)),
            decimals: bytes[65],
            description: array_of::<128>(bytes.subrange(66, 194)),
            asset_type: array_of::<8>(bytes.subrange(194, 202)),
            audit_cid: array_of::<32>(bytes.subrange(202, 234)),
            active: byte_bool(bytes[234]),
        }
    }

    proof fn lemma_encode_len(&self) {
    }

    proof fn lemma_decode_encode(&self) {
        let bytes = self.encode();
        assert(bytes.subrange(1, 33) =~= self.creator@);
        assert(bytes.subrange(33, 65) =~= self.mint@);
        assert(bytes.subrange(66, 194) =~= self.description@);
        assert(bytes.subrange(194, 202) =~= self.asset_type@);
        assert(bytes.subrange(202, 234) =~= self.audit_cid@);
        lemma_array_of_view::<32>(self.creator);
        lemma_array_of_view::<32>(self.mint);
        lemma_array_of_view::<128>(self.description);
        lemma_array_of_view::<8>(self.asset_type);
        lemma_array_of_view::<32>(self.audit_cid);
    }

    fn to_bytes(&self) -> (out: Vec<u8>) {
        let mut out: Vec<u8> = Vec::new();
        append_u8(&mut out, self.bump);
        append_bytes(&mut out, self.creator.as_slice());
        append_bytes(&mut out, self.mint.as_slice());
        append_u8(&mut out, self.decimals);
        append_bytes(&mut out, self.description.as_slice());
        append_bytes(&mut out, self.asset_type.as_slice());
        append_bytes(&mut out, self.audit_cid.as_slice());
        append_bool(&mut out, self.active);
        assert(out@ =~= self.encode());
        out
    }

    fn from_bytes(bytes: &[u8]) -> (r: InitTokenConfig) {
        InitTokenConfig {
            bump: bytes[0],
            creator: read_array::<32>(bytes, 1),
            mint: read_array::<32>(bytes, 33),
            decimals: bytes[65],
            description: read_array::<128>(bytes, 66),
            asset_type: read_array::<8>(bytes, 194),
            audit_cid: read_array::<32>(bytes, 202),
            active: read_bool(bytes, 234),
        }
    }
}

impl ZeroCopyTryFrom for InitTokenConfig {
    fn try_from_bytes(data: &[u8]) -> (r: Result<Self, RWAError>) {
        load_ix_data::<Self>(data)
    }
}

/// The operand of a creator's registration.
#[derive(Clone, Copy, Debug, PartialEq)]
pub struct CreatorKYC {
    /// The creator's name, zero-padded.
    pub name: [u8; 32],
    /// The creator's e-mail address, zero-padded.
    pub email: [u8; 32],
    /// The wallet that the client names; the record stores the signer's.
    pub wallet: [u8; 32],
}

impl DataLen for CreatorKYC {
    const LEN: usize = 96;

    open spec fn spec_len() -> usize {
        96
    }

    proof fn lemma_len() {
    }
}

impl Record for CreatorKYC {
    open spec fn encode(&self) -> Seq<u8> {
        self.name@ + self.email@ + self.wallet@
    }

    open spec fn decode(bytes: Seq<u8>) -> CreatorKYC {
        CreatorKYC {
            name: array_of::<32>(bytes.subrange(0, 32)),
            email: array_of::<32>(bytes.subrange(32, 64)),
            wallet: array_of::<32>(bytes.subrange(64, 96)),
        }
    }

    proof fn lemma_encode_len(&self) {
    }

    proof fn lemma_decode_encode(&self) {
        let bytes = self.encode();
        assert(bytes.subrange(0, 32) =~= self.name@);
        assert(bytes.subrange(32, 64) =~= self.email@);
        assert(bytes.subrange(64, 96) =~= self.wallet@);
        lemma_array_of_view::<32>(self.name);
        lemma_array_of_view::<32>(self.email);
        lemma_array_of_view::<32>(self.wallet);
    }

    fn to_bytes(&self) -> (out: Vec<u8>) {
        let mut out: Vec<u8> = Vec::new();
        append_bytes(&mut out, self.name.as_slice());
        append_bytes(&mut out, self.email.as_slice());
        append_bytes(&mut out, self.wallet.as_slice());
        assert(out@ =~= self.encode());
        out
    }

    fn from_bytes(bytes: &[u8]) -> (r: CreatorKYC) {
        CreatorKYC {
            name: read_array::<32>(bytes, 0),
            email: read_array::<32>(bytes, 32),
            wallet: read_array::<32>(bytes, 64),
        }
    }
}

impl ZeroCopyTryFrom for CreatorKYC {
    fn try_from_bytes(data: &[u8]) -> (r: Result<Self, RWAError>) {
        load_ix_data::<Self>(data)
    }
}

/// The operand of the creation of an asset's mint.
#[derive(Clone, Copy, Debug, PartialEq)]
pub struct CreateRWA {
    /// The supply of the token.
    pub supply: u64,
    /// The number of decimals of the token.
    pub decimals: u8,
}

impl DataLen for CreateRWA {
    const LEN: usize = 9;

    open spec fn spec_len() -> usize {
        9
    }

    proof fn lemma_len() {
    }
}

impl Record for CreateRWA {
    open spec fn encode(&self) -> Seq<u8> {
        spec_u64_to_le_bytes(self.supply) + seq![self.decimals]
    }

    open spec fn decode(bytes: Seq<u8>) -> CreateRWA {
        CreateRWA { supply: spec_u64_from_le_bytes(bytes.subrange(0, 8)), decimals: bytes[8] }
    }

    proof fn lemma_encode_len(&self) {
        lemma_auto_spec_u64_to_from_le_bytes();
    }

    proof fn lemma_decode_encode(&self) {
        lemma_auto_spec_u64_to_from_le_bytes();
        let bytes = self.encode();
        assert(bytes.subrange(0, 8) =~= spec_u64_to_le_bytes(self.supply));
    }

    fn to_bytes(&self) -> (out: Vec<u8>) {
        let mut out: Vec<u8> = Vec::new();
        append_u64(&mut out, self.supply);
        append_u8(&mut out, self.decimals);
        assert(out@ =~= self.encode());
        out
    }

    fn from_bytes(bytes: &[u8]) -> (r: CreateRWA) {
        CreateRWA { supply: read_u64(bytes, 0), decimals: bytes[8] }
    }
}

impl ZeroCopyTryFrom for CreateRWA {
    fn try_from_bytes(data: &[u8]) -> (r: Result<Self, RWAError>) {
        load_ix_data::<Self>(data)
    }
}

/// The operand of the minting of an asset's token.
#[derive(Clone, Copy, Debug, PartialEq)]
pub struct MintRWA {
    /// The amount to mint.
    pub amount: u64,
}

impl DataLen for MintRWA {
    const LEN: usize = 8;

    open spec fn spec_len() -> usize {
        8
    }

    proof fn lemma_len() {
    }
}

impl Record for MintRWA {
    open spec fn encode(&self) -> Seq<u8> {
        spec_u64_to_le_bytes(self.amount)
    }

    open spec fn decode(bytes: Seq<u8>) -> MintRWA {
        MintRWA { amount: spec_u64_from_le_bytes(bytes.subrange(0, 8)) }
    }

    proof fn lemma_encode_len(&self) {
        lemma_auto_spec_u64_to_from_le_bytes();
    }

    proof fn lemma_decode_encode(&self) {
        lemma_auto_spec_u64_to_from_le_bytes();
        let bytes = self.encode();
        assert(bytes.subrange(0, 8) =~= spec_u64_to_le_bytes(self.amount));
    }

    fn to_bytes(&self) -> (out: Vec<u8>) {
        let mut out: Vec<u8> = Vec::new();
        append_u64(&mut out, self.amount);
        assert(out@ =~= self.encode());
        out
    }

    fn from_bytes(bytes: &[u8]) -> (r: MintRWA) {
        MintRWA { amount: read_u64(bytes, 0) }
    }
}

impl ZeroCopyTryFrom for MintRWA {
    fn try_from_bytes(data: &[u8]) -> (r: Result<Self, RWAError>) {
        load_ix_data::<Self>(data)
    }
}

} // verus!
