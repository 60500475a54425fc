//! The singleton configuration record of a deployment.

use crate::account::Pubkey;
use crate::layout::append_bool;
use crate::layout::append_bytes;
use crate::layout::append_u64;
use crate::layout::append_u8;
use crate::layout::array_of;
use crate::layout::bool_byte;
use crate::layout::byte_bool;
use crate::layout::lemma_array_of_view;
use crate::layout::read_array;
use crate::layout::read_bool;
use crate::layout::read_u64;
use crate::states::DataLen;
use crate::states::Record;
use vstd::bytes::lemma_auto_spec_u64_to_from_le_bytes;
use vstd::bytes::spec_u64_from_le_bytes;
use vstd::bytes::spec_u64_to_le_bytes;
use vstd::prelude::*;

verus! {

/// The configuration of a deployment. There is one such record, at the address
/// derived from the global configuration seed.
#[derive(Clone, Copy, Debug, PartialEq)]
pub struct GlobalConfig {
    /// Who may change the configuration.
    pub config_authority: Pubkey,
    /// Who may approve creators' identity records.
    pub kyc_authority: Pubkey,
    /// Whether the registry accepts operations.
    pub active: bool,
    /// The time from which the registry is open.
    pub open_time: u64,
    /// The largest number of decimals a token may declare.
    pub max_decimal: u8,
    /// The fee, in basis points.
    pub fees_bps: u8,
    /// The bump seed of the record's address.
    pub bump: u8,
}

impl GlobalConfig {
    /// The largest fee: the whole amount, in basis points.
    pub const MAX_FEES_BPS: u16 = 10000;

    /// Every configuration has a fee of at most the whole amount: the field
    /// cannot hold more.
    pub proof fn fees_are_basis_points(config: GlobalConfig)
        ensures
            config.fees_bps <= Self::MAX_FEES_BPS,
    {
    }
}

impl DataLen for GlobalConfig {
    const LEN: usize = 76;

    open spec fn spec_len() -> usize {
        76
    }

    proof fn lemma_len() {
    }
}

impl Record for GlobalConfig {
    open spec fn encode(&self) -> Seq<u8> {
        self.config_authority@ + self.kyc_authority@ + seq![bool_byte(self.active)]
            + spec_u64_to_le_bytes(self.open_time) + seq![self.max_decimal] + seq![self.fees_bps]
            + seq![self.bump]
    }

    open spec fn decode(bytes: Seq<u8>) -> GlobalConfig {
        GlobalConfig {
            config_authority: array_of::<32>(bytes.subrange(0, 32)),
            kyc_authority: array_of::<32>(bytes.subrange(32, 64)),
            active: byte_bool(bytes[64]),
            open_time: spec_u64_from_le_bytes(bytes.subrange(65, 73)),
            max_decimal: bytes[73],
            fees_bps: bytes[74],
            bump: bytes[75],
        }
    }

    proof fn lemma_encode_len(&self) {
        lemma_auto_spec_u64_to_from_le_bytes();
    }

    proof fn lemma_decode_encode(&self) {
        lemma_auto_spec_u64_to_from_le_bytes();
        let bytes = self.encode();
        assert(bytes.subrange(0, 32) =~= self.config_authority@);
        assert(bytes.subrange(32, 64) =~= self.kyc_authority@);
        assert(bytes.subrange(65, 73) =~= spec_u64_to_le_bytes(self.open_time));
        lemma_array_of_view::<32>(self.config_authority);
        lemma_array_of_view::<32>(self.kyc_authority);
    }

    fn to_bytes(&self) -> (out: Vec<u8>) {
        let mut out: Vec<u8> = Vec::new();
        append_bytes(&mut out, self.config_authority.as_slice());
        append_bytes(&mut out, self.kyc_authority.as_slice());
        append_bool(&mut out, self.active);
        append_u64(&mut out, self.open_time);
        append_u8(&mut out, self.max_decimal);
        append_u8(&mut out, self.fees_bps);
        append_u8(&mut out, self.bump);
        assert(out@ =~= self.encode());
        out
    }

    fn from_bytes(bytes: &[u8]) -> (r: GlobalConfig) {
        GlobalConfig {
            config_authority: read_array::<32>(bytes, 0),
            kyc_authority: read_array::<32>(bytes, 32),
            active: read_bool(bytes, 64),
            open_time: read_u64(bytes, 65),
            max_decimal: bytes[73],
            fees_bps: bytes[74],
            bump: bytes[75],
        }
    }
}

} // verus!
