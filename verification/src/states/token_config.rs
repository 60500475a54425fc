//! The configuration record of a token.

use crate::account::Pubkey;
use crate::layout::append_bool;
use crate::layout::append_bytes;
use crate::layout::append_u8;
use crate::layout::array_of;
use crate::layout::bool_byte;
use crate::layout::byte_bool;
use crate::layout::lemma_array_of_view;
use crate::layout::read_array;
use crate::layout::read_bool;
use crate::states::DataLen;
use crate::states::Record;
use vstd::prelude::*;

verus! {

/// What a creator declared about a token. The record's address is derived
/// from the creator's address.
#[derive(Clone, Copy, Debug, PartialEq)]
pub struct TokenConfig {
    /// The bump seed of the record's address.
    pub bump: u8,
    /// The creator of the token.
    pub creator: Pubkey,
    /// The token's mint.
    pub mint: Pubkey,
    /// The number of decimals of the token.
    pub decimal: u8,
    /// A description of the asset, zero-padded.
    pub description: [u8; 128],
    /// The kind of asset behind the token, zero-padded.
    pub asset_type: [u8; 8],
    /// A compact link to the audit of the asset.
    pub audit_cid: [u8; 32],
    /// Whether the token was found legitimate; `false` until then.
    pub active: bool,
}

impl DataLen for TokenConfig {
    const LEN: usize = 235;

    open spec fn spec_len() -> usize {
        235
    }

    proof fn lemma_len() {
    }
}

impl Record for TokenConfig {
    open spec fn encode(&self) -> Seq<u8> {
        seq![self.bump] + self.creator@ + self.mint@ + seq![self.decimal] + self.description@
            + self.asset_type@ + self.audit_cid@ + seq![bool_byte(self.active)]
    }

    open spec fn decode(bytes: Seq<u8>) -> TokenConfig {
        TokenConfig {
            bump: bytes[0],
            creator: array_of::<32>(bytes.subrange(1, 33)),
            mint: array_of::<32>(bytes.subrange(33, 65)),
            decimal: bytes[65],
            description: array_of::<128>(bytes.subrange(66, 194)),
            asset_type: array_of::<8>(bytes.subrange(194, 202)),
            audit_cid: array_of::<32>(bytes.subrange(202, 234)),
            active: byte_bool(bytes[234]),
        }
    }

    proof fn lemma_encode_len(&self) {
    }

    proof fn lemma_decode_encode(&self) {
        let bytes = self.encode();
        assert(bytes.subrange(1, 33) =~= self.creator@);
        assert(bytes.subrange(33, 65) =~= self.mint@);
        assert(bytes.subrange(66, 194) =~= self.description@);
        assert(bytes.subrange(194, 202) =~= self.asset_type@);
        assert(bytes.subrange(202, 234) =~= self.audit_cid@);
        lemma_array_of_view::<32>(self.creator);
        lemma_array_of_view::<32>(self.mint);
        lemma_array_of_view::<128>(self.description);
        lemma_array_of_view::<8>(self.asset_type);
        lemma_array_of_view::<32>(self.audit_cid);
    }

    fn to_bytes(&self) -> (out: Vec<u8>) {
        let mut out: Vec<u8> = Vec::new();
        append_u8(&mut out, self.bump);
        append_bytes(&mut out, self.creator.as_slice());
        append_bytes(&mut out, self.mint.as_slice());
        append_u8(&mut out, self.decimal);
        append_bytes(&mut out, self.description.as_slice());
        append_bytes(&mut out, self.asset_type.as_slice());
        append_bytes(&mut out, self.audit_cid.as_slice());
        append_bool(&mut out, self.active);
        assert(out@ =~= self.encode());
        out
    }

    fn from_bytes(bytes: &[u8]) -> (r: TokenConfig) {
        TokenConfig {
            bump: bytes[0],
            creator: read_array::<32>(bytes, 1),
            mint: read_array::<32>(bytes, 33),
            decimal: bytes[65],
            description: read_array::<128>(bytes, 66),
            asset_type: read_array::<8>(bytes, 194),
            audit_cid: read_array::<32>(bytes, 202),
            active: read_bool(bytes, 234),
        }
    }
}

} // verus!
