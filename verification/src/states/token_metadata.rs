//! The metadata record of a token's mint.

use crate::account::Pubkey;
use crate::layout::append_bool;
use crate::layout::append_bytes;
use crate::layout::append_u8;
use crate::layout::array_of;
use crate::layout::bool_byte;
use crate::layout::byte_bool;
use crate::layout::lemma_array_of_view;
use crate::layout::read_array;
use crate::layout::read_bool;
use crate::states::DataLen;
use crate::states::Record;
use vstd::prelude::*;

verus! {

/// The name, symbol and link of a token. The record's address is derived from
/// the mint's address.
#[derive(Clone, Copy, Debug, PartialEq)]
pub struct TokenMetadata {
    /// The mint that the metadata describes.
    pub mint: Pubkey,
    /// Who may change the metadata, unless it is immutable.
    pub update_authority: Pubkey,
    /// The token's name, zero-padded.
    pub name: [u8; 32],
    /// The token's symbol, zero-padded.
    pub symbol: [u8; 10],
    /// A link to further metadata, zero-padded.
    pub uri: [u8; 200],
    /// Whether the metadata can no longer be changed.
    pub immutable: bool,
    /// The bump seed of the record's address.
    pub bump: u8,
}

impl DataLen for TokenMetadata {
    const LEN: usize = 308;

    open spec fn spec_len() -> usize {
        308
    }

    proof fn lemma_len() {
    }
}

impl Record for TokenMetadata {
    open spec fn encode(&self) -> Seq<u8> {
        self.mint@ + self.update_authority@ + self.name@ + self.symbol@ + self.uri@ + seq![
            bool_byte(self.immutable),
        ] + seq![self.bump]
    }

    open spec fn decode(bytes: Seq<u8>) -> TokenMetadata {
        TokenMetadata {
            mint: array_of::<32>(bytes.subrange(0, 32)),
            update_authority: array_of::<32>(bytes.subrange(32, 64)),
            name: array_of::<32>(bytes.subrange(64, 96)),
            symbol: array_of::<10>(bytes.subrange(96, 106)),
            uri: array_of::<200>(bytes.subrange(106, 306)),
            immutable: byte_bool(bytes[306]),
            bump: bytes[307],
        }
    }

    proof fn lemma_encode_len(&self) {
    }

    proof fn lemma_decode_encode(&self) {
        let bytes = self.encode();
        assert(bytes.subrange(0, 32) =~= self.mint@);
        assert(bytes.subrange(32, 64) =~= self.update_authority@);
        assert(bytes.subrange(64, 96) =~= self.name@);
        assert(bytes.subrange(96, 106) =~= self.symbol@);
        assert(bytes.subrange(106, 306) =~= self.uri@);
        lemma_array_of_view::<32>(self.mint);
        lemma_array_of_view::<32>(self.update_authority);
        lemma_array_of_view::<32>(self.name);
        lemma_array_of_view::<10>(self.symbol);
        lemma_array_of_view::<200>(self.uri);
    }

    fn to_bytes(&self) -> (out: Vec<u8>) {
        let mut out: Vec<u8> = Vec::new();
        append_bytes(&mut out, self.mint.as_slice());
        append_bytes(&mut out, self.update_authority.as_slice());
        append_bytes(&mut out, self.name.as_slice());
        append_bytes(&mut out, self.symbol.as_slice());
        append_bytes(&mut out, self.uri.as_slice());
        append_bool(&mut out, self.immutable);
        append_u8(&mut out, self.bump);
        assert(out@ =~= self.encode());
        out
    }

    fn from_bytes(bytes: &[u8]) -> (r: TokenMetadata) {
        TokenMetadata {
            mint: read_array::<32>(bytes, 0),
            update_authority: read_array::<32>(bytes, 32),
            name: read_array::<32>(bytes, 64),
            symbol: read_array::<10>(bytes, 96),
            uri: read_array::<200>(bytes, 106),
            immutable: read_bool(bytes, 306),
            bump: bytes[307],
        }
    }
}

} // verus!
