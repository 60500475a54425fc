//! The identity record of a creator.

use crate::account::Pubkey;
use crate::layout::append_bool;
use crate::layout::append_bytes;
use crate::layout::append_u8;
use crate::layout::array_of;
use crate::layout::bool_byte;
use crate::layout::byte_bool;
use crate::layout::lemma_array_of_view;
use crate::layout::read_array;
use crate::layout::read_bool;
use crate::states::DataLen;
use crate::states::Record;
use vstd::prelude::*;

verus! {

/// What a creator registered about themselves, and whether it was approved.
/// The record's address is derived from the creator's wallet.
#[derive(Clone, Copy, Debug, PartialEq)]
pub struct CreatorKYC {
    /// The creator's name, zero-padded.
    pub name: [u8; 32],
    /// The creator's e-mail address, zero-padded.
    pub email_id: [u8; 32],
    /// The creator's wallet.
    pub wallet: Pubkey,
    /// Whether the identity was approved.
    pub verified: bool,
    /// The bump seed of the record's address.
    pub bump: u8,
}

impl DataLen for CreatorKYC {
    const LEN: usize = 98;

    open spec fn spec_len() -> usize {
        98
    }

    proof fn lemma_len() {
    }
}

impl Record for CreatorKYC {
    open spec fn encode(&self) -> Seq<u8> {
        self.name@ + self.email_id@ + self.wallet@ + seq![bool_byte(self.verified)] + seq![
            self.bump,
        ]
    }

    open spec fn decode(bytes: Seq<u8>) -> CreatorKYC {
        CreatorKYC {
            name: array_of::<32>(bytes.subrange(0, 32)),
            email_id: array_of::<32>(bytes.subrange(32, 64)),
            wallet: array_of::<32>(bytes.subrange(64, 96)),
            verified: byte_bool(bytes[96]),
            bump: bytes[97],
        }
    }

    proof fn lemma_encode_len(&self) {
    }

    proof fn lemma_decode_encode(&self) {
        let bytes = self.encode();
        assert(bytes.subrange(0, 32) =~= self.name@);
        assert(bytes.subrange(32, 64) =~= self.email_id@);
        assert(bytes.subrange(64, 96) =~= self.wallet@);
        lemma_array_of_view::<32>(self.name);
        lemma_array_of_view::<32>(self.email_id);
        lemma_array_of_view::<32>(self.wallet);
    }

    fn to_bytes(&self) -> (out: Vec<u8>) {
        let mut out: Vec<u8> = Vec::new();
        append_bytes(&mut out, self.name.as_slice());
        append_bytes(&mut out, self.email_id.as_slice());
        append_bytes(&mut out, self.wallet.as_slice());
        append_bool(&mut out, self.verified);
        append_u8(&mut out, self.bump);
        assert(out@ =~= self.encode());
        out
    }

    fn from_bytes(bytes: &[u8]) -> (r: CreatorKYC) {
        CreatorKYC {
            name: read_array::<32>(bytes, 0),
            email_id: read_array::<32>(bytes, 32),
            wallet: read_array::<32>(bytes, 64),
            verified: read_bool(bytes, 96),
            bump: bytes[97],
        }
    }
}

} // verus!
