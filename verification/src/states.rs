//! The records that the program keeps on chain, each with a fixed byte layout:
//! the fields follow one another in declaration order without padding, and
//! integers are little-endian.

use vstd::prelude::*;

pub mod creator_kyc;
pub mod global_config;
pub mod token_config;
pub mod token_metadata;

pub use creator_kyc::CreatorKYC;
pub use global_config::GlobalConfig;
pub use token_config::TokenConfig;
pub use token_metadata::TokenMetadata;

verus! {

/// A type whose stored form has a fixed length.
pub trait DataLen {
    /// The number of bytes of the stored form.
    const LEN: usize;

    /// The value of `LEN`, as contracts speak of it.
    spec fn spec_len() -> usize;

    /// `LEN` is the length that the contracts speak of.
    proof fn lemma_len()
        ensures
            Self::LEN == Self::spec_len(),
    ;
}

/// A record with a fixed byte layout: every value has exactly one stored form
/// of `LEN` bytes, and reading that form back gives the value again.
pub trait Record: DataLen + Sized {
    /// The stored form of the record.
    spec fn encode(&self) -> Seq<u8>;

    /// The record that `LEN` bytes stand for.
    spec fn decode(bytes: Seq<u8>) -> Self;

    /// The stored form has `LEN` bytes.
    proof fn lemma_encode_len(&self)
        ensures
            self.encode().len() == Self::spec_len(),
    ;

    /// Reading a stored form back gives the record that was stored.
    proof fn lemma_decode_encode(&self)
        ensures
            Self::decode(self.encode()) == *self,
    ;

    /// Writes the stored form of the record.
    fn to_bytes(&self) -> (out: Vec<u8>)
        ensures
            out@ == self.encode(),
    ;

    /// Reads the record that `LEN` bytes stand for.
    fn from_bytes(bytes: &[u8]) -> (r: Self)
        requires
            bytes.len() == Self::spec_len(),
        ensures
            r == Self::decode(bytes@),
    ;
}

} // verus!
