//! The accounts of the minting of an asset's token.

use crate::account::Account;
use vstd::prelude::*;

verus! {

/// The accounts that the minting of an asset's token takes.
#[derive(Clone, Copy)]
pub struct MintRWAAccount<'a> {
    /// The account that asks for the minting.
    pub signer: &'a Account,
}

} // verus!
