//! Addresses and the accounts that a transaction hands to the program.

use vstd::prelude::*;

verus! {

/// The address of an account or of a program.
pub type Pubkey = [u8; 32];

/// Tells whether two addresses are the same.
pub fn pubkey_eq(a: &Pubkey, b: &Pubkey) -> (r: bool)
    ensures
        r == (*a == *b),
{
    let mut i: usize = 0;
    while i < 32
        invariant
            i <= 32,
            forall|j: int| 0 <= j < i ==> a@[j] == b@[j],
        decreases 32 - i,
    {
        if a[i] != b[i] {
            return false;
        }
        i += 1;
    }
    assert(*a =~= *b);
    true
}

/// An account as the program sees it during one transaction: its address,
/// the program that owns it, what the transaction grants on it, its balance
/// and its data.
#[derive(Debug)]
pub struct Account {
    /// The account's address.
    pub key: Pubkey,
    /// The program that owns the account and alone may change its data.
    pub owner: Pubkey,
    /// Whether the transaction was signed for this account.
    pub is_signer: bool,
    /// Whether the transaction may change this account.
    pub is_writable: bool,
    /// The balance, in lamports.
    pub lamports: u64,
    /// The account's data.
    pub data: Vec<u8>,
}

/// The mathematical value of an [`Account`].
pub struct AccountView {
    pub key: Pubkey,
    pub owner: Pubkey,
    pub is_signer: bool,
    pub is_writable: bool,
    pub lamports: u64,
    pub data: Seq<u8>,
}

impl View for Account {
    type V = AccountView;

    open spec fn view(&self) -> AccountView {
        AccountView {
            key: self.key,
            owner: self.owner,
            is_signer: self.is_signer,
            is_writable: self.is_writable,
            lamports: self.lamports,
            data: self.data@,
        }
    }
}

impl Clone for Account {
    fn clone(&self) -> (r: Account)
        ensures
            r@ == self@,
    {
        Account {
            key: self.key,
            owner: self.owner,
            is_signer: self.is_signer,
            is_writable: self.is_writable,
            lamports: self.lamports,
            data: self.data.clone(),
        }
    }
}

impl Account {
    /// Tells whether `program` owns this account.
    pub fn is_owned_by(&self, program: &Pubkey) -> (r: bool)
        ensures
            r == (self.owner == *program),
    {
        pubkey_eq(&self.owner, program)
    }

    /// The length of the account's data, in bytes.
    pub fn data_len(&self) -> (n: usize)
        ensures
            n == self.data@.len(),
    {
        self.data.len()
    }
}

} // verus!
