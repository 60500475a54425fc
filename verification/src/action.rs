//! What the program asks of the host. The library decides; it never moves a
//! balance or creates an account itself. A handler returns the requests in the
//! order in which the host has to carry them out, and a request that the host
//! cannot fulfil aborts the whole transaction.

use crate::account::Pubkey;
use crate::errors::RWAError;
use crate::pda::owned_seed_bytes;
use vstd::prelude::*;

verus! {

/// Create the account `to`, funded by `from` with the balance that exempts
/// `space` bytes from rent, sized to `space` bytes and owned by `owner`.
#[derive(Debug, PartialEq)]
pub struct CreateAccount {
    /// The account that pays.
    pub from: Pubkey,
    /// The account to create.
    pub to: Pubkey,
    /// The size of the new account's data, in bytes.
    pub space: u64,
    /// The program that will own the new account.
    pub owner: Pubkey,
    /// The seeds, bump seed last, with which the program signs for `to`;
    /// empty where `to` signs for itself.
    pub signer_seeds: Vec<Vec<u8>>,
}

/// The mathematical value of a [`CreateAccount`].
pub struct CreateAccountView {
    pub from: Pubkey,
    pub to: Pubkey,
    pub space: u64,
    pub owner: Pubkey,
    pub signer_seeds: Seq<Seq<u8>>,
}

impl View for CreateAccount {
    type V = CreateAccountView;

    open spec fn view(&self) -> CreateAccountView {
        CreateAccountView {
            from: self.from,
            to: self.to,
            space: self.space,
            owner: self.owner,
            signer_seeds: owned_seed_bytes(self.signer_seeds@),
        }
    }
}

/// Initialise the mint `mint` of the token program `token_program`.
#[derive(Clone, Copy, Debug, PartialEq)]
pub struct InitializeMint2 {
    /// The mint account.
    pub mint: Pubkey,
    /// The number of decimals of the token.
    pub decimals: u8,
    /// Who may mint.
    pub mint_authority: Pubkey,
    /// Who may freeze token accounts, if anyone.
    pub freeze_authority: Option<Pubkey>,
    /// The token program that is asked.
    pub token_program: Pubkey,
}

/// Create the associated token account `account` of `wallet` for `mint`.
#[derive(Clone, Copy, Debug, PartialEq)]
pub struct CreateAssociatedTokenAccount {
    /// The account that pays.
    pub funding_account: Pubkey,
    /// The associated token account to create.
    pub account: Pubkey,
    /// The wallet that the new account belongs to.
    pub wallet: Pubkey,
    /// The mint of the new account.
    pub mint: Pubkey,
    /// The system program.
    pub system_program: Pubkey,
    /// The token program.
    pub token_program: Pubkey,
}

/// Replace the data of `account`, which the program owns, by `data` of the
/// same length.
#[derive(Debug, PartialEq)]
pub struct WriteData {
    /// The account to write to.
    pub account: Pubkey,
    /// The new content of the account's data.
    pub data: Vec<u8>,
}

/// The mathematical value of a [`WriteData`].
pub struct WriteDataView {
    pub account: Pubkey,
    pub data: Seq<u8>,
}

impl View for WriteData {
    type V = WriteDataView;

    open spec fn view(&self) -> WriteDataView {
        WriteDataView { account: self.account, data: self.data@ }
    }
}

/// One request to the host.
#[derive(Debug, PartialEq)]
pub enum Action {
    CreateAccount(CreateAccount),
    InitializeMint2(InitializeMint2),
    CreateAssociatedTokenAccount(CreateAssociatedTokenAccount),
    WriteData(WriteData),
}

/// The mathematical value of an [`Action`].
pub enum ActionView {
    CreateAccount(CreateAccountView),
    InitializeMint2(InitializeMint2),
    CreateAssociatedTokenAccount(CreateAssociatedTokenAccount),
    WriteData(WriteDataView),
}

impl View for Action {
    type V = ActionView;

    open spec fn view(&self) -> ActionView {
        match self {
            Action::CreateAccount(c) => ActionView::CreateAccount(c@),
            Action::InitializeMint2(i) => ActionView::InitializeMint2(*i),
            Action::CreateAssociatedTokenAccount(c) => ActionView::CreateAssociatedTokenAccount(
                *c,
            ),
            Action::WriteData(w) => ActionView::WriteData(w@),
        }
    }
}

/// The values of a list of requests, in their order.
pub open spec fn actions_view(actions: Seq<Action>) -> Seq<ActionView> {
    Seq::new(actions.len(), |i: int| actions[i]@)
}

/// Tells whether the result of a handler is the list of requests `spec`, or
/// its error.
pub open spec fn is_plan(
    r: Result<Vec<Action>, RWAError>,
    spec: Result<Seq<ActionView>, RWAError>,
) -> bool {
    match r {
        Ok(actions) => spec == Ok::<Seq<ActionView>, RWAError>(actions_view(actions@)),
        Err(e) => spec == Err::<Seq<ActionView>, RWAError>(e),
    }
}

} // verus!
