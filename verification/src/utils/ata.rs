//! Token accounts and associated token accounts.

use crate::account::Account;
use crate::account::AccountView;
use crate::account::Pubkey;
use crate::action::CreateAssociatedTokenAccount;
use crate::errors::RWAError;
use crate::pda::address_matches;
use crate::pda::derived_address;
use crate::pda::find_program_address;
use crate::pda::matches_derived;
use crate::pda::seed_bytes;
use crate::utils::associated_token_program_id;
use crate::utils::token_2022_program_id;
use crate::utils::token_account_len;
use crate::utils::AccountCheck;
use crate::utils::ASSOCIATED_TOKEN_PROGRAM_ID;
use crate::utils::TOKEN_2022_PROGRAM_ID;
use crate::utils::TOKEN_ACCOUNT_LEN;
use vstd::prelude::*;

verus! {

/// A token account of the Token-2022 program.
pub struct TokenAccount;

impl AccountCheck for TokenAccount {
    /// A token account is owned by the Token-2022 program, else
    /// `InvalidOwner`, and its data has exactly the length of a token account,
    /// else `InvalidAccountData`.
    open spec fn check_spec(account: AccountView) -> Result<(), RWAError> {
        if account.owner != TOKEN_2022_PROGRAM_ID {
            Err(RWAError::InvalidOwner)
        } else if account.data.len() != TOKEN_ACCOUNT_LEN {
            Err(RWAError::InvalidAccountData)
        } else {
            Ok(())
        }
    }

    fn check(account: &Account) -> (r: Result<(), RWAError>) {
        let token_program = token_2022_program_id();
        if !account.is_owned_by(&token_program) {
            return Err(RWAError::InvalidOwner);
        }
        if account.data.len() != token_account_len() {
            return Err(RWAError::InvalidAccountData);
        }
        Ok(())
    }
}

/// The seeds of the associated token account of the wallet `authority` for
/// `mint` under `token_program`, in the order that makes the address.
pub open spec fn associated_token_seeds(
    authority: Pubkey,
    token_program: Pubkey,
    mint: Pubkey,
) -> Seq<Seq<u8>> {
    seq![authority@, token_program@, mint@]
}

/// What the check of an associated token account returns, for the result
/// `derived` of deriving its address: the failure of the token account check,
/// if that fails; else `InvalidAddress` unless the account stands at the
/// derived address.
pub open spec fn associated_token_check_spec(
    account: AccountView,
    derived: Option<(Pubkey, u8)>,
) -> Result<(), RWAError> {
    match TokenAccount::check_spec(account) {
        Err(e) => Err(e),
        Ok(_) => if matches_derived(account.key, derived) {
            Ok(())
        } else {
            Err(RWAError::InvalidAddress)
        },
    }
}

/// The request to create the associated token account `account` of the
/// wallet `owner` for `mint`, paid for by `payer`.
pub open spec fn associated_token_request(
    account: Pubkey,
    mint: Pubkey,
    payer: Pubkey,
    owner: Pubkey,
    system_program: Pubkey,
    token_program: Pubkey,
) -> CreateAssociatedTokenAccount {
    CreateAssociatedTokenAccount {
        funding_account: payer,
        account,
        wallet: owner,
        mint,
        system_program,
        token_program,
    }
}

/// The capability of being the associated token account of a wallet.
pub trait AssociatedTokenAccountCheck {
    /// Checks that `account` is a token account at the address derived from
    /// the wallet `authority`, the token program and the mint.
    fn check(
        account: &Account,
        authority: &Account,
        mint: &Account,
        token_program: &Account,
    ) -> Result<(), RWAError>;
}

/// The creation of associated token accounts.
pub trait AssociatedTokenAccountInit {
    /// Returns the request to create the associated token account.
    fn init(
        account: &Account,
        mint: &Account,
        payer: &Account,
        owner: &Account,
        system_program: &Account,
        token_program: &Account,
    ) -> CreateAssociatedTokenAccount;

    /// Returns the request to create the associated token account, and none
    /// where `account` is the associated token account of `owner` already.
    fn init_if_needed(
        account: &Account,
        mint: &Account,
        payer: &Account,
        owner: &Account,
        system_program: &Account,
        token_program: &Account,
    ) -> Option<CreateAssociatedTokenAccount>;
}

/// The associated token account of a wallet for a mint.
pub struct AssociatedTokenAccount;

impl AssociatedTokenAccount {
    /// Returns the identity of the program under which the addresses of
    /// associated token accounts are derived.
    pub fn program_id() -> (id: Pubkey)
        ensures
            id == ASSOCIATED_TOKEN_PROGRAM_ID,
    {
        associated_token_program_id()
    }

    /// Decides, for the result `derived` of deriving the address of the
    /// associated token account, whether the account has to be created:
    /// returns nothing where `account` passes the check, and the request to
    /// create it otherwise.
    pub fn init_if_needed_with(
        account: &Account,
        mint: &Account,
        payer: &Account,
        owner: &Account,
        system_program: &Account,
        token_program: &Account,
        derived: &Option<(Pubkey, u8)>,
    ) -> (r: Option<CreateAssociatedTokenAccount>)
        ensures
            r == if associated_token_check_spec(account@, *derived) is Ok {
                None
            } else {
                Some(
                    associated_token_request(
                        account.key,
                        mint.key,
                        payer.key,
                        owner.key,
                        system_program.key,
                        token_program.key,
                    ),
                )
            },
    {
        match AssociatedTokenAccount::check_with(account, derived) {
            Ok(_) => None,
            Err(_) => Some(
                Self::init(account, mint, payer, owner, system_program, token_program),
            ),
        }
    }

    /// Checks `account` against the result `derived` of deriving the address
    /// of the associated token account.
    pub fn check_with(account: &Account, derived: &Option<(Pubkey, u8)>) -> (r: Result<
        (),
        RWAError,
    >)
        ensures
            r == associated_token_check_spec(account@, *derived),
    {
        match TokenAccount::check(account) {
            Ok(_) => {},
            Err(e) => { return Err(e); },
        }
        if !address_matches(&account.key, derived) {
            return Err(RWAError::InvalidAddress);
        }
        Ok(())
    }
}

impl AssociatedTokenAccountCheck for AssociatedTokenAccount {
    fn check(
        account: &Account,
        authority: &Account,
        mint: &Account,
        token_program: &Account,
    ) -> (r: Result<(), RWAError>)
        ensures
            r == associated_token_check_spec(
                account@,
                derived_address(
                    associated_token_seeds(authority.key, token_program.key, mint.key),
                    ASSOCIATED_TOKEN_PROGRAM_ID,
                ),
            ),
    {
        let seeds: [&[u8]; 3] = [
            authority.key.as_slice(),
            token_program.key.as_slice(),
            mint.key.as_slice(),
        ];
        assert(seed_bytes(seeds@) =~= associated_token_seeds(
            authority.key,
            token_program.key,
            mint.key,
        ));
        let program = associated_token_program_id();
        let derived = find_program_address(seeds.as_slice(), &program);
        AssociatedTokenAccount::check_with(account, &derived)
    }
}

impl AssociatedTokenAccountInit for AssociatedTokenAccount {
    fn init(
        account: &Account,
        mint: &Account,
        payer: &Account,
        owner: &Account,
        system_program: &Account,
        token_program: &Account,
    ) -> (r: CreateAssociatedTokenAccount)
        ensures
            r == associated_token_request(
                account.key,
                mint.key,
                payer.key,
                owner.key,
                system_program.key,
                token_program.key,
            ),
    {
        CreateAssociatedTokenAccount {
            funding_account: payer.key,
            account: account.key,
            wallet: owner.key,
            mint: mint.key,
            system_program: system_program.key,
            token_program: token_program.key,
        }
    }

    fn init_if_needed(
        account: &Account,
        mint: &Account,
        payer: &Account,
        owner: &Account,
        system_program: &Account,
        token_program: &Account,
    ) -> (r: Option<CreateAssociatedTokenAccount>)
        ensures
            r == if associated_token_check_spec(
                account@,
                derived_address(
                    associated_token_seeds(owner.key, token_program.key, mint.key),
                    ASSOCIATED_TOKEN_PROGRAM_ID,
                ),
            ) is Ok {
                None
            } else {
                Some(
                    associated_token_request(
                        account.key,
                        mint.key,
                        payer.key,
                        owner.key,
                        system_program.key,
                        token_program.key,
                    ),
                )
            },
    {
        match Self::check(account, owner, mint, token_program) {
            Ok(_) => None,
            Err(_) => Some(
                Self::init(account, mint, payer, owner, system_program, token_program),
            ),
        }
    }
}

} // verus!
