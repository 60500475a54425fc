//! Mints of the Token-2022 program and the metadata records that go with
//! them.

use crate::account::pubkey_eq;
use crate::account::Account;
use crate::account::AccountView;
use crate::account::Pubkey;
use crate::action::actions_view;
use crate::action::is_plan;
use crate::action::Action;
use crate::action::ActionView;
use crate::action::CreateAccount;
use crate::action::CreateAccountView;
use crate::action::InitializeMint2;
use crate::errors::RWAError;
use crate::layout::array_of;
use crate::layout::padded_array;
use crate::layout::zero_padded;
use crate::pda::expect_address;
use crate::pda::expect_derived;
use crate::pda::find_program_address;
use crate::pda::derived_address;
use crate::pda::seed_bytes;
use crate::pda::METADATA_SEED;
use crate::states::DataLen;
use crate::states::Record;
use crate::states::TokenMetadata;
use crate::utils::helper::ensure_record_spec;
use crate::utils::helper::write_actions;
use crate::utils::helper::write_record;
use crate::utils::helper::ProgramAccount;
use crate::utils::mint_len;
use crate::utils::token_2022_program_id;
use crate::utils::AccountCheck;
use crate::utils::MINT_LEN;
use crate::utils::TOKEN_2022_PROGRAM_ID;
use vstd::prelude::*;
use vstd::string::StringSliceAdditionalSpecFns;

verus! {

/// A mint of the Token-2022 program.
pub struct Mint2022Account;

impl AccountCheck for Mint2022Account {
    /// A mint is owned by the Token-2022 program, else `InvalidOwner`, and
    /// its data has exactly the length of a mint, else `InvalidAccountData`.
    open spec fn check_spec(account: AccountView) -> Result<(), RWAError> {
        if account.owner != TOKEN_2022_PROGRAM_ID {
            Err(RWAError::InvalidOwner)
        } else if account.data.len() != MINT_LEN {
            Err(RWAError::InvalidAccountData)
        } else {
            Ok(())
        }
    }

    fn check(account: &Account) -> (r: Result<(), RWAError>) {
        let token_program = token_2022_program_id();
        if !account.is_owned_by(&token_program) {
            return Err(RWAError::InvalidOwner);
        }
        if account.data.len() != mint_len() {
            return Err(RWAError::InvalidAccountData);
        }
        Ok(())
    }
}

/// The two requests that make `account` a mint: create the account with the
/// size of a mint, paid for by `payer` and owned by `program_id`, then ask
/// `token_program` to initialise it. The freeze authority is handed on as it
/// was given.
pub open spec fn mint_init_actions(
    account: Pubkey,
    payer: Pubkey,
    decimals: u8,
    mint_authority: Pubkey,
    freeze_authority: Option<Pubkey>,
    token_program: Pubkey,
    program_id: Pubkey,
) -> Seq<ActionView> {
    seq![
        ActionView::CreateAccount(
            CreateAccountView {
                from: payer,
                to: account,
                space: MINT_LEN as u64,
                owner: program_id,
                signer_seeds: Seq::empty(),
            },
        ),
        ActionView::InitializeMint2(
            InitializeMint2 {
                mint: account,
                decimals,
                mint_authority,
                freeze_authority,
                token_program,
            },
        ),
    ]
}

/// The address that an optional reference holds.
pub open spec fn copied(key: Option<&Pubkey>) -> Option<Pubkey> {
    match key {
        Some(k) => Some(*k),
        None => None,
    }
}

/// The seeds of the metadata record of the mint at `mint`.
pub open spec fn metadata_seeds(mint: Pubkey) -> Seq<Seq<u8>> {
    seq![METADATA_SEED.spec_bytes(), mint@]
}

/// The metadata record that `init_metadata_account` stores: the texts are
/// copied into their fields and padded with zero bytes.
pub open spec fn metadata_record(
    mint: Pubkey,
    authority: Pubkey,
    name: Seq<u8>,
    symbol: Seq<u8>,
    uri: Seq<u8>,
    immutable: bool,
    bump: u8,
) -> TokenMetadata {
    TokenMetadata {
        mint,
        update_authority: authority,
        name: array_of::<32>(zero_padded(name, 32)),
        symbol: array_of::<10>(zero_padded(symbol, 10)),
        uri: array_of::<200>(zero_padded(uri, 200)),
        immutable,
        bump,
    }
}

/// Tells whether the metadata record at `metadata` may be written where
/// `authority` is given as the update authority: no record exists yet, or the
/// existing record is not immutable and names `authority`, which signed, as
/// its update authority.
pub open spec fn may_write_metadata(
    metadata: AccountView,
    authority: AccountView,
    program_id: Pubkey,
) -> bool {
    metadata.owner != program_id || (!TokenMetadata::decode(metadata.data).immutable
        && authority.is_signer && TokenMetadata::decode(metadata.data).update_authority
        == authority.key)
}

/// What `init_metadata_account` decides, for the result `derived` of deriving
/// the address of the mint's metadata record.
///
/// - `PdaMismatch` where `metadata` does not stand at the derived address.
/// - `InvalidAccountData` where the program owns `metadata` already and its
///   data does not have the length of a metadata record.
/// - `InvalidInstructionData` where the name is longer than 32 bytes, the
///   symbol longer than 10 or the link longer than 200.
/// - Nothing at all where a record exists that is immutable, or whose update
///   authority is another account than `authority`, or did not sign: only
///   its update authority changes a record, and nobody an immutable one. Such
///   a call succeeds and asks nothing of the host.
/// - Else the requests that create the record, where the program does not own
///   it yet, and write it. A record that is written is not immutable.
pub open spec fn init_metadata_spec(
    metadata: AccountView,
    mint: AccountView,
    authority: AccountView,
    payer: AccountView,
    derived: Option<(Pubkey, u8)>,
    program_id: Pubkey,
    name: Seq<u8>,
    symbol: Seq<u8>,
    uri: Seq<u8>,
) -> Result<Seq<ActionView>, RWAError> {
    match expect_derived(metadata.key, derived, RWAError::PdaMismatch) {
        Err(e) => Err(e),
        Ok(bump) => match ensure_record_spec(
            payer,
            metadata,
            metadata_seeds(mint.key),
            derived,
            TokenMetadata::spec_len(),
            program_id,
        ) {
            Err(e) => Err(e),
            Ok(create) => if name.len() > 32 || symbol.len() > 10 || uri.len() > 200 {
                Err(RWAError::InvalidInstructionData)
            } else if !may_write_metadata(metadata, authority, program_id) {
                Ok(Seq::empty())
            } else {
                Ok(
                    write_actions(
                        create,
                        metadata.key,
                        metadata_record(
                            mint.key,
                            authority.key,
                            name,
                            symbol,
                            uri,
                            false,
                            bump,
                        ).encode(),
                    ),
                )
            },
        },
    }
}

/// An existing metadata record is changed by its update authority only, and
/// not at all once it is immutable: where the program owns `metadata` and the
/// record is immutable, or names another update authority than `authority`,
/// or `authority` did not sign, no outcome holds a request.
pub proof fn existing_metadata_is_left_to_its_authority(
    metadata: AccountView,
    mint: AccountView,
    authority: AccountView,
    payer: AccountView,
    derived: Option<(Pubkey, u8)>,
    program_id: Pubkey,
    name: Seq<u8>,
    symbol: Seq<u8>,
    uri: Seq<u8>,
)
    requires
        metadata.owner == program_id,
        TokenMetadata::decode(metadata.data).immutable || !authority.is_signer
            || TokenMetadata::decode(metadata.data).update_authority != authority.key,
    ensures
        init_metadata_spec(
            metadata,
            mint,
            authority,
            payer,
            derived,
            program_id,
            name,
            symbol,
            uri,
        ) matches Ok(actions) ==> actions.len() == 0,
{
}

/// The creation of mints and of their metadata records.
pub trait MintInit {
    /// Returns the requests that make `account` a mint.
    fn init(
        account: &Account,
        payer: &Account,
        decimals: u8,
        mint_authority: &Pubkey,
        freeze_authority: Option<&Pubkey>,
        token_program: &Pubkey,
        program_id: &Pubkey,
    ) -> Vec<Action>;

    /// Returns the requests that make `account` a mint, and none where it is
    /// one already.
    fn init_if_needed(
        account: &Account,
        payer: &Account,
        decimals: u8,
        mint_authority: &Pubkey,
        freeze_authority: Option<&Pubkey>,
        token_program: &Pubkey,
        program_id: &Pubkey,
    ) -> Vec<Action>;

    /// Returns the requests that store the metadata record of `mint` in
    /// `metadata`.
    fn init_metadata_account(
        metadata: &Account,
        mint: &Account,
        authority: &Account,
        payer: &Account,
        program_id: &Pubkey,
        name: &str,
        symbol: &str,
        uri: &str,
    ) -> Result<Vec<Action>, RWAError>;

    /// Returns the requests that make `account` a mint and store its metadata
    /// record, and none where `account` is a mint already.
    fn init_if_needed_and_init_metadata_account(
        account: &Account,
        payer: &Account,
        decimals: u8,
        mint_authority: &Pubkey,
        freeze_authority: Option<&Pubkey>,
        token_program: &Pubkey,
        metadata_account: &Account,
        authority: &Account,
        program_id: &Pubkey,
        name: &str,
        symbol: &str,
        uri: &str,
    ) -> Result<Vec<Action>, RWAError>;
}

impl Mint2022Account {
    /// Decides, for the result `derived` of deriving the address of the
    /// metadata record of `mint`, the requests that store that record in
    /// `metadata`.
    pub fn init_metadata_account_with(
        metadata: &Account,
        mint: &Account,
        authority: &Account,
        payer: &Account,
        derived: &Option<(Pubkey, u8)>,
        program_id: &Pubkey,
        name: &str,
        symbol: &str,
        uri: &str,
    ) -> (r: Result<Vec<Action>, RWAError>)
        ensures
            is_plan(
                r,
                init_metadata_spec(
                    metadata@,
                    mint@,
                    authority@,
                    payer@,
                    *derived,
                    *program_id,
                    name.spec_bytes(),
                    symbol.spec_bytes(),
                    uri.spec_bytes(),
                ),
            ),
    {
        let bump = match expect_address(&metadata.key, derived, RWAError::PdaMismatch) {
            Ok(bump) => bump,
            Err(e) => { return Err(e); },
        };
        let tag: &[u8] = METADATA_SEED.as_bytes();
        let seeds: [&[u8]; 2] = [tag, mint.key.as_slice()];
        assert(seed_bytes(seeds@) =~= metadata_seeds(mint.key));
        proof {
            TokenMetadata::lemma_len();
        }
        let create = match ProgramAccount::ensure_record(
            payer,
            metadata,
            seeds.as_slice(),
            derived,
            TokenMetadata::LEN,
            program_id,
        ) {
            Ok(create) => create,
            Err(e) => { return Err(e); },
        };
        let name_bytes = name.as_bytes();
        let symbol_bytes = symbol.as_bytes();
        let uri_bytes = uri.as_bytes();
        if name_bytes.len() > 32 || symbol_bytes.len() > 10 || uri_bytes.len() > 200 {
            return Err(RWAError::InvalidInstructionData);
        }
        if metadata.is_owned_by(program_id) {
            let stored = TokenMetadata::from_bytes(metadata.data.as_slice());
            if stored.immutable || !authority.is_signer || !pubkey_eq(
                &stored.update_authority,
                &authority.key,
            ) {
                let nothing: Vec<Action> = Vec::new();
                assert(actions_view(nothing@) =~= Seq::<ActionView>::empty());
                return Ok(nothing);
            }
        }
        let record = TokenMetadata {
            mint: mint.key,
            update_authority: authority.key,
            name: padded_array::<32>(name_bytes),
            symbol: padded_array::<10>(symbol_bytes),
            uri: padded_array::<200>(uri_bytes),
            immutable: false,
            bump,
        };
        Ok(write_record(create, &metadata.key, record.to_bytes()))
    }
}

impl MintInit for Mint2022Account {
    fn init(
        account: &Account,
        payer: &Account,
        decimals: u8,
        mint_authority: &Pubkey,
        freeze_authority: Option<&Pubkey>,
        token_program: &Pubkey,
        program_id: &Pubkey,
    ) -> (r: Vec<Action>)
        ensures
            actions_view(r@) == mint_init_actions(
                account.key,
                payer.key,
                decimals,
                *mint_authority,
                copied(freeze_authority),
                *token_program,
                *program_id,
            ),
    {
        let freeze: Option<Pubkey> = match freeze_authority {
            Some(key) => Some(*key),
            None => None,
        };
        let mut r: Vec<Action> = Vec::new();
        let seeds: Vec<Vec<u8>> = Vec::new();
        let create = CreateAccount {
            from: payer.key,
            to: account.key,
            space: mint_len() as u64,
            owner: *program_id,
            signer_seeds: seeds,
        };
        assert(create@.signer_seeds =~= Seq::<Seq<u8>>::empty());
        r.push(Action::CreateAccount(create));
        r.push(
            Action::InitializeMint2(
                InitializeMint2 {
                    mint: account.key,
                    decimals,
                    mint_authority: *mint_authority,
                    freeze_authority: freeze,
                    token_program: *token_program,
                },
            ),
        );
        assert(actions_view(r@) =~= mint_init_actions(
            account.key,
            payer.key,
            decimals,
            *mint_authority,
            copied(freeze_authority),
            *token_program,
            *program_id,
        ));
        r
    }

    fn init_if_needed(
        account: &Account,
        payer: &Account,
        decimals: u8,
        mint_authority: &Pubkey,
        freeze_authority: Option<&Pubkey>,
        token_program: &Pubkey,
        program_id: &Pubkey,
    ) -> (r: Vec<Action>)
        ensures
            actions_view(r@) == if Self::check_spec(account@) is Ok {
                Seq::<ActionView>::empty()
            } else {
                mint_init_actions(
                    account.key,
                    payer.key,
                    decimals,
                    *mint_authority,
                    copied(freeze_authority),
                    *token_program,
                    *program_id,
                )
            },
    {
        match Self::check(account) {
            Ok(_) => {
                let r: Vec<Action> = Vec::new();
                assert(actions_view(r@) =~= Seq::<ActionView>::empty());
                r
            },
            Err(_) => Self::init(
                account,
                payer,
                decimals,
                mint_authority,
                freeze_authority,
                token_program,
                program_id,
            ),
        }
    }

    fn init_metadata_account(
        metadata: &Account,
        mint: &Account,
        authority: &Account,
        payer: &Account,
        program_id: &Pubkey,
        name: &str,
        symbol: &str,
        uri: &str,
    ) -> (r: Result<Vec<Action>, RWAError>)
        ensures
            is_plan(
                r,
                init_metadata_spec(
                    metadata@,
                    mint@,
                    authority@,
                    payer@,
                    derived_address(metadata_seeds(mint.key), *program_id),
                    *program_id,
                    name.spec_bytes(),
                    symbol.spec_bytes(),
                    uri.spec_bytes(),
                ),
            ),
    {
        let tag: &[u8] = METADATA_SEED.as_bytes();
        let seeds: [&[u8]; 2] = [tag, mint.key.as_slice()];
        assert(seed_bytes(seeds@) =~= metadata_seeds(mint.key));
        let derived = find_program_address(seeds.as_slice(), program_id);
        Self::init_metadata_account_with(
            metadata,
            mint,
            authority,
            payer,
            &derived,
            program_id,
            name,
            symbol,
            uri,
        )
    }

    fn init_if_needed_and_init_metadata_account(
        account: &Account,
        payer: &Account,
        decimals: u8,
        mint_authority: &Pubkey,
        freeze_authority: Option<&Pubkey>,
        token_program: &Pubkey,
        metadata_account: &Account,
        authority: &Account,
        program_id: &Pubkey,
        name: &str,
        symbol: &str,
        uri: &str,
    ) -> (r: Result<Vec<Action>, RWAError>)
        ensures
            is_plan(
                r,
                if Self::check_spec(account@) is Ok {
                    Ok(Seq::<ActionView>::empty())
                } else {
                    match init_metadata_spec(
                        metadata_account@,
                        account@,
                        authority@,
                        payer@,
                        derived_address(metadata_seeds(account.key), *program_id),
                        *program_id,
                        name.spec_bytes(),
                        symbol.spec_bytes(),
                        uri.spec_bytes(),
                    ) {
                        Ok(store) => Ok(
                            mint_init_actions(
                                account.key,
                                payer.key,
                                decimals,
                                *mint_authority,
                                copied(freeze_authority),
                                *token_program,
                                *program_id,
                            ) + store,
                        ),
                        Err(e) => Err(e),
                    }
                },
            ),
    {
        match Self::check(account) {
            Ok(_) => {
                let r: Vec<Action> = Vec::new();
                assert(actions_view(r@) =~= Seq::<ActionView>::empty());
                Ok(r)
            },
            Err(_) => {
                let mut r = Self::init(
                    account,
                    payer,
                    decimals,
                    mint_authority,
                    freeze_authority,
                    token_program,
                    program_id,
                );
                let mut store = match Self::init_metadata_account(
                    metadata_account,
                    account,
                    authority,
                    payer,
                    program_id,
                    name,
                    symbol,
                    uri,
                ) {
                    Ok(store) => store,
                    Err(e) => { return Err(e); },
                };
                let ghost first = actions_view(r@);
                let ghost second = actions_view(store@);
                r.append(&mut store);
                assert(actions_view(r@) =~= first + second);
                Ok(r)
            },
        }
    }
}

} // verus!
