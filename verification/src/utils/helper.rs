//! Capability tokens for signers, system-owned and program-owned accounts,
//! and the lifecycle of the program's records.

use crate::account::pubkey_eq;
use crate::account::Account;
use crate::account::AccountView;
use crate::account::Pubkey;
use crate::action::actions_view;
use crate::action::Action;
use crate::action::ActionView;
use crate::action::CreateAccount;
use crate::action::CreateAccountView;
use crate::action::WriteData;
use crate::action::WriteDataView;
use crate::errors::RWAError;
use crate::pda::find_program_address;
use crate::pda::derived_address;
use crate::pda::seed_bytes;
use crate::pda::signer_seeds;
use crate::utils::system_program_id;
use crate::utils::AccountCheck;
use crate::utils::SYSTEM_PROGRAM_ID;
use vstd::prelude::*;

verus! {

/// An account that signed the transaction.
pub struct SignerAccount<'a> {
    pub account: &'a Account,
}

impl<'a> SignerAccount<'a> {
    /// What the token stands for: its account signed.
    pub open spec fn wf(&self) -> bool {
        self.account.is_signer
    }

    /// Hands out the token for `account` if it signed, and `NotSigner` if not.
    pub fn try_from(account: &'a Account) -> (r: Result<SignerAccount<'a>, RWAError>)
        ensures
            match r {
                Ok(token) => token.wf() && token.account == account,
                Err(e) => !account.is_signer && e == RWAError::NotSigner,
            },
    {
        match SignerAccount::check(account) {
            Ok(_) => Ok(SignerAccount { account }),
            Err(e) => Err(e),
        }
    }
}

impl<'a> AccountCheck for SignerAccount<'a> {
    open spec fn check_spec(account: AccountView) -> Result<(), RWAError> {
        if account.is_signer {
            Ok(())
        } else {
            Err(RWAError::NotSigner)
        }
    }

    fn check(account: &Account) -> (r: Result<(), RWAError>) {
        if !account.is_signer {
            return Err(RWAError::NotSigner);
        }
        Ok(())
    }
}

/// An account that the system program owns: a plain balance, not yet a
/// record of any program.
pub struct SystemAccount<'a> {
    pub account: &'a Account,
}

impl<'a> SystemAccount<'a> {
    /// What the token stands for: the system program owns its account.
    pub open spec fn wf(&self) -> bool {
        self.account.owner == SYSTEM_PROGRAM_ID
    }

    /// Hands out the token for `account` if the system program owns it, and
    /// `InvalidOwner` if not.
    pub fn try_from(account: &'a Account) -> (r: Result<SystemAccount<'a>, RWAError>)
        ensures
            match r {
                Ok(token) => token.wf() && token.account == account,
                Err(e) => account.owner != SYSTEM_PROGRAM_ID && e == RWAError::InvalidOwner,
            },
    {
        match SystemAccount::check(account) {
            Ok(_) => Ok(SystemAccount { account }),
            Err(e) => Err(e),
        }
    }
}

impl<'a> AccountCheck for SystemAccount<'a> {
    open spec fn check_spec(account: AccountView) -> Result<(), RWAError> {
        if account.owner == SYSTEM_PROGRAM_ID {
            Ok(())
        } else {
            Err(RWAError::InvalidOwner)
        }
    }

    fn check(account: &Account) -> (r: Result<(), RWAError>) {
        let system = system_program_id();
        if !account.is_owned_by(&system) {
            return Err(RWAError::InvalidOwner);
        }
        Ok(())
    }
}

/// An account that this program owns: one of its records.
pub struct ProgramAccount<'a> {
    pub account: &'a Account,
}

impl<'a> ProgramAccount<'a> {
    /// What the token stands for: the program `program_id` owns its account.
    pub open spec fn wf(&self, program_id: Pubkey) -> bool {
        self.account.owner == program_id
    }

    /// Hands out the token for `account` if this program owns it, and
    /// `InvalidOwner` if not.
    pub fn try_from(account: &'a Account, program_id: &Pubkey) -> (r: Result<
        ProgramAccount<'a>,
        RWAError,
    >)
        ensures
            match r {
                Ok(token) => token.wf(*program_id) && token.account == account,
                Err(e) => account.owner != *program_id && e == RWAError::InvalidOwner,
            },
    {
        match ProgramAccount::check(account, program_id) {
            Ok(_) => Ok(ProgramAccount { account }),
            Err(e) => Err(e),
        }
    }
}

impl<'a> ProgramAccount<'a> {
    /// What the check of an account returns for the program `program_id`.
    pub open spec fn check_spec(account: AccountView, program_id: Pubkey) -> Result<(), RWAError> {
        if account.owner == program_id {
            Ok(())
        } else {
            Err(RWAError::InvalidOwner)
        }
    }

    /// Checks that the program `program_id` owns `account`. The identity of
    /// the program is an argument: no check reads it from anywhere else.
    pub fn check(account: &Account, program_id: &Pubkey) -> (r: Result<(), RWAError>)
        ensures
            r == Self::check_spec(account@, *program_id),
    {
        if !account.is_owned_by(program_id) {
            return Err(RWAError::InvalidOwner);
        }
        Ok(())
    }
}

/// Whether a record of the program exists at an account.
#[derive(Clone, Copy, Debug, PartialEq, Eq, Structural)]
pub enum RecordState {
    /// The program does not own the account: no record was created there.
    Uninitialized,
    /// The program owns the account: it holds a record.
    Initialized,
}

/// The state of the record at `account` for the program `program_id`.
pub open spec fn record_state(account: AccountView, program_id: Pubkey) -> RecordState {
    if account.owner == program_id {
        RecordState::Initialized
    } else {
        RecordState::Uninitialized
    }
}

/// The request to create `account` as a record of `space` bytes, owned by
/// this program, paid for by `payer` and signed for with `signer_seeds`.
pub open spec fn create_request(
    payer: Pubkey,
    account: Pubkey,
    signer_seeds: Seq<Seq<u8>>,
    space: usize,
    program_id: Pubkey,
) -> CreateAccountView {
    CreateAccountView {
        from: payer,
        to: account,
        space: space as u64,
        owner: program_id,
        signer_seeds,
    }
}

/// What `init_if_needed` decides: nothing to do for an initialized record;
/// the request to create the account of an uninitialized one that stands at
/// the address derived from `seeds`; `InvalidAccountData` for an
/// uninitialized one that stands at another address, or where no address
/// could be derived.
pub open spec fn init_if_needed_spec(
    payer: AccountView,
    account: AccountView,
    seeds: Seq<Seq<u8>>,
    derived: Option<(Pubkey, u8)>,
    space: usize,
    program_id: Pubkey,
) -> Result<Option<CreateAccountView>, RWAError> {
    match record_state(account, program_id) {
        RecordState::Initialized => Ok(None),
        RecordState::Uninitialized => match derived {
            Some((address, bump)) => if address == account.key {
                Ok(
                    Some(
                        create_request(
                            payer.key,
                            account.key,
                            seeds.push(seq![bump]),
                            space,
                            program_id,
                        ),
                    ),
                )
            } else {
                Err(RWAError::InvalidAccountData)
            },
            None => Err(RWAError::InvalidAccountData),
        },
    }
}

/// Tells whether an exec result of `init_if_needed` is the decision `spec`.
pub open spec fn is_init_decision(
    r: Result<Option<CreateAccount>, RWAError>,
    spec: Result<Option<CreateAccountView>, RWAError>,
) -> bool {
    match r {
        Ok(create) => spec == Ok::<Option<CreateAccountView>, RWAError>(request_view(create)),
        Err(e) => spec == Err::<Option<CreateAccountView>, RWAError>(e),
    }
}

/// Tells whether `after` can be the account `before` once the host has
/// carried out `request`: the same account where nothing was asked; the
/// account at the requested address, with the requested owner and size, where
/// a creation was asked.
pub open spec fn carried_out(
    before: AccountView,
    request: Option<CreateAccountView>,
    after: AccountView,
) -> bool {
    match request {
        None => after == before,
        Some(create) => after.key == create.to && after.owner == create.owner
            && after.data.len() == create.space,
    }
}

/// What has to happen so that `account` can hold a record of `space` bytes:
/// the decision of `init_if_needed`, except that an account which this
/// program owns already must have exactly `space` bytes of data, and is
/// `InvalidAccountData` otherwise.
pub open spec fn ensure_record_spec(
    payer: AccountView,
    account: AccountView,
    seeds: Seq<Seq<u8>>,
    derived: Option<(Pubkey, u8)>,
    space: usize,
    program_id: Pubkey,
) -> Result<Option<CreateAccountView>, RWAError> {
    if account.owner == program_id && account.data.len() != space {
        Err(RWAError::InvalidAccountData)
    } else {
        init_if_needed_spec(payer, account, seeds, derived, space, program_id)
    }
}

/// The requests that store `data` in `account`: the creation of the account,
/// where one is needed, and then the write.
pub open spec fn write_actions(
    create: Option<CreateAccountView>,
    account: Pubkey,
    data: Seq<u8>,
) -> Seq<ActionView> {
    let write = ActionView::WriteData(WriteDataView { account, data });
    match create {
        Some(request) => seq![ActionView::CreateAccount(request), write],
        None => seq![write],
    }
}

/// The value of an optional creation request.
pub open spec fn request_view(create: Option<CreateAccount>) -> Option<CreateAccountView> {
    match create {
        Some(request) => Some(request@),
        None => None,
    }
}

/// Returns the requests that store `data` in `account`, after the creation
/// `create` where one is needed.
pub fn write_record(create: Option<CreateAccount>, account: &Pubkey, data: Vec<u8>) -> (r: Vec<
    Action,
>)
    ensures
        actions_view(r@) == write_actions(request_view(create), *account, data@),
{
    let mut r: Vec<Action> = Vec::new();
    let ghost expected = write_actions(request_view(create), *account, data@);
    match create {
        Some(request) => {
            r.push(Action::CreateAccount(request));
        },
        None => {},
    }
    r.push(Action::WriteData(WriteData { account: *account, data }));
    assert(actions_view(r@) =~= expected);
    r
}

/// `n` zero bytes.
pub open spec fn zeros(n: nat) -> Seq<u8> {
    Seq::new(n, |i: int| 0u8)
}

/// The creation of the program's records.
pub trait ProgramAccountInit {
    /// Returns the request to create `account` as a record of `space` bytes
    /// owned by this program, paid for by `payer`; `seeds` are the seeds of
    /// the account's address with the bump seed last.
    fn init(
        payer: &Account,
        account: &Account,
        seeds: &[&[u8]],
        space: usize,
        program_id: &Pubkey,
    ) -> CreateAccount;

    /// Decides what has to happen so that `account` is a record of this
    /// program at the address derived from `seeds`.
    fn init_if_needed(
        payer: &Account,
        account: &Account,
        seeds: &[&[u8]],
        space: usize,
        program_id: &Pubkey,
    ) -> Result<Option<CreateAccount>, RWAError>;
}

impl<'a> ProgramAccount<'a> {
    /// Tells whether a record of the program `program_id` exists at
    /// `account`.
    pub fn state(account: &Account, program_id: &Pubkey) -> (r: RecordState)
        ensures
            r == record_state(account@, *program_id),
            r == RecordState::Initialized <==> Self::check_spec(account@, *program_id) is Ok,
    {
        if account.is_owned_by(program_id) {
            RecordState::Initialized
        } else {
            RecordState::Uninitialized
        }
    }

    /// Decides, for the result `derived` of deriving the address of `seeds`,
    /// what has to happen so that `account` is a record of this program at
    /// that address. An account that the program owns already needs nothing;
    /// no request is ever made for an address other than the derived one.
    pub fn init_if_needed_with(
        payer: &Account,
        account: &Account,
        seeds: &[&[u8]],
        derived: &Option<(Pubkey, u8)>,
        space: usize,
        program_id: &Pubkey,
    ) -> (r: Result<Option<CreateAccount>, RWAError>)
        ensures
            is_init_decision(
                r,
                init_if_needed_spec(
                    payer@,
                    account@,
                    seed_bytes(seeds@),
                    *derived,
                    space,
                    *program_id,
                ),
            ),
    {
        match Self::state(account, program_id) {
            RecordState::Initialized => Ok(None),
            RecordState::Uninitialized => match derived {
                Some((address, bump)) => {
                    if !pubkey_eq(address, &account.key) {
                        return Err(RWAError::InvalidAccountData);
                    }
                    Ok(
                        Some(
                            CreateAccount {
                                from: payer.key,
                                to: account.key,
                                space: space as u64,
                                owner: *program_id,
                                signer_seeds: signer_seeds(seeds, *bump),
                            },
                        ),
                    )
                },
                None => Err(RWAError::InvalidAccountData),
            },
        }
    }

    /// Decides what has to happen so that `account` can hold a record of
    /// `space` bytes at the address of the derivation `derived`: as
    /// `init_if_needed_with`, and an account that the program owns already must
    /// have exactly `space` bytes of data.
    pub fn ensure_record(
        payer: &Account,
        account: &Account,
        seeds: &[&[u8]],
        derived: &Option<(Pubkey, u8)>,
        space: usize,
        program_id: &Pubkey,
    ) -> (r: Result<Option<CreateAccount>, RWAError>)
        ensures
            is_init_decision(
                r,
                ensure_record_spec(
                    payer@,
                    account@,
                    seed_bytes(seeds@),
                    *derived,
                    space,
                    *program_id,
                ),
            ),
    {
        if account.is_owned_by(program_id) && account.data.len() != space {
            return Err(RWAError::InvalidAccountData);
        }
        ProgramAccount::init_if_needed_with(payer, account, seeds, derived, space, program_id)
    }

    /// A record is only ever stored where it fits. Whatever `ensure_record`
    /// decides for a record of `space` bytes, the write that follows finds an
    /// account of exactly that size: one that the program owns and that has
    /// `space` bytes already, or one whose creation is asked for first, at the
    /// derived address, with `space` bytes, owned by the program and paid for
    /// by `payer`. An account with content of another size is never written
    /// to and never created anew.
    pub proof fn stored_record_fits(
        payer: AccountView,
        account: AccountView,
        seeds: Seq<Seq<u8>>,
        derived: Option<(Pubkey, u8)>,
        space: usize,
        program_id: Pubkey,
    )
        requires
            ensure_record_spec(payer, account, seeds, derived, space, program_id) is Ok,
        ensures
            match ensure_record_spec(payer, account, seeds, derived, space, program_id) {
                Ok(Some(create)) => record_state(account, program_id) == RecordState::Uninitialized
                    && crate::pda::matches_derived(account.key, derived) && create.to
                    == account.key && create.from == payer.key && create.owner == program_id
                    && create.space == space,
                Ok(None) => record_state(account, program_id) == RecordState::Initialized
                    && account.data.len() == space,
                Err(_) => false,
            },
    {
    }

    /// A second `init_if_needed` on the same account is a no-op: once the host
    /// has carried out what the first call decided, the record is initialized,
    /// and the decision is that nothing is left to do, whoever pays and
    /// whatever is derived.
    pub proof fn init_if_needed_is_idempotent(
        payer: AccountView,
        account: AccountView,
        seeds: Seq<Seq<u8>>,
        derived: Option<(Pubkey, u8)>,
        space: usize,
        program_id: Pubkey,
        after: AccountView,
        later_payer: AccountView,
        later_derived: Option<(Pubkey, u8)>,
    )
        requires
            init_if_needed_spec(payer, account, seeds, derived, space, program_id) matches Ok(
                request,
            ) && carried_out(account, request, after),
        ensures
            record_state(after, program_id) == RecordState::Initialized,
            init_if_needed_spec(later_payer, after, seeds, later_derived, space, program_id) == Ok::<
                Option<CreateAccountView>,
                RWAError,
            >(None),
    {
    }
}

impl<'a> ProgramAccountInit for ProgramAccount<'a> {
    fn init(
        payer: &Account,
        account: &Account,
        seeds: &[&[u8]],
        space: usize,
        program_id: &Pubkey,
    ) -> (r: CreateAccount)
        ensures
            r@ == create_request(payer.key, account.key, seed_bytes(seeds@), space, *program_id),
    {
        CreateAccount {
            from: payer.key,
            to: account.key,
            space: space as u64,
            owner: *program_id,
            signer_seeds: crate::pda::owned_seeds(seeds),
        }
    }

    fn init_if_needed(
        payer: &Account,
        account: &Account,
        seeds: &[&[u8]],
        space: usize,
        program_id: &Pubkey,
    ) -> (r: Result<Option<CreateAccount>, RWAError>)
        ensures
            is_init_decision(
                r,
                init_if_needed_spec(
                    payer@,
                    account@,
                    seed_bytes(seeds@),
                    derived_address(seed_bytes(seeds@), *program_id),
                    space,
                    *program_id,
                ),
            ),
    {
        let derived = find_program_address(seeds, program_id);
        ProgramAccount::init_if_needed_with(payer, account, seeds, &derived, space, program_id)
    }
}

/// What closing `account` into `destination` leaves behind: the two accounts
/// as they were, with `InvalidAccountData`, where the two balances together
/// do not fit in a `u64`; else the account with no balance and zeroed data of
/// the same length, and the destination with both balances.
pub open spec fn close_spec(account: AccountView, destination: AccountView) -> (
    Result<(), RWAError>,
    AccountView,
    AccountView,
) {
    if account.lamports + destination.lamports > u64::MAX {
        (Err(RWAError::InvalidAccountData), account, destination)
    } else {
        (
            Ok(()),
            AccountView { lamports: 0, data: zeros(account.data.len()), ..account },
            AccountView {
                lamports: (account.lamports + destination.lamports) as u64,
                ..destination
            },
        )
    }
}

/// The closing of the program's records.
pub trait AccountClose {
    /// Moves the whole balance of `account` to `destination` and zeroes the
    /// account's data, or fails and changes neither account.
    fn close(account: &mut Account, destination: &mut Account) -> Result<(), RWAError>;
}

impl<'a> AccountClose for ProgramAccount<'a> {
    /// Any two balances are taken. Where their sum does not fit in a `u64`,
    /// nothing is moved and nothing is zeroed.
    fn close(account: &mut Account, destination: &mut Account) -> (r: Result<(), RWAError>)
        ensures
            (r, final(account)@, final(destination)@) == close_spec(
                old(account)@,
                old(destination)@,
            ),
            r is Ok <==> old(account).lamports + old(destination).lamports <= u64::MAX,
    {
        let lamports = account.lamports;
        if lamports > u64::MAX - destination.lamports {
            return Err(RWAError::InvalidAccountData);
        }
        destination.lamports = destination.lamports + lamports;
        account.lamports = 0;
        let n = account.data.len();
        let mut i: usize = 0;
        while i < n
            invariant
                i <= n,
                n == account.data@.len(),
                account.lamports == 0,
                account.key == old(account).key,
                account.owner == old(account).owner,
                account.is_signer == old(account).is_signer,
                account.is_writable == old(account).is_writable,
                forall|j: int| 0 <= j < i ==> account.data@[j] == 0u8,
            decreases n - i,
        {
            account.data[i] = 0;
            i += 1;
        }
        assert(account.data@ =~= zeros(old(account).data@.len()));
        Ok(())
    }
}

} // verus!
