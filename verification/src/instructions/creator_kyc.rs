//! The registration of a creator's identity.

use crate::account::Account;
use crate::account::Pubkey;
use crate::action::actions_view;
use crate::action::is_plan;
use crate::action::Action;
use crate::action::ActionView;
use crate::errors::RWAError;
use crate::instructions::CreatorKYC;
use crate::instructions::ZeroCopyTryFrom;
use crate::pda::derived_address;
use crate::pda::expect_address;
use crate::pda::expect_derived;
use crate::pda::find_program_address;
use crate::pda::seed_bytes;
use crate::pda::CREATOR_KYC_SEED;
use crate::states::DataLen;
use crate::states::Record;
use crate::utils::helper::ensure_record_spec;
use crate::utils::helper::record_state;
use crate::utils::helper::RecordState;
use crate::utils::helper::write_actions;
use crate::utils::helper::write_record;
use crate::utils::load_spec;
use crate::utils::ProgramAccount;
use crate::utils::SignerAccount;
use vstd::prelude::*;
use vstd::string::StringSliceAdditionalSpecFns;

verus! {

/// The accounts of a creator's registration, in the order in which the
/// transaction lists them.
pub struct CreatorKYCAccount<'a> {
    /// The creator's wallet; signs and pays.
    pub signer: &'a Account,
    /// The account of the creator's identity record.
    pub creator_kyc: &'a Account,
}

/// The seeds of the identity record of the creator with the wallet `wallet`.
pub open spec fn creator_kyc_seeds(wallet: Pubkey) -> Seq<Seq<u8>> {
    seq![CREATOR_KYC_SEED.spec_bytes(), wallet@]
}

impl<'a> CreatorKYCAccount<'a> {
    /// What validated accounts are: the wallet signed.
    pub open spec fn wf(&self) -> bool {
        self.signer.is_signer
    }

    /// What the validation of an account list returns: `NotEnoughAccountKeys`
    /// unless the list has exactly two accounts; then `NotSigner` unless the
    /// wallet signed.
    pub open spec fn try_from_spec(infos: Seq<Account>) -> Result<(), RWAError> {
        if infos.len() != 2 {
            Err(RWAError::NotEnoughAccountKeys)
        } else if !infos[0].is_signer {
            Err(RWAError::NotSigner)
        } else {
            Ok(())
        }
    }

    /// Takes the accounts from the list by their positions and checks the
    /// role of each. The length of the list is checked before anything else.
    pub fn try_from(infos: &'a [Account]) -> (r: Result<CreatorKYCAccount<'a>, RWAError>)
        ensures
            match r {
                Ok(accounts) => Self::try_from_spec(infos@) is Ok && accounts.wf()
                    && *accounts.signer == infos@[0]
                    && *accounts.creator_kyc == infos@[1],
                Err(e) => Self::try_from_spec(infos@) == Err::<(), RWAError>(e),
            },
    {
        if infos.len() != 2 {
            return Err(RWAError::NotEnoughAccountKeys);
        }
        let signer = match SignerAccount::try_from(&infos[0]) {
            Ok(token) => token,
            Err(e) => { return Err(e); },
        };
        Ok(CreatorKYCAccount { signer: signer.account, creator_kyc: &infos[1] })
    }
}

/// A creator's registration: its accounts and its operand.
pub struct CreatorKYCInstruction<'a> {
    pub accounts: CreatorKYCAccount<'a>,
    pub instruction_datas: CreatorKYC,
}

impl<'a> CreatorKYCInstruction<'a> {
    /// The discriminator byte of the operation.
    pub const DISCRIMINATOR: u8 = 2;

    /// What reading the instruction returns: the failure of the account
    /// validation, if that fails; else the operand that the payload holds, or
    /// `InvalidInstructionData` where the payload does not have the operand's
    /// exact length.
    pub open spec fn try_from_spec(data: Seq<u8>, infos: Seq<Account>) -> Result<
        CreatorKYC,
        RWAError,
    > {
        match CreatorKYCAccount::try_from_spec(infos) {
            Err(e) => Err(e),
            Ok(_) => load_spec::<CreatorKYC>(data, RWAError::InvalidInstructionData),
        }
    }

    /// Validates the accounts, then reads the operand.
    pub fn try_from(data: &[u8], accounts: &'a [Account]) -> (r: Result<
        CreatorKYCInstruction<'a>,
        RWAError,
    >)
        ensures
            match r {
                Ok(ix) => Self::try_from_spec(data@, accounts@) == Ok::<CreatorKYC, RWAError>(
                    ix.instruction_datas,
                ) && ix.accounts.wf() && *ix.accounts.signer == accounts@[0]
                    && *ix.accounts.creator_kyc
                    == accounts@[1],
                Err(e) => Self::try_from_spec(data@, accounts@) == Err::<CreatorKYC, RWAError>(e),
            },
    {
        let accounts = match CreatorKYCAccount::try_from(accounts) {
            Ok(accounts) => accounts,
            Err(e) => { return Err(e); },
        };
        let instruction_datas = match CreatorKYC::try_from_bytes(data) {
            Ok(operand) => operand,
            Err(e) => { return Err(e); },
        };
        Ok(CreatorKYCInstruction { accounts, instruction_datas })
    }

    /// A list that does not have exactly two accounts is rejected with
    /// `NotEnoughAccountKeys` before anything else is looked at: whatever the
    /// accounts are and whatever the payload holds.
    pub proof fn wrong_account_count_fails_first(data: Seq<u8>, infos: Seq<Account>)
        requires
            infos.len() != 2,
        ensures
            Self::try_from_spec(data, infos) == Err::<CreatorKYC, RWAError>(
                RWAError::NotEnoughAccountKeys,
            ),
    {
    }

    /// A registration whose wallet account did not sign is rejected with
    /// `NotSigner`, whatever the payload holds.
    pub proof fn unsigned_wallet_is_rejected(data: Seq<u8>, infos: Seq<Account>)
        requires
            infos.len() == 2,
            !infos[0].is_signer,
        ensures
            Self::try_from_spec(data, infos) == Err::<CreatorKYC, RWAError>(RWAError::NotSigner),
    {
    }

    /// With valid accounts, a payload whose length is not exactly that of the
    /// operand is rejected with `InvalidInstructionData`, and a payload of
    /// that length is read.
    pub proof fn payload_length_decides(data: Seq<u8>, infos: Seq<Account>)
        requires
            CreatorKYCAccount::try_from_spec(infos) is Ok,
        ensures
            data.len() != CreatorKYC::spec_len() ==> Self::try_from_spec(data, infos) == Err::<
                CreatorKYC,
                RWAError,
            >(RWAError::InvalidInstructionData),
            data.len() == CreatorKYC::spec_len() ==> Self::try_from_spec(data, infos) == Ok::<
                CreatorKYC,
                RWAError,
            >(CreatorKYC::decode(data)),
    {
    }

    /// The record that the operation stores: the name and address that the
    /// creator gave, the signer's wallet, and no approval yet.
    pub open spec fn record(&self, bump: u8) -> crate::states::CreatorKYC {
        crate::states::CreatorKYC {
            name: self.instruction_datas.name,
            email_id: self.instruction_datas.email,
            wallet: self.accounts.signer.key,
            verified: false,
            bump,
        }
    }

    /// What the operation decides, for the result `derived` of deriving the
    /// address of the identity record from the signer's wallet.
    ///
    /// - `InvalidAccountData` where the record's account does not stand at the
    ///   derived address, or where the program owns it already and its data
    ///   does not have the length of the record.
    /// - Nothing at all where the record exists: a creator registers once, and
    ///   after that only the KYC authority changes the record. Such a call
    ///   succeeds and asks nothing of the host, as a second `init_if_needed`
    ///   does.
    /// - Else the requests that create the record, paid for by the signer,
    ///   and write it, not approved.
    pub open spec fn process_spec(
        &self,
        derived: Option<(Pubkey, u8)>,
        program_id: Pubkey,
    ) -> Result<Seq<ActionView>, RWAError> {
        match expect_derived(self.accounts.creator_kyc.key, derived, RWAError::InvalidAccountData) {
            Err(e) => Err(e),
            Ok(bump) => match ensure_record_spec(
                self.accounts.signer@,
                self.accounts.creator_kyc@,
                creator_kyc_seeds(self.accounts.signer.key),
                derived,
                crate::states::CreatorKYC::spec_len(),
                program_id,
            ) {
                Err(e) => Err(e),
                Ok(create) => match record_state(self.accounts.creator_kyc@, program_id) {
                    RecordState::Initialized => Ok(Seq::empty()),
                    RecordState::Uninitialized => Ok(
                        write_actions(
                            create,
                            self.accounts.creator_kyc.key,
                            self.record(bump).encode(),
                        ),
                    ),
                },
            },
        }
    }

    /// A registration succeeds where the record's account stands at the
    /// derived address and is either not owned by the program yet or has the
    /// length of the record. Where no record exists, it asks for the creation
    /// of the account and then writes a record of the signer's wallet that is
    /// not approved.
    pub proof fn registration_is_unverified(
        &self,
        derived: Option<(Pubkey, u8)>,
        program_id: Pubkey,
    )
        ensures
            crate::pda::matches_derived(self.accounts.creator_kyc.key, derived) && (
            self.accounts.creator_kyc.owner != program_id || self.accounts.creator_kyc.data@.len()
                == crate::states::CreatorKYC::spec_len()) ==> self.process_spec(derived, program_id) is Ok,
            self.process_spec(derived, program_id) matches Ok(actions)
                ==> self.accounts.creator_kyc.owner != program_id ==> actions.len() == 2
                && actions[0] is CreateAccount && (actions[1] matches ActionView::WriteData(write)
                && write.account == self.accounts.creator_kyc.key && write.data.len()
                == crate::states::CreatorKYC::spec_len() && !crate::states::CreatorKYC::decode(
                write.data,
            ).verified && crate::states::CreatorKYC::decode(write.data).wallet
                == self.accounts.signer.key),
    {
        if let Ok(bump) = expect_derived(
            self.accounts.creator_kyc.key,
            derived,
            RWAError::InvalidAccountData,
        ) {
            self.record(bump).lemma_encode_len();
            self.record(bump).lemma_decode_encode();
        }
    }

    /// A record that exists is never written by a registration: where the
    /// program owns the record's account, no outcome of the operation holds a
    /// request, whoever signs and whatever the payload holds. An approval that
    /// the KYC authority gave stays as it is.
    pub proof fn existing_record_is_left_alone(
        &self,
        derived: Option<(Pubkey, u8)>,
        program_id: Pubkey,
    )
        requires
            self.accounts.creator_kyc.owner == program_id,
        ensures
            self.process_spec(derived, program_id) matches Ok(actions) ==> actions.len() == 0,
            crate::pda::matches_derived(self.accounts.creator_kyc.key, derived)
                && self.accounts.creator_kyc.data@.len() == crate::states::CreatorKYC::spec_len()
                ==> self.process_spec(derived, program_id) == Ok::<Seq<ActionView>, RWAError>(
                Seq::empty(),
            ),
    {
    }

    /// What the operation decides on a payload and an account list: the
    /// failure of reading the instruction, if that fails; else what the
    /// instruction read decides for the address derived for `program_id`.
    pub open spec fn run_spec(data: Seq<u8>, infos: Seq<Account>, program_id: Pubkey) -> Result<
        Seq<ActionView>,
        RWAError,
    > {
        match Self::try_from_spec(data, infos) {
            Err(e) => Err(e),
            Ok(operand) => (CreatorKYCInstruction {
                accounts: CreatorKYCAccount { signer: &infos[0], creator_kyc: &infos[1] },
                instruction_datas: operand,
            }).process_spec(
                derived_address(creator_kyc_seeds(infos[0].key), program_id),
                program_id,
            ),
        }
    }

    /// Decides the operation for the result `derived` of deriving the address
    /// of the identity record from the signer's wallet.
    pub fn process_with(&self, derived: &Option<(Pubkey, u8)>, program_id: &Pubkey) -> (r: Result<
        Vec<Action>,
        RWAError,
    >)
        ensures
            is_plan(r, self.process_spec(*derived, *program_id)),
    {
        let creator_kyc = self.accounts.creator_kyc;
        let bump = match expect_address(&creator_kyc.key, derived, RWAError::InvalidAccountData) {
            Ok(bump) => bump,
            Err(e) => { return Err(e); },
        };
        let tag: &[u8] = CREATOR_KYC_SEED.as_bytes();
        let seeds: [&[u8]; 2] = [tag, self.accounts.signer.key.as_slice()];
        assert(seed_bytes(seeds@) =~= creator_kyc_seeds(self.accounts.signer.key));
        proof {
            crate::states::CreatorKYC::lemma_len();
        }
        let create = match ProgramAccount::ensure_record(
            self.accounts.signer,
            creator_kyc,
            seeds.as_slice(),
            derived,
            crate::states::CreatorKYC::LEN,
            program_id,
        ) {
            Ok(create) => create,
            Err(e) => { return Err(e); },
        };
        match ProgramAccount::state(creator_kyc, program_id) {
            RecordState::Uninitialized => {},
            RecordState::Initialized => {
                let nothing: Vec<Action> = Vec::new();
                assert(actions_view(nothing@) =~= Seq::<ActionView>::empty());
                return Ok(nothing);
            },
        }
        let record = crate::states::CreatorKYC {
            name: self.instruction_datas.name,
            email_id: self.instruction_datas.email,
            wallet: self.accounts.signer.key,
            verified: false,
            bump,
        };
        Ok(write_record(create, &creator_kyc.key, record.to_bytes()))
    }

    /// Derives the address of the identity record from the signer's wallet
    /// and decides the operation.
    pub fn process(&self, program_id: &Pubkey) -> (r: Result<Vec<Action>, RWAError>)
        ensures
            is_plan(
                r,
                self.process_spec(
                    derived_address(creator_kyc_seeds(self.accounts.signer.key), *program_id),
                    *program_id,
                ),
            ),
    {
        let tag: &[u8] = CREATOR_KYC_SEED.as_bytes();
        let seeds: [&[u8]; 2] = [tag, self.accounts.signer.key.as_slice()];
        assert(seed_bytes(seeds@) =~= creator_kyc_seeds(self.accounts.signer.key));
        let derived = find_program_address(seeds.as_slice(), program_id);
        self.process_with(&derived, program_id)
    }
}

} // verus!
