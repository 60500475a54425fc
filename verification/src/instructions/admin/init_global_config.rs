//! The initialisation of the singleton global configuration.

use crate::account::pubkey_eq;
use crate::account::Account;
use crate::account::Pubkey;
use crate::action::actions_view;
use crate::action::is_plan;
use crate::action::Action;
use crate::action::ActionView;
use crate::errors::RWAError;
use crate::instructions::InitGlobalConfig;
use crate::instructions::ZeroCopyTryFrom;
use crate::pda::derived_address;
use crate::pda::expect_address;
use crate::pda::expect_derived;
use crate::pda::find_program_address;
use crate::pda::seed_bytes;
use crate::pda::GLOBAL_CONFIG_SEED;
use crate::states::DataLen;
use crate::states::GlobalConfig;
use crate::states::Record;
use crate::utils::helper::ensure_record_spec;
use crate::utils::helper::record_state;
use crate::utils::helper::RecordState;
use crate::utils::helper::write_actions;
use crate::utils::helper::write_record;
use crate::utils::load_spec;
use crate::utils::ProgramAccount;
use crate::utils::SignerAccount;
use vstd::prelude::*;
use vstd::string::StringSliceAdditionalSpecFns;

verus! {

/// The accounts of the initialisation of the global configuration, in the
/// order in which the transaction lists them.
pub struct GlobalConfigAccounts<'a> {
    /// Who may change the configuration; signs and pays.
    pub config_authority: &'a Account,
    /// Who may approve creators' identity records; signs.
    pub kyc_authority: &'a Account,
    /// The account of the configuration record.
    pub global_config: &'a Account,
}

/// The seeds of the global configuration record.
pub open spec fn global_config_seeds() -> Seq<Seq<u8>> {
    seq![GLOBAL_CONFIG_SEED.spec_bytes()]
}

impl<'a> GlobalConfigAccounts<'a> {
    /// What validated accounts are: both authorities signed.
    pub open spec fn wf(&self) -> bool {
        self.config_authority.is_signer && self.kyc_authority.is_signer
    }

    /// What the validation of an account list returns: `NotEnoughAccountKeys`
    /// unless the list has exactly three accounts; then `NotSigner` unless
    /// the first two signed.
    pub open spec fn try_from_spec(infos: Seq<Account>) -> Result<(), RWAError> {
        if infos.len() != 3 {
            Err(RWAError::NotEnoughAccountKeys)
        } else if !infos[0].is_signer {
            Err(RWAError::NotSigner)
        } else if !infos[1].is_signer {
            Err(RWAError::NotSigner)
        } else {
            Ok(())
        }
    }

    /// Takes the accounts from the list by their positions and checks the
    /// role of each. The length of the list is checked before anything else.
    pub fn try_from(infos: &'a [Account]) -> (r: Result<GlobalConfigAccounts<'a>, RWAError>)
        ensures
            match r {
                Ok(accounts) => Self::try_from_spec(infos@) is Ok && accounts.wf()
                    && *accounts.config_authority
                    == infos@[0] && *accounts.kyc_authority == infos@[1]
                    && *accounts.global_config == infos@[2],
                Err(e) => Self::try_from_spec(infos@) == Err::<(), RWAError>(e),
            },
    {
        if infos.len() != 3 {
            return Err(RWAError::NotEnoughAccountKeys);
        }
        let config_authority = match SignerAccount::try_from(&infos[0]) {
            Ok(token) => token,
            Err(e) => { return Err(e); },
        };
        let kyc_authority = match SignerAccount::try_from(&infos[1]) {
            Ok(token) => token,
            Err(e) => { return Err(e); },
        };
        Ok(
            GlobalConfigAccounts {
                config_authority: config_authority.account,
                kyc_authority: kyc_authority.account,
                global_config: &infos[2],
            },
        )
    }
}

/// The initialisation of the global configuration: its accounts and its
/// operand.
pub struct InitGlobalConfigInstruction<'a> {
    pub accounts: GlobalConfigAccounts<'a>,
    pub instruction_datas: InitGlobalConfig,
}

impl<'a> InitGlobalConfigInstruction<'a> {
    /// The discriminator byte of the operation.
    pub const DISCRIMINATOR: u8 = 0;

    /// What reading the instruction returns: the failure of the account
    /// validation, if that fails; else the operand that the payload holds, or
    /// `InvalidInstructionData` where the payload does not have the operand's
    /// exact length.
    pub open spec fn try_from_spec(data: Seq<u8>, infos: Seq<Account>) -> Result<
        InitGlobalConfig,
        RWAError,
    > {
        match GlobalConfigAccounts::try_from_spec(infos) {
            Err(e) => Err(e),
            Ok(_) => load_spec::<InitGlobalConfig>(data, RWAError::InvalidInstructionData),
        }
    }

    /// Validates the accounts, then reads the operand.
    pub fn try_from(data: &[u8], accounts: &'a [Account]) -> (r: Result<
        InitGlobalConfigInstruction<'a>,
        RWAError,
    >)
        ensures
            match r {
                Ok(ix) => Self::try_from_spec(data@, accounts@) == Ok::<InitGlobalConfig, RWAError>(
                    ix.instruction_datas,
                ) && ix.accounts.wf() && *ix.accounts.config_authority == accounts@[0]
                    && *ix.accounts.kyc_authority
                    == accounts@[1] && *ix.accounts.global_config == accounts@[2],
                Err(e) => Self::try_from_spec(data@, accounts@) == Err::<InitGlobalConfig, RWAError>(
                    e,
                ),
            },
    {
        let accounts = match GlobalConfigAccounts::try_from(accounts) {
            Ok(accounts) => accounts,
            Err(e) => { return Err(e); },
        };
        let instruction_datas = match InitGlobalConfig::try_from_bytes(data) {
            Ok(operand) => operand,
            Err(e) => { return Err(e); },
        };
        Ok(InitGlobalConfigInstruction { accounts, instruction_datas })
    }

    /// A list that does not have exactly three accounts is rejected with
    /// `NotEnoughAccountKeys` before anything else is looked at: whatever the
    /// accounts are and whatever the payload holds.
    pub proof fn wrong_account_count_fails_first(data: Seq<u8>, infos: Seq<Account>)
        requires
            infos.len() != 3,
        ensures
            Self::try_from_spec(data, infos) == Err::<InitGlobalConfig, RWAError>(
                RWAError::NotEnoughAccountKeys,
            ),
    {
    }

    /// With valid accounts, a payload whose length is not exactly that of the
    /// operand is rejected with `InvalidInstructionData`, and a payload of
    /// that length is read.
    pub proof fn payload_length_decides(data: Seq<u8>, infos: Seq<Account>)
        requires
            GlobalConfigAccounts::try_from_spec(infos) is Ok,
        ensures
            data.len() != InitGlobalConfig::spec_len() ==> Self::try_from_spec(data, infos) == Err::<
                InitGlobalConfig,
                RWAError,
            >(RWAError::InvalidInstructionData),
            data.len() == InitGlobalConfig::spec_len() ==> Self::try_from_spec(data, infos) == Ok::<
                InitGlobalConfig,
                RWAError,
            >(InitGlobalConfig::decode(data)),
    {
    }

    /// The record that the operation stores.
    pub open spec fn record(&self, bump: u8) -> GlobalConfig {
        GlobalConfig {
            config_authority: self.accounts.config_authority.key,
            kyc_authority: self.accounts.kyc_authority.key,
            active: self.instruction_datas.active,
            open_time: self.instruction_datas.open_time,
            max_decimal: self.instruction_datas.max_decimal,
            fees_bps: self.instruction_datas.fees_bps,
            bump,
        }
    }

    /// Tells whether the operation may write the record: no record exists
    /// yet, or the configuration authority that the existing record names is
    /// the account that signed as configuration authority.
    pub open spec fn may_write(&self, program_id: Pubkey) -> bool {
        record_state(self.accounts.global_config@, program_id) == RecordState::Uninitialized || (
        self.accounts.config_authority.is_signer && GlobalConfig::decode(
            self.accounts.global_config.data@,
        ).config_authority == self.accounts.config_authority.key)
    }

    /// What the operation decides, for the result `derived` of deriving the
    /// address of the global configuration.
    ///
    /// - `InvalidAccountData` where the configuration account does not stand
    ///   at the derived address, or where the program owns it already and its
    ///   data does not have the length of the record.
    /// - Nothing at all where a record exists and names another configuration
    ///   authority than the one that signed: the record is created once, and
    ///   after that only its own authority changes it. Such a call succeeds
    ///   and asks nothing of the host, as a second `init_if_needed` does.
    /// - Else the requests that create the record, paid for by the
    ///   configuration authority, where the program does not own it yet, and
    ///   write it with the derived bump seed.
    pub open spec fn process_spec(
        &self,
        derived: Option<(Pubkey, u8)>,
        program_id: Pubkey,
    ) -> Result<Seq<ActionView>, RWAError> {
        match expect_derived(self.accounts.global_config.key, derived, RWAError::InvalidAccountData) {
            Err(e) => Err(e),
            Ok(bump) => match ensure_record_spec(
                self.accounts.config_authority@,
                self.accounts.global_config@,
                global_config_seeds(),
                derived,
                GlobalConfig::spec_len(),
                program_id,
            ) {
                Err(e) => Err(e),
                Ok(create) => if self.may_write(program_id) {
                    Ok(
                        write_actions(
                            create,
                            self.accounts.global_config.key,
                            self.record(bump).encode(),
                        ),
                    )
                } else {
                    Ok(Seq::empty())
                },
            },
        }
    }

    /// A stranger cannot take the configuration over. Where a record exists
    /// and names another configuration authority than the account given as
    /// one, no outcome of the operation holds a request: nothing is created
    /// and no byte of the record is written. Where the record stands at the
    /// derived address with the record's length, the operation succeeds with
    /// no request.
    pub proof fn existing_record_is_left_to_its_authority(
        &self,
        derived: Option<(Pubkey, u8)>,
        program_id: Pubkey,
    )
        requires
            self.accounts.global_config.owner == program_id,
            GlobalConfig::decode(self.accounts.global_config.data@).config_authority
                != self.accounts.config_authority.key,
        ensures
            self.process_spec(derived, program_id) matches Ok(actions) ==> actions.len() == 0,
            crate::pda::matches_derived(self.accounts.global_config.key, derived)
                && self.accounts.global_config.data@.len() == GlobalConfig::spec_len()
                ==> self.process_spec(derived, program_id) == Ok::<Seq<ActionView>, RWAError>(
                Seq::empty(),
            ),
    {
    }

    /// The record is written in two cases only. Whenever the operation asks
    /// anything of the host, its last request writes the record to the
    /// configuration account, with the signer as configuration authority; and
    /// either no record existed, and its creation is asked for first, or the
    /// existing record names that same authority.
    pub proof fn record_is_written_by_its_authority(
        &self,
        derived: Option<(Pubkey, u8)>,
        program_id: Pubkey,
    )
        ensures
            match self.process_spec(derived, program_id) {
                Ok(actions) => actions.len() > 0 ==> (actions.last() matches ActionView::WriteData(
                    write,
                ) && write.account == self.accounts.global_config.key && write.data.len()
                    == GlobalConfig::spec_len() && GlobalConfig::decode(
                    write.data,
                ).config_authority == self.accounts.config_authority.key) && (
                if self.accounts.global_config.owner == program_id {
                    actions.len() == 1 && self.accounts.config_authority.is_signer
                        && GlobalConfig::decode(
                        self.accounts.global_config.data@,
                    ).config_authority == self.accounts.config_authority.key
                } else {
                    actions.len() == 2 && actions[0] is CreateAccount
                }),
                Err(_) => true,
            },
    {
        if let Ok(bump) = expect_derived(
            self.accounts.global_config.key,
            derived,
            RWAError::InvalidAccountData,
        ) {
            self.record(bump).lemma_encode_len();
            self.record(bump).lemma_decode_encode();
        }
    }

    /// What the operation decides on a payload and an account list: the
    /// failure of reading the instruction, if that fails; else what the
    /// instruction read decides for the address derived for `program_id`.
    pub open spec fn run_spec(data: Seq<u8>, infos: Seq<Account>, program_id: Pubkey) -> Result<
        Seq<ActionView>,
        RWAError,
    > {
        match Self::try_from_spec(data, infos) {
            Err(e) => Err(e),
            Ok(operand) => (InitGlobalConfigInstruction {
                accounts: GlobalConfigAccounts {
                    config_authority: &infos[0],
                    kyc_authority: &infos[1],
                    global_config: &infos[2],
                },
                instruction_datas: operand,
            }).process_spec(derived_address(global_config_seeds(), program_id), program_id),
        }
    }

    /// Decides the operation for the result `derived` of deriving the address
    /// of the global configuration.
    pub fn process_with(&self, derived: &Option<(Pubkey, u8)>, program_id: &Pubkey) -> (r: Result<
        Vec<Action>,
        RWAError,
    >)
        ensures
            is_plan(r, self.process_spec(*derived, *program_id)),
    {
        let global_config = self.accounts.global_config;
        let bump = match expect_address(&global_config.key, derived, RWAError::InvalidAccountData) {
            Ok(bump) => bump,
            Err(e) => { return Err(e); },
        };
        let tag: &[u8] = GLOBAL_CONFIG_SEED.as_bytes();
        let seeds: [&[u8]; 1] = [tag];
        assert(seed_bytes(seeds@) =~= global_config_seeds());
        proof {
            GlobalConfig::lemma_len();
        }
        let create = match ProgramAccount::ensure_record(
            self.accounts.config_authority,
            global_config,
            seeds.as_slice(),
            derived,
            GlobalConfig::LEN,
            program_id,
        ) {
            Ok(create) => create,
            Err(e) => { return Err(e); },
        };
        match ProgramAccount::state(global_config, program_id) {
            RecordState::Uninitialized => {},
            RecordState::Initialized => {
                let stored = GlobalConfig::from_bytes(global_config.data.as_slice());
                let authority = self.accounts.config_authority;
                if !authority.is_signer || !pubkey_eq(&stored.config_authority, &authority.key) {
                    let nothing: Vec<Action> = Vec::new();
                    assert(actions_view(nothing@) =~= Seq::<ActionView>::empty());
                    return Ok(nothing);
                }
            },
        }
        let record = GlobalConfig {
            config_authority: self.accounts.config_authority.key,
            kyc_authority: self.accounts.kyc_authority.key,
            active: self.instruction_datas.active,
            open_time: self.instruction_datas.open_time,
            max_decimal: self.instruction_datas.max_decimal,
            fees_bps: self.instruction_datas.fees_bps,
            bump,
        };
        Ok(write_record(create, &global_config.key, record.to_bytes()))
    }

    /// Derives the address of the global configuration for `program_id` and
    /// decides the operation.
    pub fn process(&self, program_id: &Pubkey) -> (r: Result<Vec<Action>, RWAError>)
        ensures
            is_plan(
                r,
                self.process_spec(derived_address(global_config_seeds(), *program_id), *program_id),
            ),
    {
        let tag: &[u8] = GLOBAL_CONFIG_SEED.as_bytes();
        let seeds: [&[u8]; 1] = [tag];
        assert(seed_bytes(seeds@) =~= global_config_seeds());
        let derived = find_program_address(seeds.as_slice(), program_id);
        self.process_with(&derived, program_id)
    }
}

} // verus!
