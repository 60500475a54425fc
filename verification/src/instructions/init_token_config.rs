//! The initialisation of a token's configuration.

use crate::account::Account;
use crate::account::Pubkey;
use crate::action::is_plan;
use crate::action::Action;
use crate::action::ActionView;
use crate::errors::RWAError;
use crate::instructions::admin::init_global_config::global_config_seeds;
use crate::instructions::creator_kyc::creator_kyc_seeds;
use crate::instructions::InitTokenConfig;
use crate::instructions::ZeroCopyTryFrom;
use crate::pda::derived_address;
use crate::pda::expect_address;
use crate::pda::expect_derived;
use crate::pda::find_program_address;
use crate::pda::seed_bytes;
use crate::pda::CREATOR_KYC_SEED;
use crate::pda::GLOBAL_CONFIG_SEED;
use crate::pda::TOKEN_CONFIG_SEED;
use crate::states::CreatorKYC;
use crate::states::DataLen;
use crate::states::GlobalConfig;
use crate::states::Record;
use crate::states::TokenConfig;
use crate::utils::helper::ensure_record_spec;
use crate::utils::helper::write_actions;
use crate::utils::helper::write_record;
use crate::utils::load_acc;
use crate::utils::load_spec;
use crate::utils::ProgramAccount;
use crate::utils::SignerAccount;
use vstd::prelude::*;
use vstd::string::StringSliceAdditionalSpecFns;

verus! {

/// The accounts of the initialisation of a token's configuration, in the
/// order in which the transaction lists them.
pub struct TokenConfigAccounts<'a> {
    /// The creator of the token; signs and pays.
    pub signer: &'a Account,
    /// The global configuration record.
    pub global_config: &'a Account,
    /// The creator's identity record.
    pub creator_kyc: &'a Account,
    /// The account of the token's configuration record.
    pub token_config: &'a Account,
}

/// The seeds of the configuration record of the token of `creator`.
pub open spec fn token_config_seeds(creator: Pubkey) -> Seq<Seq<u8>> {
    seq![TOKEN_CONFIG_SEED.spec_bytes(), creator@]
}

/// The three derivations that the operation compares supplied addresses
/// with.
pub struct TokenConfigDerivations {
    /// Of the token's configuration record, from the creator's address.
    pub token_config: Option<(Pubkey, u8)>,
    /// Of the global configuration record.
    pub global_config: Option<(Pubkey, u8)>,
    /// Of the creator's identity record, from the creator's address.
    pub creator_kyc: Option<(Pubkey, u8)>,
}

impl<'a> TokenConfigAccounts<'a> {
    /// What validated accounts are: the creator signed, and the program
    /// `program_id` owns the two records that the operation reads.
    pub open spec fn wf(&self, program_id: Pubkey) -> bool {
        self.signer.is_signer && self.global_config.owner == program_id
            && self.creator_kyc.owner == program_id
    }

    /// What the validation of an account list returns:
    /// `NotEnoughAccountKeys` unless the list has exactly four accounts; then
    /// `NotSigner` unless the creator signed; then `InvalidOwner` unless this
    /// program owns the global configuration and the identity record.
    pub open spec fn try_from_spec(infos: Seq<Account>, program_id: Pubkey) -> Result<
        (),
        RWAError,
    > {
        if infos.len() != 4 {
            Err(RWAError::NotEnoughAccountKeys)
        } else if !infos[0].is_signer {
            Err(RWAError::NotSigner)
        } else if infos[1].owner != program_id {
            Err(RWAError::InvalidOwner)
        } else if infos[2].owner != program_id {
            Err(RWAError::InvalidOwner)
        } else {
            Ok(())
        }
    }

    /// Takes the accounts from the list by their positions and checks the
    /// role of each. The length of the list is checked before anything else.
    pub fn try_from(infos: &'a [Account], program_id: &Pubkey) -> (r: Result<
        TokenConfigAccounts<'a>,
        RWAError,
    >)
        ensures
            match r {
                Ok(accounts) => Self::try_from_spec(infos@, *program_id) is Ok && accounts.wf(
                    *program_id,
                ) && *accounts.signer
                    == infos@[0] && *accounts.global_config == infos@[1] && *accounts.creator_kyc
                    == infos@[2] && *accounts.token_config == infos@[3],
                Err(e) => Self::try_from_spec(infos@, *program_id) == Err::<(), RWAError>(e),
            },
    {
        if infos.len() != 4 {
            return Err(RWAError::NotEnoughAccountKeys);
        }
        let signer = match SignerAccount::try_from(&infos[0]) {
            Ok(token) => token,
            Err(e) => { return Err(e); },
        };
        let global_config = match ProgramAccount::try_from(&infos[1], program_id) {
            Ok(token) => token,
            Err(e) => { return Err(e); },
        };
        let creator_kyc = match ProgramAccount::try_from(&infos[2], program_id) {
            Ok(token) => token,
            Err(e) => { return Err(e); },
        };
        Ok(
            TokenConfigAccounts {
                signer: signer.account,
                global_config: global_config.account,
                creator_kyc: creator_kyc.account,
                token_config: &infos[3],
            },
        )
    }
}

/// The initialisation of a token's configuration: its accounts and its
/// operand.
pub struct InitTokenConfigInstruction<'a> {
    pub accounts: TokenConfigAccounts<'a>,
    pub instruction_datas: InitTokenConfig,
}

impl<'a> InitTokenConfigInstruction<'a> {
    /// The discriminator byte of the operation.
    pub const DISCRIMINATOR: u8 = 1;

    /// What reading the instruction returns: the failure of the account
    /// validation, if that fails; else the operand that the payload holds, or
    /// `InvalidInstructionData` where the payload does not have the operand's
    /// exact length.
    pub open spec fn try_from_spec(
        data: Seq<u8>,
        infos: Seq<Account>,
        program_id: Pubkey,
    ) -> Result<InitTokenConfig, RWAError> {
        match TokenConfigAccounts::try_from_spec(infos, program_id) {
            Err(e) => Err(e),
            Ok(_) => load_spec::<InitTokenConfig>(data, RWAError::InvalidInstructionData),
        }
    }

    /// Validates the accounts, then reads the operand.
    pub fn try_from(data: &[u8], accounts: &'a [Account], program_id: &Pubkey) -> (r: Result<
        InitTokenConfigInstruction<'a>,
        RWAError,
    >)
        ensures
            match r {
                Ok(ix) => Self::try_from_spec(data@, accounts@, *program_id) == Ok::<
                    InitTokenConfig,
                    RWAError,
                >(ix.instruction_datas) && ix.accounts.wf(*program_id) && *ix.accounts.signer
                    == accounts@[0]
                    && *ix.accounts.global_config == accounts@[1] && *ix.accounts.creator_kyc
                    == accounts@[2] && *ix.accounts.token_config == accounts@[3],
                Err(e) => Self::try_from_spec(data@, accounts@, *program_id) == Err::<
                    InitTokenConfig,
                    RWAError,
                >(e),
            },
    {
        let accounts = match TokenConfigAccounts::try_from(accounts, program_id) {
            Ok(accounts) => accounts,
            Err(e) => { return Err(e); },
        };
        let instruction_datas = match InitTokenConfig::try_from_bytes(data) {
            Ok(operand) => operand,
            Err(e) => { return Err(e); },
        };
        Ok(InitTokenConfigInstruction { accounts, instruction_datas })
    }

    /// A list that does not have exactly four accounts is rejected with
    /// `NotEnoughAccountKeys` before anything else is looked at: whatever the
    /// accounts are and whatever the payload holds.
    pub proof fn wrong_account_count_fails_first(
        data: Seq<u8>,
        infos: Seq<Account>,
        program_id: Pubkey,
    )
        requires
            infos.len() != 4,
        ensures
            Self::try_from_spec(data, infos, program_id) == Err::<InitTokenConfig, RWAError>(
                RWAError::NotEnoughAccountKeys,
            ),
    {
    }

    /// With valid accounts, a payload whose length is not exactly that of the
    /// operand is rejected with `InvalidInstructionData`, and a payload of
    /// that length is read.
    pub proof fn payload_length_decides(data: Seq<u8>, infos: Seq<Account>, program_id: Pubkey)
        requires
            TokenConfigAccounts::try_from_spec(infos, program_id) is Ok,
        ensures
            data.len() != InitTokenConfig::spec_len() ==> Self::try_from_spec(data, infos, program_id)
                == Err::<InitTokenConfig, RWAError>(RWAError::InvalidInstructionData),
            data.len() == InitTokenConfig::spec_len() ==> Self::try_from_spec(data, infos, program_id)
                == Ok::<InitTokenConfig, RWAError>(InitTokenConfig::decode(data)),
    {
    }

    /// The record that the operation stores: what the creator declared, and
    /// not active, whatever the operand asks for.
    pub open spec fn record(&self, bump: u8) -> TokenConfig {
        TokenConfig {
            bump,
            creator: self.instruction_datas.creator,
            mint: self.instruction_datas.mint,
            decimal: self.instruction_datas.decimals,
            description: self.instruction_datas.description,
            asset_type: self.instruction_datas.asset_type,
            audit_cid: self.instruction_datas.audit_cid,
            active: false,
        }
    }

    /// The two records that the operation reads, each at its exact length:
    /// the global configuration and the creator's identity record, or
    /// `InvalidAccountData` where the first, or else the second, does not have
    /// the length of its record. Both are read before any rule is looked at.
    pub open spec fn records_spec(&self) -> Result<(GlobalConfig, CreatorKYC), RWAError> {
        match load_spec::<GlobalConfig>(
            self.accounts.global_config.data@,
            RWAError::InvalidAccountData,
        ) {
            Err(e) => Err(e),
            Ok(global) => match load_spec::<CreatorKYC>(
                self.accounts.creator_kyc.data@,
                RWAError::InvalidAccountData,
            ) {
                Err(e) => Err(e),
                Ok(kyc) => Ok((global, kyc)),
            },
        }
    }

    /// The business rules of the operation: the failure of reading one of the
    /// two records, if one cannot be read; then `InvalidInstructionData` where
    /// the token declares more decimals than the global configuration allows;
    /// then `CreatorNotVerified` where the creator's identity was not
    /// approved.
    pub open spec fn rules_spec(&self) -> Result<(), RWAError> {
        match self.records_spec() {
            Err(e) => Err(e),
            Ok((global, kyc)) => if self.instruction_datas.decimals > global.max_decimal {
                Err(RWAError::InvalidInstructionData)
            } else if !kyc.verified {
                Err(RWAError::CreatorNotVerified)
            } else {
                Ok(())
            },
        }
    }

    /// What the operation decides, for the results of the three derivations.
    ///
    /// - `InvalidAccountData` where the configuration account does not stand
    ///   at the address derived from the creator.
    /// - `PdaMismatch` where the global configuration, or else the identity
    ///   record, does not stand at its derived address.
    /// - `InvalidAccountData` where the program owns the configuration account
    ///   already and its data does not have the length of the record, or
    ///   where the global configuration or the identity record does not have
    ///   the length of its record.
    /// - The failure of a business rule, if one fails: the decimals first,
    ///   then the approval of the creator.
    /// - Else the requests that create the record, paid for by the creator,
    ///   where the program does not own it yet, and write it, not active.
    pub open spec fn process_spec(
        &self,
        derived: TokenConfigDerivations,
        program_id: Pubkey,
    ) -> Result<Seq<ActionView>, RWAError> {
        match expect_derived(
            self.accounts.token_config.key,
            derived.token_config,
            RWAError::InvalidAccountData,
        ) {
            Err(e) => Err(e),
            Ok(bump) => if expect_derived(
                self.accounts.global_config.key,
                derived.global_config,
                RWAError::PdaMismatch,
            ) is Err {
                Err(RWAError::PdaMismatch)
            } else if expect_derived(
                self.accounts.creator_kyc.key,
                derived.creator_kyc,
                RWAError::PdaMismatch,
            ) is Err {
                Err(RWAError::PdaMismatch)
            } else {
                match ensure_record_spec(
                    self.accounts.signer@,
                    self.accounts.token_config@,
                    token_config_seeds(self.accounts.signer.key),
                    derived.token_config,
                    TokenConfig::spec_len(),
                    program_id,
                ) {
                    Err(e) => Err(e),
                    Ok(create) => match self.rules_spec() {
                        Err(e) => Err(e),
                        Ok(_) => Ok(
                            write_actions(
                                create,
                                self.accounts.token_config.key,
                                self.record(bump).encode(),
                            ),
                        ),
                    },
                }
            },
        }
    }

    /// Tells whether every supplied address is the derived one and the
    /// configuration account can hold the record: it is not owned by the
    /// program yet, or has the length of the record.
    pub open spec fn addresses_agree(
        &self,
        derived: TokenConfigDerivations,
        program_id: Pubkey,
    ) -> bool {
        &&& crate::pda::matches_derived(self.accounts.token_config.key, derived.token_config)
        &&& crate::pda::matches_derived(self.accounts.global_config.key, derived.global_config)
        &&& crate::pda::matches_derived(self.accounts.creator_kyc.key, derived.creator_kyc)
        &&& (self.accounts.token_config.owner != program_id
            || self.accounts.token_config.data@.len() == TokenConfig::spec_len())
    }

    /// A record of the wrong length is `InvalidAccountData` before any rule is
    /// looked at: where the three addresses are the derived ones, and the
    /// configuration account is owned by the program with data of another
    /// length than the record's, or the global configuration or the identity
    /// record has another length than its record's, the operation fails with
    /// `InvalidAccountData`, whatever the decimals and the approval are.
    pub proof fn wrong_record_length_is_invalid_account_data(
        &self,
        derived: TokenConfigDerivations,
        program_id: Pubkey,
    )
        requires
            crate::pda::matches_derived(self.accounts.token_config.key, derived.token_config),
            crate::pda::matches_derived(self.accounts.global_config.key, derived.global_config),
            crate::pda::matches_derived(self.accounts.creator_kyc.key, derived.creator_kyc),
            (self.accounts.token_config.owner == program_id
                && self.accounts.token_config.data@.len() != TokenConfig::spec_len())
                || self.accounts.global_config.data@.len() != GlobalConfig::spec_len()
                || self.accounts.creator_kyc.data@.len() != CreatorKYC::spec_len(),
        ensures
            self.process_spec(derived, program_id) == Err::<Seq<ActionView>, RWAError>(
                RWAError::InvalidAccountData,
            ),
    {
    }

    /// A token that declares more decimals than the global configuration
    /// allows is rejected, whatever else holds; where the addresses agree and
    /// the identity record can be read, the failure is
    /// `InvalidInstructionData`.
    pub proof fn too_many_decimals_are_rejected(
        &self,
        derived: TokenConfigDerivations,
        program_id: Pubkey,
    )
        requires
            self.accounts.global_config.data@.len() == GlobalConfig::spec_len(),
            self.instruction_datas.decimals > GlobalConfig::decode(
                self.accounts.global_config.data@,
            ).max_decimal,
        ensures
            self.process_spec(derived, program_id) is Err,
            self.addresses_agree(derived, program_id) && self.accounts.creator_kyc.data@.len()
                == CreatorKYC::spec_len() ==> self.process_spec(derived, program_id) == Err::<
                Seq<ActionView>,
                RWAError,
            >(RWAError::InvalidInstructionData),
    {
    }

    /// A creator whose identity was not approved is rejected, whatever else
    /// holds; where the addresses agree and the decimals are allowed, the
    /// failure is `CreatorNotVerified`.
    pub proof fn unverified_creator_is_rejected(
        &self,
        derived: TokenConfigDerivations,
        program_id: Pubkey,
    )
        requires
            self.accounts.creator_kyc.data@.len() == CreatorKYC::spec_len(),
            !CreatorKYC::decode(self.accounts.creator_kyc.data@).verified,
        ensures
            self.process_spec(derived, program_id) is Err,
            self.addresses_agree(derived, program_id) && self.accounts.global_config.data@.len()
                == GlobalConfig::spec_len() && self.instruction_datas.decimals <= GlobalConfig::decode(
                self.accounts.global_config.data@,
            ).max_decimal ==> self.process_spec(derived, program_id) == Err::<
                Seq<ActionView>,
                RWAError,
            >(RWAError::CreatorNotVerified),
    {
    }

    /// With decimals at or below the allowed maximum and an approved creator,
    /// the operation succeeds where the addresses agree. Whenever it
    /// succeeds, its last request writes, to the configuration account, a
    /// record that is not active.
    pub proof fn allowed_token_is_stored_inactive(
        &self,
        derived: TokenConfigDerivations,
        program_id: Pubkey,
    )
        ensures
            self.addresses_agree(derived, program_id) && self.accounts.global_config.data@.len()
                == GlobalConfig::spec_len() && self.instruction_datas.decimals <= GlobalConfig::decode(
                self.accounts.global_config.data@,
            ).max_decimal && self.accounts.creator_kyc.data@.len() == CreatorKYC::spec_len()
                && CreatorKYC::decode(self.accounts.creator_kyc.data@).verified
                ==> self.process_spec(derived, program_id) is Ok,
            self.process_spec(derived, program_id) matches Ok(actions) ==> actions.len() > 0 && (
            actions.last() matches ActionView::WriteData(write) && write.account
                == self.accounts.token_config.key && write.data.len() == TokenConfig::spec_len()
                && !TokenConfig::decode(write.data).active && TokenConfig::decode(
                write.data,
            ).decimal == self.instruction_datas.decimals),
    {
        if let Ok(bump) = expect_derived(
            self.accounts.token_config.key,
            derived.token_config,
            RWAError::InvalidAccountData,
        ) {
            self.record(bump).lemma_encode_len();
            self.record(bump).lemma_decode_encode();
        }
    }

    /// The global configuration is only read at the address that the handler
    /// derives itself: where the supplied account stands elsewhere, and the
    /// configuration account of the token is where it belongs, the operation
    /// fails with `PdaMismatch`.
    pub proof fn diverging_global_config_is_a_mismatch(
        &self,
        derived: TokenConfigDerivations,
        program_id: Pubkey,
    )
        requires
            crate::pda::matches_derived(self.accounts.token_config.key, derived.token_config),
            !crate::pda::matches_derived(self.accounts.global_config.key, derived.global_config),
        ensures
            self.process_spec(derived, program_id) == Err::<Seq<ActionView>, RWAError>(
                RWAError::PdaMismatch,
            ),
    {
    }

    /// Reads the two records, then checks the business rules of the
    /// operation on them.
    pub fn check_rules(&self) -> (r: Result<(), RWAError>)
        ensures
            r == self.rules_spec(),
    {
        let global = match load_acc::<GlobalConfig>(self.accounts.global_config.data.as_slice()) {
            Ok(global) => global,
            Err(e) => { return Err(e); },
        };
        let kyc = match load_acc::<CreatorKYC>(self.accounts.creator_kyc.data.as_slice()) {
            Ok(kyc) => kyc,
            Err(e) => { return Err(e); },
        };
        if self.instruction_datas.decimals > global.max_decimal {
            return Err(RWAError::InvalidInstructionData);
        }
        if !kyc.verified {
            return Err(RWAError::CreatorNotVerified);
        }
        Ok(())
    }

    /// Decides the operation for the results of the three derivations.
    pub fn process_with(&self, derived: &TokenConfigDerivations, program_id: &Pubkey) -> (r: Result<
        Vec<Action>,
        RWAError,
    >)
        ensures
            is_plan(r, self.process_spec(*derived, *program_id)),
    {
        let token_config = self.accounts.token_config;
        let bump = match expect_address(
            &token_config.key,
            &derived.token_config,
            RWAError::InvalidAccountData,
        ) {
            Ok(bump) => bump,
            Err(e) => { return Err(e); },
        };
        match expect_address(
            &self.accounts.global_config.key,
            &derived.global_config,
            RWAError::PdaMismatch,
        ) {
            Ok(_) => {},
            Err(e) => { return Err(e); },
        }
        match expect_address(
            &self.accounts.creator_kyc.key,
            &derived.creator_kyc,
            RWAError::PdaMismatch,
        ) {
            Ok(_) => {},
            Err(e) => { return Err(e); },
        }
        let tag: &[u8] = TOKEN_CONFIG_SEED.as_bytes();
        let seeds: [&[u8]; 2] = [tag, self.accounts.signer.key.as_slice()];
        assert(seed_bytes(seeds@) =~= token_config_seeds(self.accounts.signer.key));
        proof {
            TokenConfig::lemma_len();
        }
        let create = match ProgramAccount::ensure_record(
            self.accounts.signer,
            token_config,
            seeds.as_slice(),
            &derived.token_config,
            TokenConfig::LEN,
            program_id,
        ) {
            Ok(create) => create,
            Err(e) => { return Err(e); },
        };
        match self.check_rules() {
            Ok(_) => {},
            Err(e) => { return Err(e); },
        }
        let record = TokenConfig {
            bump,
            creator: self.instruction_datas.creator,
            mint: self.instruction_datas.mint,
            decimal: self.instruction_datas.decimals,
            description: self.instruction_datas.description,
            asset_type: self.instruction_datas.asset_type,
            audit_cid: self.instruction_datas.audit_cid,
            active: false,
        };
        Ok(write_record(create, &token_config.key, record.to_bytes()))
    }

    /// The three derivations of the operation for `program_id`.
    pub open spec fn derivations(&self, program_id: Pubkey) -> TokenConfigDerivations {
        TokenConfigDerivations {
            token_config: derived_address(
                token_config_seeds(self.accounts.signer.key),
                program_id,
            ),
            global_config: derived_address(global_config_seeds(), program_id),
            creator_kyc: derived_address(creator_kyc_seeds(self.accounts.signer.key), program_id),
        }
    }

    /// What the operation decides on a payload and an account list: the
    /// failure of reading the instruction, if that fails; else what the
    /// instruction read decides for the addresses derived for `program_id`.
    pub open spec fn run_spec(data: Seq<u8>, infos: Seq<Account>, program_id: Pubkey) -> Result<
        Seq<ActionView>,
        RWAError,
    > {
        match Self::try_from_spec(data, infos, program_id) {
            Err(e) => Err(e),
            Ok(operand) => {
                let ix = InitTokenConfigInstruction {
                    accounts: TokenConfigAccounts {
                        signer: &infos[0],
                        global_config: &infos[1],
                        creator_kyc: &infos[2],
                        token_config: &infos[3],
                    },
                    instruction_datas: operand,
                };
                ix.process_spec(ix.derivations(program_id), program_id)
            },
        }
    }

    /// Derives the three addresses anew for `program_id`, never trusting the
    /// ones supplied, and decides the operation.
    pub fn process(&self, program_id: &Pubkey) -> (r: Result<Vec<Action>, RWAError>)
        ensures
            is_plan(r, self.process_spec(self.derivations(*program_id), *program_id)),
    {
        let creator: &[u8] = self.accounts.signer.key.as_slice();
        let token_tag: &[u8] = TOKEN_CONFIG_SEED.as_bytes();
        let token_seeds: [&[u8]; 2] = [token_tag, creator];
        assert(seed_bytes(token_seeds@) =~= token_config_seeds(self.accounts.signer.key));
        let global_tag: &[u8] = GLOBAL_CONFIG_SEED.as_bytes();
        let global_seeds: [&[u8]; 1] = [global_tag];
        assert(seed_bytes(global_seeds@) =~= global_config_seeds());
        let kyc_tag: &[u8] = CREATOR_KYC_SEED.as_bytes();
        let kyc_seeds: [&[u8]; 2] = [kyc_tag, creator];
        assert(seed_bytes(kyc_seeds@) =~= creator_kyc_seeds(self.accounts.signer.key));
        let derived = TokenConfigDerivations {
            token_config: find_program_address(token_seeds.as_slice(), program_id),
            global_config: find_program_address(global_seeds.as_slice(), program_id),
            creator_kyc: find_program_address(kyc_seeds.as_slice(), program_id),
        };
        self.process_with(&derived, program_id)
    }
}

} // verus!
