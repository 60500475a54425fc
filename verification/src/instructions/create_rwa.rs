//! The creation of an asset's mint and metadata.

use crate::account::Account;
use crate::account::Pubkey;
use crate::action::actions_view;
use crate::action::Action;
use crate::action::ActionView;
use crate::errors::RWAError;
use crate::instructions::CreateRWA;
use crate::instructions::ZeroCopyTryFrom;
use crate::states::DataLen;
use crate::states::Record;
use crate::utils::load_spec;
use crate::utils::AccountCheck;
use crate::utils::Mint2022Account;
use crate::utils::ProgramAccount;
use crate::utils::SignerAccount;
use crate::utils::SystemAccount;
use crate::utils::SYSTEM_PROGRAM_ID;
use vstd::prelude::*;

verus! {

/// The accounts of the creation of an asset, in the order in which the
/// transaction lists them.
pub struct CreateRWAAccount<'a> {
    /// The account that asks for the creation; signs.
    pub signer: &'a Account,
    /// The mint of the asset's token.
    pub mint_account: &'a Account,
    /// The metadata record of the mint.
    pub metadata_account: &'a Account,
    /// Who may mint.
    pub mint_authority: &'a Account,
    /// Who may freeze token accounts.
    pub freeze_authority: &'a Account,
    /// The account given for the token program.
    pub token_program_2022: &'a Account,
}

impl<'a> CreateRWAAccount<'a> {
    /// What validated accounts are: the first signed, the second is a mint,
    /// the program `program_id` owns the metadata record, and the system
    /// program owns the last.
    pub open spec fn wf(&self, program_id: Pubkey) -> bool {
        self.signer.is_signer && Mint2022Account::check_spec(self.mint_account@) is Ok
            && self.metadata_account.owner == program_id && self.token_program_2022.owner
            == SYSTEM_PROGRAM_ID
    }

    /// What the validation of an account list returns:
    /// `NotEnoughAccountKeys` unless the list has exactly six accounts; then
    /// `NotSigner` unless the first signed; then the failure of the mint
    /// check on the second, if it fails; then `InvalidOwner` unless this
    /// program owns the third, and unless the system program owns the sixth.
    /// The two authorities carry no role that is checked.
    pub open spec fn try_from_spec(infos: Seq<Account>, program_id: Pubkey) -> Result<
        (),
        RWAError,
    > {
        if infos.len() != 6 {
            Err(RWAError::NotEnoughAccountKeys)
        } else if !infos[0].is_signer {
            Err(RWAError::NotSigner)
        } else if Mint2022Account::check_spec(infos[1]@) is Err {
            Mint2022Account::check_spec(infos[1]@)
        } else if infos[2].owner != program_id {
            Err(RWAError::InvalidOwner)
        } else if infos[5].owner != SYSTEM_PROGRAM_ID {
            Err(RWAError::InvalidOwner)
        } else {
            Ok(())
        }
    }

    /// Takes the accounts from the list by their positions and checks the
    /// role of each. The length of the list is checked before anything else.
    pub fn try_from(infos: &'a [Account], program_id: &Pubkey) -> (r: Result<
        CreateRWAAccount<'a>,
        RWAError,
    >)
        ensures
            match r {
                Ok(accounts) => Self::try_from_spec(infos@, *program_id) is Ok && accounts.wf(
                    *program_id,
                ) && *accounts.signer
                    == infos@[0] && *accounts.mint_account == infos@[1]
                    && *accounts.metadata_account == infos@[2] && *accounts.mint_authority
                    == infos@[3] && *accounts.freeze_authority == infos@[4]
                    && *accounts.token_program_2022 == infos@[5],
                Err(e) => Self::try_from_spec(infos@, *program_id) == Err::<(), RWAError>(e),
            },
    {
        if infos.len() != 6 {
            return Err(RWAError::NotEnoughAccountKeys);
        }
        let signer = match SignerAccount::try_from(&infos[0]) {
            Ok(token) => token,
            Err(e) => { return Err(e); },
        };
        match Mint2022Account::check(&infos[1]) {
            Ok(_) => {},
            Err(e) => { return Err(e); },
        }
        let metadata_account = match ProgramAccount::try_from(&infos[2], program_id) {
            Ok(token) => token,
            Err(e) => { return Err(e); },
        };
        let token_program_2022 = match SystemAccount::try_from(&infos[5]) {
            Ok(token) => token,
            Err(e) => { return Err(e); },
        };
        Ok(
            CreateRWAAccount {
                signer: signer.account,
                mint_account: &infos[1],
                metadata_account: metadata_account.account,
                mint_authority: &infos[3],
                freeze_authority: &infos[4],
                token_program_2022: token_program_2022.account,
            },
        )
    }
}

/// The creation of an asset: its accounts and its operand.
pub struct CreateRWAInstruction<'a> {
    pub accounts: CreateRWAAccount<'a>,
    pub instruction_datas: CreateRWA,
}

impl<'a> CreateRWAInstruction<'a> {
    /// The discriminator byte of the operation.
    pub const DISCRIMINATOR: u8 = 6;

    /// What reading the instruction returns: the failure of the account
    /// validation, if that fails; else the operand that the payload holds, or
    /// `InvalidInstructionData` where the payload does not have the operand's
    /// exact length.
    pub open spec fn try_from_spec(
        data: Seq<u8>,
        infos: Seq<Account>,
        program_id: Pubkey,
    ) -> Result<CreateRWA, RWAError> {
        match CreateRWAAccount::try_from_spec(infos, program_id) {
            Err(e) => Err(e),
            Ok(_) => load_spec::<CreateRWA>(data, RWAError::InvalidInstructionData),
        }
    }

    /// Validates the accounts, then reads the operand.
    pub fn try_from(data: &[u8], accounts: &'a [Account], program_id: &Pubkey) -> (r: Result<
        CreateRWAInstruction<'a>,
        RWAError,
    >)
        ensures
            match r {
                Ok(ix) => Self::try_from_spec(data@, accounts@, *program_id) == Ok::<
                    CreateRWA,
                    RWAError,
                >(ix.instruction_datas) && ix.accounts.wf(*program_id) && *ix.accounts.signer
                    == accounts@[0]
                    && *ix.accounts.mint_account == accounts@[1] && *ix.accounts.metadata_account
                    == accounts@[2] && *ix.accounts.mint_authority == accounts@[3]
                    && *ix.accounts.freeze_authority == accounts@[4]
                    && *ix.accounts.token_program_2022 == accounts@[5],
                Err(e) => Self::try_from_spec(data@, accounts@, *program_id) == Err::<
                    CreateRWA,
                    RWAError,
                >(e),
            },
    {
        let accounts = match CreateRWAAccount::try_from(accounts, program_id) {
            Ok(accounts) => accounts,
            Err(e) => { return Err(e); },
        };
        let instruction_datas = match CreateRWA::try_from_bytes(data) {
            Ok(operand) => operand,
            Err(e) => { return Err(e); },
        };
        Ok(CreateRWAInstruction { accounts, instruction_datas })
    }

    /// A list that does not have exactly six accounts is rejected with
    /// `NotEnoughAccountKeys` before anything else is looked at: whatever the
    /// accounts are and whatever the payload holds.
    pub proof fn wrong_account_count_fails_first(
        data: Seq<u8>,
        infos: Seq<Account>,
        program_id: Pubkey,
    )
        requires
            infos.len() != 6,
        ensures
            Self::try_from_spec(data, infos, program_id) == Err::<CreateRWA, RWAError>(
                RWAError::NotEnoughAccountKeys,
            ),
    {
    }

    /// With valid accounts, a payload whose length is not exactly that of the
    /// operand is rejected with `InvalidInstructionData`, and a payload of
    /// that length is read.
    pub proof fn payload_length_decides(data: Seq<u8>, infos: Seq<Account>, program_id: Pubkey)
        requires
            CreateRWAAccount::try_from_spec(infos, program_id) is Ok,
        ensures
            data.len() != CreateRWA::spec_len() ==> Self::try_from_spec(data, infos, program_id) == Err::<
                CreateRWA,
                RWAError,
            >(RWAError::InvalidInstructionData),
            data.len() == CreateRWA::spec_len() ==> Self::try_from_spec(data, infos, program_id) == Ok::<
                CreateRWA,
                RWAError,
            >(CreateRWA::decode(data)),
    {
    }

    /// The operation asks nothing of the host yet: a validated instruction
    /// succeeds and leaves every account as it is.
    pub fn process(&self) -> (r: Result<Vec<Action>, RWAError>)
        ensures
            r matches Ok(actions) && actions_view(actions@) == Seq::<ActionView>::empty(),
    {
        let actions: Vec<Action> = Vec::new();
        assert(actions_view(actions@) =~= Seq::<ActionView>::empty());
        Ok(actions)
    }
}

} // verus!
