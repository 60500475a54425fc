//! The routing of an instruction to its handler.

use crate::account::Account;
use crate::account::Pubkey;
use crate::action::actions_view;
use crate::action::is_plan;
use crate::action::Action;
use crate::action::ActionView;
use crate::errors::RWAError;
use crate::instructions::split_discriminator;
use crate::instructions::split_spec;
use crate::instructions::CreatorKYCInstruction;
use crate::instructions::InitGlobalConfigInstruction;
use crate::instructions::InitTokenConfigInstruction;
use crate::instructions::RWAInstruction;
use vstd::prelude::*;

verus! {

/// What an instruction decides.
///
/// - `InvalidInstructionData` for an empty payload.
/// - What the handler decides, on the operand after the discriminator byte,
///   where the byte selects the initialisation of the global configuration,
///   of a token configuration, or a creator's registration.
/// - Nothing, for the creation and the minting of an asset, which ask nothing
///   of the host yet, and for a byte that selects no operation.
pub open spec fn process_instruction_spec(
    program_id: Pubkey,
    accounts: Seq<Account>,
    instruction_data: Seq<u8>,
) -> Result<Seq<ActionView>, RWAError> {
    match split_spec(instruction_data) {
        Err(e) => Err(e),
        Ok((discriminator, operand)) => match RWAInstruction::route(discriminator) {
            Some(RWAInstruction::InitGlobalConfig) => InitGlobalConfigInstruction::run_spec(
                operand,
                accounts,
                program_id,
            ),
            Some(RWAInstruction::CreatorKYC) => CreatorKYCInstruction::run_spec(
                operand,
                accounts,
                program_id,
            ),
            Some(RWAInstruction::InitTokenConfig) => InitTokenConfigInstruction::run_spec(
                operand,
                accounts,
                program_id,
            ),
            Some(RWAInstruction::CreateRWA) => Ok(Seq::empty()),
            Some(RWAInstruction::MintRWA) => Ok(Seq::empty()),
            None => Ok(Seq::empty()),
        },
    }
}

/// Routes an instruction to its handler and returns what the handler asks of
/// the host, in the order in which the host has to carry it out. A failure
/// comes with no request at all.
pub fn process_instruction(
    program_id: &Pubkey,
    accounts: &[Account],
    instruction_data: &[u8],
) -> (r: Result<Vec<Action>, RWAError>)
    ensures
        is_plan(r, process_instruction_spec(*program_id, accounts@, instruction_data@)),
{
    let (discriminator, operand) = match split_discriminator(instruction_data) {
        Ok(parts) => parts,
        Err(e) => { return Err(e); },
    };
    match RWAInstruction::from_discriminator(discriminator) {
        Some(RWAInstruction::InitGlobalConfig) => {
            let ix = match InitGlobalConfigInstruction::try_from(operand, accounts) {
                Ok(ix) => ix,
                Err(e) => { return Err(e); },
            };
            ix.process(program_id)
        },
        Some(RWAInstruction::CreatorKYC) => {
            let ix = match CreatorKYCInstruction::try_from(operand, accounts) {
                Ok(ix) => ix,
                Err(e) => { return Err(e); },
            };
            ix.process(program_id)
        },
        Some(RWAInstruction::InitTokenConfig) => {
            let ix = match InitTokenConfigInstruction::try_from(operand, accounts, program_id) {
                Ok(ix) => ix,
                Err(e) => { return Err(e); },
            };
            ix.process(program_id)
        },
        _ => {
            let actions: Vec<Action> = Vec::new();
            assert(actions_view(actions@) =~= Seq::<ActionView>::empty());
            Ok(actions)
        },
    }
}

} // verus!
