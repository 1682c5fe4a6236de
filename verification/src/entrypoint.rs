//! Which operation an instruction selects.

use vstd::prelude::*;
use crate::error::ProgramError;
use crate::instructions::deposit::Deposit;
use crate::instructions::initialize::InitializeConfig;

verus! {

/// An operation that an instruction can select.
#[derive(Debug, Clone, Copy, PartialEq, Eq, Structural)]
pub enum Operation {
    Initialize,
    Deposit,
}

/// What an instruction selects: its first byte names the operation, and the
/// bytes after it are the operation's parameters. An empty instruction, and
/// a first byte that names no operation, are refused with
/// `InvalidInstructionData`.
pub open spec fn selected(instruction_data: Seq<u8>) -> Result<(Operation, Seq<u8>), ProgramError> {
    if instruction_data.len() == 0 {
        Err(ProgramError::InvalidInstructionData)
    } else if instruction_data[0] == InitializeConfig::DISCRIMINATOR {
        Ok((Operation::Initialize, instruction_data.subrange(1, instruction_data.len() as int)))
    } else if instruction_data[0] == Deposit::DISCRIMINATOR {
        Ok((Operation::Deposit, instruction_data.subrange(1, instruction_data.len() as int)))
    } else {
        Err(ProgramError::InvalidInstructionData)
    }
}

/// Splits an instruction into the operation it selects and the operation's
/// parameters.
pub fn select_operation(instruction_data: &[u8]) -> (outcome: Result<
    (Operation, &[u8]),
    ProgramError,
>)
    ensures
        match outcome {
            Ok((operation, parameters)) => selected(instruction_data@) == Ok::<
                (Operation, Seq<u8>),
                ProgramError,
            >((operation, parameters@)),
            Err(e) => selected(instruction_data@) == Err::<(Operation, Seq<u8>), ProgramError>(e),
        },
{
    let len: usize = instruction_data.len();
    if len == 0 {
        return Err(ProgramError::InvalidInstructionData);
    }
    let discriminator: u8 = instruction_data[0];
    let parameters: &[u8] = vstd::slice::slice_subrange(instruction_data, 1, len);
    if discriminator == InitializeConfig::DISCRIMINATOR {
        Ok((Operation::Initialize, parameters))
    } else if discriminator == Deposit::DISCRIMINATOR {
        Ok((Operation::Deposit, parameters))
    } else {
        Err(ProgramError::InvalidInstructionData)
    }
}

} // verus!
