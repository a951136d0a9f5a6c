//! The operation dispatcher: decodes an instruction byte stream into a typed
//! call on the vote state machine.

use vstd::prelude::*;

pub mod vote;

use crate::error::SnsReputationError;
use crate::instruction::ProgramInstruction;
use crate::processor::vote::{spec_params_ok, Params};
use crate::state::VoteValue;

verus! {

/// The ledger's dispatcher.
pub struct Processor {}

impl Processor {
    /// Decodes an opaque instruction byte stream into a typed call: the
    /// leading byte names the instruction, the rest carries its parameters.
    pub fn parse_instruction(instruction_data: &[u8]) -> (r: Result<
        (ProgramInstruction, Params),
        SnsReputationError,
    >)
        ensures
            match r {
                Ok(call) => {
                    &&& instruction_data@.len() >= 1
                    &&& ProgramInstruction::spec_from_u8(instruction_data@[0]) == Some(call.0)
                    &&& spec_params_ok(instruction_data@.skip(1))
                    &&& call.1.user_key@ == instruction_data@.skip(1).subrange(0, 32)
                    &&& Some(call.1.vote_value) == VoteValue::spec_from_u8(
                        instruction_data@.skip(1)[32],
                    )
                },
                Err(e) => {
                    &&& e == SnsReputationError::InvalidInstruction
                    &&& (instruction_data@.len() == 0 || ProgramInstruction::spec_from_u8(
                        instruction_data@[0],
                    ) is None || !spec_params_ok(instruction_data@.skip(1)))
                },
            },
    {
        let n: usize = instruction_data.len();
        if n == 0 {
            return Err(SnsReputationError::InvalidInstruction);
        }
        let instruction = match ProgramInstruction::from_u8(
            *vstd::slice::slice_index_get(instruction_data, 0),
        ) {
            Some(i) => i,
            None => {
                return Err(SnsReputationError::InvalidInstruction);
            },
        };
        let rest = vstd::slice::slice_subrange(instruction_data, 1, n);
        proof {
            assert(instruction_data@.subrange(1, n as int) =~= instruction_data@.skip(1));
        }
        let params = match Params::try_from_slice(rest) {
            Ok(p) => p,
            Err(e) => {
                return Err(e);
            },
        };
        Ok((instruction, params))
    }
}

} // verus!
