//! Controller logic for a single-validator liquid-staking pool.
//!
//! The pool custodies native-asset deposits, issues a fungible claim-token
//! proportional to pool value, and drives a two-phase withdrawal lifecycle
//! (request, cooldown, settle).  This crate holds the decision logic: the
//! instruction codec, the pool record and its byte layout, the authority
//! derivation checks, the overflow-safe share-ratio math and the handlers
//! that turn a call into either an error or a plan of effects for the host
//! ledger to carry out.

pub mod addr;
pub mod codec;
pub mod error;
pub mod instruction;
pub mod math;
pub mod pda;
pub mod processor;
pub mod record;
pub mod security;
pub mod state;
pub mod utils;

use vstd::prelude::*;

use crate::addr::Address;
use crate::error::PoolError;
use crate::processor::{process_spec, Effects, Processor};
use crate::state::{Account, CallContext};

verus! {

/// The program entrypoint's logic: hands the call to the processor and
/// passes its plan or its failure through unchanged.
pub fn process_instruction(
    program_id: &Address,
    accounts: &Vec<Account>,
    instruction_data: &Vec<u8>,
    ctx: &CallContext,
) -> (r: Result<Effects, PoolError>)
    ensures
        process_spec(program_id@, accounts.deep_view(), instruction_data@, ctx@, r),
{
    match Processor::process(program_id, accounts, instruction_data, ctx) {
        Ok(effects) => Ok(effects),
        Err(error) => Err(error),
    }
}

} // verus!
