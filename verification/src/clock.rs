use vstd::prelude::*;
use anchor_lang::prelude::{Clock, ProgramError};
use anchor_lang::solana_program::sysvar::Sysvar;

verus! {

#[verifier::external_type_specification]
#[verifier::external_body]
pub struct ExProgramError(ProgramError);

/// Reads the current slot from the cluster's clock sysvar (`Clock::get` of
/// the Solana runtime, through anchor_lang), or the runtime's error when the
/// sysvar cannot be read. Nothing is stated of the result: the slot and the
/// success of the read both come from the runtime.
#[verifier::external_body]
pub(crate) fn read_current_slot() -> (slot: Result<u64, ProgramError>) {
    match Clock::get() {
        Ok(clock) => Ok(clock.slot),
        Err(e) => Err(e),
    }
}

} // verus!
