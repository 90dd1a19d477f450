//! Whole instructions.
use super::InstrError;
use vstd::prelude::*;

verus! {

/// The report on the instruction word `value`.
///
/// No instruction has a layout yet, so every word is unknown: the result is
/// [`InstrError::UnknownInstruction`] with the word.
pub fn format_instr(value: u64) -> (report: Result<String, InstrError>)
    ensures
        report == Err::<String, InstrError>(InstrError::UnknownInstruction(value)),
{
    Err(InstrError::UnknownInstruction(value))
}

} // verus!
