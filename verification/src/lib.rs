//! Decoding of RISC-V control and status registers, instruction words and
//! virtual-memory words into field-by-field reports.
//!
//! [`decode`] takes an identifier and a raw 64-bit word, finds the layout
//! that the identifier stands for, cuts the word into the fields of the
//! layout and writes the report. The parts it is made of can be used on
//! their own: [`bit`] extracts bits, [`bitfield`] holds the typed bit field
//! and the rules that show a value, and [`inst`], [`csr`] and [`vmem`] each
//! hold layouts and the registry that finds them.
pub mod bit;
pub mod bitfield;
pub mod bits;
pub mod csr;
pub mod encoding;
pub mod format;
pub mod inst;
pub mod print;
pub mod text;
pub mod vmem;

use crate::csr::CsrError;
use crate::inst::InstrError;
use crate::text::lower;
use crate::vmem::VmemError;
use vstd::prelude::*;

verus! {

/// Why [`decode`] could make no report.
#[derive(Debug, PartialEq, Eq)]
pub enum DecodeError {
    /// The identifier asks for a whole instruction, and the word is none
    /// that has a layout.
    Instruction(InstrError),
    /// The identifier is no name of an instruction format, leads to no
    /// register with a layout, and names no word of a translation scheme.
    /// The registry of registers and that of the translation schemes each
    /// say why.
    NoFormat { csr: CsrError, vmem: VmemError },
}

/// The report on the raw word `value` as what `name` stands for.
///
/// `name` is looked up as the name of an instruction format first, then as
/// the name or address of a register, then as the name of a word of a
/// translation scheme; the first registry that has a layout for it makes the
/// report.
pub fn decode(name: &str, value: u64) -> (report: Result<String, DecodeError>)
    ensures
        match inst::entry_named(lower(name@)) {
            inst::Entry::Layout(layout) => report matches Ok(text) && text@ == layout.report(
                value,
            ),
            inst::Entry::Instruction => report == Err::<String, DecodeError>(
                DecodeError::Instruction(InstrError::UnknownInstruction(value)),
            ),
            inst::Entry::Unknown => match csr::resolution(name@) {
                csr::Entry::Layout(layout) => report matches Ok(text) && text@ == layout.report(
                    value,
                ),
                found => match vmem::layout_named(lower(name@)) {
                    Some(layout) => report matches Ok(text) && text@ == layout.report(value),
                    None => {
                        &&& report matches Err(DecodeError::NoFormat { csr, vmem })
                        &&& csr.identifier() == name@
                        &&& csr is UnimplementedIdentifier <==> found is Unimplemented
                        &&& vmem matches VmemError::Unknown(given)
                        &&& given@ == name@
                    },
                },
            },
        },
{
    match inst::entry(name) {
        inst::Entry::Layout(layout) => Ok(layout.render(value)),
        inst::Entry::Instruction => match inst::instructions::format_instr(value) {
            Ok(text) => Ok(text),
            Err(e) => Err(DecodeError::Instruction(e)),
        },
        inst::Entry::Unknown => match csr::format(name, value) {
            Ok(text) => Ok(text),
            Err(csr) => match vmem::format(name, value) {
                Ok(text) => Ok(text),
                Err(vmem) => Err(DecodeError::NoFormat { csr, vmem }),
            },
        },
    }
}

} // verus!
