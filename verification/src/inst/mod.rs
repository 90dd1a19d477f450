//! Instruction words: the opcode, the base instruction formats, and the
//! registry that finds the layout for a name.
//!
//! Names are looked up without regard to case. Each base format goes by two
//! names, such as `r_inst` and `inst_r`.
pub mod base_opcodes;
pub mod base_types;
pub mod instructions;

use crate::format::Csr;
use crate::text::{lower, lower_chars_of, padded_digits, push_padded_digits, spells};
pub use base_opcodes::{Opcode, OpcodeType};
pub use base_types::{BTypeInst, ITypeInst, JTypeInst, RTypeInst, STypeInst, UTypeInst};
use vstd::prelude::*;

verus! {

/// Why no report could be made for an instruction word or a format name.
#[derive(Debug, PartialEq, Eq)]
pub enum InstrError {
    /// The word is no instruction that has a layout.
    UnknownInstruction(u64),
    /// The seven bits are no opcode of the base opcode map.
    UnknownOpcode(u64),
    /// The name is no name of an instruction format.
    NoInstructionFormat(String),
}

impl InstrError {
    /// The message for the user.
    pub open spec fn message_text(&self) -> Seq<char> {
        match self {
            InstrError::UnknownInstruction(word) => "0x"@ + padded_digits(*word as nat, 16, 16)
                + " is not a known instruction"@,
            InstrError::UnknownOpcode(code) => "0x"@ + padded_digits(*code as nat, 16, 2)
                + " is not a known opcode"@,
            InstrError::NoInstructionFormat(name) => "\""@ + name@
                + "\" is not a recognized as an instruction format"@,
        }
    }

    /// Writes the message for the user.
    pub fn message(&self) -> (text: String)
        ensures
            text@ == self.message_text(),
    {
        match self {
            InstrError::UnknownInstruction(word) => {
                let mut text = String::from_str("0x");
                push_padded_digits(&mut text, *word, 16, 16);
                text.append(" is not a known instruction");
                text
            },
            InstrError::UnknownOpcode(code) => {
                let mut text = String::from_str("0x");
                push_padded_digits(&mut text, *code, 16, 2);
                text.append(" is not a known opcode");
                text
            },
            InstrError::NoInstructionFormat(name) => {
                let mut text = String::from_str("\"");
                text.append(name.as_str());
                text.append("\" is not a recognized as an instruction format");
                text
            },
        }
    }
}

/// The layouts that the registry hands out.
#[derive(Debug, Clone, Copy, PartialEq, Eq)]
pub enum InstLayout {
    Opcode,
    RTypeInst,
    ITypeInst,
    STypeInst,
    BTypeInst,
    UTypeInst,
    JTypeInst,
}

impl InstLayout {
    /// The report on the raw word `value` under this layout.
    pub open spec fn report(self, value: u64) -> Seq<char> {
        match self {
            InstLayout::Opcode => Opcode::decoded(value).report(),
            InstLayout::RTypeInst => RTypeInst::decoded(value).report(),
            InstLayout::ITypeInst => ITypeInst::decoded(value).report(),
            InstLayout::STypeInst => STypeInst::decoded(value).report(),
            InstLayout::BTypeInst => BTypeInst::decoded(value).report(),
            InstLayout::UTypeInst => UTypeInst::decoded(value).report(),
            InstLayout::JTypeInst => JTypeInst::decoded(value).report(),
        }
    }

    /// Cuts `value` into the fields of this layout and writes the report.
    pub fn render(self, value: u64) -> (text: String)
        ensures
            text@ == self.report(value),
    {
        match self {
            InstLayout::Opcode => Opcode::new(value).render(),
            InstLayout::RTypeInst => RTypeInst::new(value).render(),
            InstLayout::ITypeInst => ITypeInst::new(value).render(),
            InstLayout::STypeInst => STypeInst::new(value).render(),
            InstLayout::BTypeInst => BTypeInst::new(value).render(),
            InstLayout::UTypeInst => UTypeInst::new(value).render(),
            InstLayout::JTypeInst => JTypeInst::new(value).render(),
        }
    }
}

/// What a lower-case name stands for.
#[derive(Debug, Clone, Copy, PartialEq, Eq)]
pub enum Entry {
    /// A layout of fields.
    Layout(InstLayout),
    /// A whole instruction, to be taken apart by its opcode.
    Instruction,
    /// Nothing.
    Unknown,
}

/// What the lower-case name `name` stands for.
pub open spec fn entry_named(name: Seq<char>) -> Entry {
    if name == "opcode"@ {
        Entry::Layout(InstLayout::Opcode)
    } else if name == "r_inst"@ || name == "inst_r"@ {
        Entry::Layout(InstLayout::RTypeInst)
    } else if name == "i_inst"@ || name == "inst_i"@ {
        Entry::Layout(InstLayout::ITypeInst)
    } else if name == "s_inst"@ || name == "inst_s"@ {
        Entry::Layout(InstLayout::STypeInst)
    } else if name == "b_inst"@ || name == "inst_b"@ {
        Entry::Layout(InstLayout::BTypeInst)
    } else if name == "u_inst"@ || name == "inst_u"@ {
        Entry::Layout(InstLayout::UTypeInst)
    } else if name == "j_inst"@ || name == "inst_j"@ {
        Entry::Layout(InstLayout::JTypeInst)
    } else if name == "ins"@ || name == "inst"@ || name == "instr"@ {
        Entry::Instruction
    } else {
        Entry::Unknown
    }
}

/// What the registry holds for the name `instr_str`, whatever its case.
pub fn entry(instr_str: &str) -> (entry: Entry)
    ensures
        entry == entry_named(lower(instr_str@)),
{
    let name = lower_chars_of(instr_str);
    if spells(&name, "opcode") {
        Entry::Layout(InstLayout::Opcode)
    } else if spells(&name, "r_inst") || spells(&name, "inst_r") {
        Entry::Layout(InstLayout::RTypeInst)
    } else if spells(&name, "i_inst") || spells(&name, "inst_i") {
        Entry::Layout(InstLayout::ITypeInst)
    } else if spells(&name, "s_inst") || spells(&name, "inst_s") {
        Entry::Layout(InstLayout::STypeInst)
    } else if spells(&name, "b_inst") || spells(&name, "inst_b") {
        Entry::Layout(InstLayout::BTypeInst)
    } else if spells(&name, "u_inst") || spells(&name, "inst_u") {
        Entry::Layout(InstLayout::UTypeInst)
    } else if spells(&name, "j_inst") || spells(&name, "inst_j") {
        Entry::Layout(InstLayout::JTypeInst)
    } else if spells(&name, "ins") || spells(&name, "inst") || spells(&name, "instr") {
        Entry::Instruction
    } else {
        Entry::Unknown
    }
}

/// The report on the raw word `value` under the instruction format that
/// goes by the name `instr_str`.
///
/// A name for whole instructions hands the word to
/// [`instructions::format_instr`]. Fails with
/// [`InstrError::NoInstructionFormat`] where `instr_str` is no name of the
/// registry.
pub fn format(instr_str: &str, value: u64) -> (report: Result<String, InstrError>)
    ensures
        match entry_named(lower(instr_str@)) {
            Entry::Layout(layout) => report matches Ok(text) && text@ == layout.report(value),
            Entry::Instruction => report == Err::<String, InstrError>(
                InstrError::UnknownInstruction(value),
            ),
            Entry::Unknown => report matches Err(InstrError::NoInstructionFormat(name))
                && name@ == instr_str@,
        },
{
    match entry(instr_str) {
        Entry::Layout(layout) => Ok(layout.render(value)),
        Entry::Instruction => instructions::format_instr(value),
        Entry::Unknown => Err(InstrError::NoInstructionFormat(String::from_str(instr_str))),
    }
}

} // verus!
