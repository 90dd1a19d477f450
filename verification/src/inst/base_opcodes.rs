//! The major opcodes of the base opcode map.
use super::InstrError;
use crate::bitfield::{BitField, BitFieldType};
use crate::format::{heading, line, push_line, start_report, Csr};
use crate::text::{padded_digits, push_padded_digits};
use vstd::prelude::*;

verus! {

/// The opcode of an instruction: its lowest seven bits.
pub struct Opcode {
    pub opcode: BitField<OpcodeType, 0, 6>,
}

impl Csr for Opcode {
    open spec fn title() -> Seq<char> {
        "opcode"@
    }

    open spec fn decoded(value: u64) -> Self {
        Opcode { opcode: BitField::decoded(value) }
    }

    open spec fn report(&self) -> Seq<char> {
        heading(Self::title())
            + line("opcode"@, self.opcode.text())
    }

    fn new(value: u64) -> (csr: Self) {
        Opcode { opcode: BitField::new(value) }
    }

    fn name() -> (name: String) {
        String::from_str("opcode")
    }

    fn render(&self) -> (text: String) {
        let mut text = start_report("opcode");
        push_line(&mut text, "opcode", &self.opcode);
        text
    }
}

/// A major opcode of the base opcode map. The map leaves three entries
/// reserved and four for custom extensions.
#[derive(Debug, Clone, Copy, PartialEq, Eq)]
pub enum OpcodeType {
    Load,
    /// Load floating point
    LoadFp,
    Custom0,
    MiscMem,
    OpImm,
    /// Add upper immediate to PC
    Auipc,
    OpImm32,
    Store,
    /// Store floating point
    StoreFp,
    Custom1,
    Amo,
    Op,
    /// Load upper immediate
    Lui,
    Op32,
    /// Multiply-add
    MAdd,
    /// Multiply-subtract
    MSub,
    /// Negative multiply-subtract
    NMSub,
    /// Negative multiply-add
    NMAdd,
    OpFp,
    Reserved0,
    Custom2,
    Branch,
    /// Jump and link register
    Jalr,
    Reserved1,
    /// Jump and link
    Jal,
    System,
    Reserved2,
    Custom3,
}

impl OpcodeType {
    /// The seven bits that encode the opcode.
    pub open spec fn code(self) -> u64 {
        match self {
            OpcodeType::Load => 0b00_000_11,
            OpcodeType::LoadFp => 0b00_001_11,
            OpcodeType::Custom0 => 0b00_010_11,
            OpcodeType::MiscMem => 0b00_011_11,
            OpcodeType::OpImm => 0b00_100_11,
            OpcodeType::Auipc => 0b00_101_11,
            OpcodeType::OpImm32 => 0b00_110_11,
            OpcodeType::Store => 0b01_000_11,
            OpcodeType::StoreFp => 0b01_001_11,
            OpcodeType::Custom1 => 0b01_010_11,
            OpcodeType::Amo => 0b01_011_11,
            OpcodeType::Op => 0b01_100_11,
            OpcodeType::Lui => 0b01_101_11,
            OpcodeType::Op32 => 0b01_110_11,
            OpcodeType::MAdd => 0b10_000_11,
            OpcodeType::MSub => 0b10_001_11,
            OpcodeType::NMSub => 0b10_010_11,
            OpcodeType::NMAdd => 0b10_011_11,
            OpcodeType::OpFp => 0b10_100_11,
            OpcodeType::Reserved0 => 0b10_101_11,
            OpcodeType::Custom2 => 0b10_110_11,
            OpcodeType::Branch => 0b11_000_11,
            OpcodeType::Jalr => 0b11_001_11,
            OpcodeType::Reserved1 => 0b11_010_11,
            OpcodeType::Jal => 0b11_011_11,
            OpcodeType::System => 0b11_100_11,
            OpcodeType::Reserved2 => 0b11_101_11,
            OpcodeType::Custom3 => 0b11_110_11,
        }
    }

    /// The name of the opcode in the opcode map.
    pub open spec fn mnemonic(self) -> Seq<char> {
        match self {
            OpcodeType::Load => "LOAD"@,
            OpcodeType::LoadFp => "LOAD-FP"@,
            OpcodeType::Custom0 => "custom-0"@,
            OpcodeType::MiscMem => "MISC-MEM"@,
            OpcodeType::OpImm => "OP-IMM"@,
            OpcodeType::Auipc => "AUIPC"@,
            OpcodeType::OpImm32 => "OP-IMM-32"@,
            OpcodeType::Store => "STORE"@,
            OpcodeType::StoreFp => "STORE-FP"@,
            OpcodeType::Custom1 => "custom-1"@,
            OpcodeType::Amo => "AMO"@,
            OpcodeType::Op => "OP"@,
            OpcodeType::Lui => "LUI"@,
            OpcodeType::Op32 => "OP-32"@,
            OpcodeType::MAdd => "MADD"@,
            OpcodeType::MSub => "MSUB"@,
            OpcodeType::NMSub => "NMSUB"@,
            OpcodeType::NMAdd => "NMADD"@,
            OpcodeType::OpFp => "OP-FP"@,
            OpcodeType::Reserved0 => "reserved"@,
            OpcodeType::Custom2 => "custom-2"@,
            OpcodeType::Branch => "BRANCH"@,
            OpcodeType::Jalr => "JALR"@,
            OpcodeType::Reserved1 => "reserved"@,
            OpcodeType::Jal => "JAL"@,
            OpcodeType::System => "SYSTEM"@,
            OpcodeType::Reserved2 => "reserved"@,
            OpcodeType::Custom3 => "custom-3"@,
        }
    }

    /// The name of the opcode in the opcode map.
    pub fn name(self) -> (name: &'static str)
        ensures
            name@ == self.mnemonic(),
    {
        match self {
            OpcodeType::Load => "LOAD",
            OpcodeType::LoadFp => "LOAD-FP",
            OpcodeType::Custom0 => "custom-0",
            OpcodeType::MiscMem => "MISC-MEM",
            OpcodeType::OpImm => "OP-IMM",
            OpcodeType::Auipc => "AUIPC",
            OpcodeType::OpImm32 => "OP-IMM-32",
            OpcodeType::Store => "STORE",
            OpcodeType::StoreFp => "STORE-FP",
            OpcodeType::Custom1 => "custom-1",
            OpcodeType::Amo => "AMO",
            OpcodeType::Op => "OP",
            OpcodeType::Lui => "LUI",
            OpcodeType::Op32 => "OP-32",
            OpcodeType::MAdd => "MADD",
            OpcodeType::MSub => "MSUB",
            OpcodeType::NMSub => "NMSUB",
            OpcodeType::NMAdd => "NMADD",
            OpcodeType::OpFp => "OP-FP",
            OpcodeType::Reserved0 => "reserved",
            OpcodeType::Custom2 => "custom-2",
            OpcodeType::Branch => "BRANCH",
            OpcodeType::Jalr => "JALR",
            OpcodeType::Reserved1 => "reserved",
            OpcodeType::Jal => "JAL",
            OpcodeType::System => "SYSTEM",
            OpcodeType::Reserved2 => "reserved",
            OpcodeType::Custom3 => "custom-3",
        }
    }

    /// The opcode that `value` encodes.
    ///
    /// Fails with [`InstrError::UnknownOpcode`] where no opcode of the map
    /// has the code `value`.
    pub fn try_from(value: u64) -> (opcode: Result<OpcodeType, InstrError>)
        ensures
            match opcode {
                Ok(opcode) => opcode.code() == value,
                Err(e) => e == InstrError::UnknownOpcode(value) && forall|other: OpcodeType|
                    other.code() != value,
            },
    {
        if value == 0b00_000_11 {
            Ok(OpcodeType::Load)
        } else if value == 0b00_001_11 {
            Ok(OpcodeType::LoadFp)
        } else if value == 0b00_010_11 {
            Ok(OpcodeType::Custom0)
        } else if value == 0b00_011_11 {
            Ok(OpcodeType::MiscMem)
        } else if value == 0b00_100_11 {
            Ok(OpcodeType::OpImm)
        } else if value == 0b00_101_11 {
            Ok(OpcodeType::Auipc)
        } else if value == 0b00_110_11 {
            Ok(OpcodeType::OpImm32)
        } else if value == 0b01_000_11 {
            Ok(OpcodeType::Store)
        } else if value == 0b01_001_11 {
            Ok(OpcodeType::StoreFp)
        } else if value == 0b01_010_11 {
            Ok(OpcodeType::Custom1)
        } else if value == 0b01_011_11 {
            Ok(OpcodeType::Amo)
        } else if value == 0b01_100_11 {
            Ok(OpcodeType::Op)
        } else if value == 0b01_101_11 {
            Ok(OpcodeType::Lui)
        } else if value == 0b01_110_11 {
            Ok(OpcodeType::Op32)
        } else if value == 0b10_000_11 {
            Ok(OpcodeType::MAdd)
        } else if value == 0b10_001_11 {
            Ok(OpcodeType::MSub)
        } else if value == 0b10_010_11 {
            Ok(OpcodeType::NMSub)
        } else if value == 0b10_011_11 {
            Ok(OpcodeType::NMAdd)
        } else if value == 0b10_100_11 {
            Ok(OpcodeType::OpFp)
        } else if value == 0b10_101_11 {
            Ok(OpcodeType::Reserved0)
        } else if value == 0b10_110_11 {
            Ok(OpcodeType::Custom2)
        } else if value == 0b11_000_11 {
            Ok(OpcodeType::Branch)
        } else if value == 0b11_001_11 {
            Ok(OpcodeType::Jalr)
        } else if value == 0b11_010_11 {
            Ok(OpcodeType::Reserved1)
        } else if value == 0b11_011_11 {
            Ok(OpcodeType::Jal)
        } else if value == 0b11_100_11 {
            Ok(OpcodeType::System)
        } else if value == 0b11_101_11 {
            Ok(OpcodeType::Reserved2)
        } else if value == 0b11_110_11 {
            Ok(OpcodeType::Custom3)
        } else {
            Err(InstrError::UnknownOpcode(value))
        }
    }
}

/// The opcode with the code `value`, if the map has one.
pub open spec fn opcode_of(value: u64) -> Option<OpcodeType> {
    if exists|opcode: OpcodeType| opcode.code() == value {
        Some(choose|opcode: OpcodeType| opcode.code() == value)
    } else {
        None
    }
}

/// No two opcodes share a code.
pub proof fn lemma_code_is_injective(a: OpcodeType, b: OpcodeType)
    requires
        a.code() == b.code(),
    ensures
        a == b,
{
}

impl BitFieldType for OpcodeType {
    open spec fn text(value: u64, size: usize) -> Seq<char> {
        match opcode_of(value) {
            Some(opcode) => opcode.mnemonic(),
            None => "\x1b[33mInvalid base opcode (0x"@ + padded_digits(value as nat, 16, 2)
                + ")\x1b[0m"@,
        }
    }

    fn decode(value: u64, _size: usize) -> (shown: String) {
        match OpcodeType::try_from(value) {
            Ok(opcode) => {
                proof {
                    lemma_code_is_injective(opcode, opcode_of(value).unwrap());
                }
                String::from_str(opcode.name())
            },
            Err(_) => {
                let mut shown = String::from_str("\x1b[33mInvalid base opcode (0x");
                push_padded_digits(&mut shown, value, 16, 2);
                shown.append(")\x1b[0m");
                shown
            },
        }
    }
}

} // verus!
