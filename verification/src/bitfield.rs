//! The typed bit field and the rules by which a field's value is shown.
//!
//! A [`BitField`] carries its span in its type, `START..=END`, together with
//! the rule `T` that turns the extracted value into text. A rule is a type
//! that implements [`BitFieldType`]; it is a function of the value and of the
//! field's width alone, and it answers every value: one that the rule does
//! not know is shown as a warning, in yellow on a terminal.
use crate::bit::{bit_of, bits_of, lemma_bits_of_bounded, lemma_get_bits_single, Word};
pub use crate::bit::{get_bit, get_bits};
use crate::text::{
    binary, decimal, hex, padded_digits, push_binary, push_decimal, push_hex, push_padded_digits,
};
use std::marker::PhantomData;
use vstd::arithmetic::div_mod::lemma_mod_multiples_basic;
use vstd::arithmetic::mul::{lemma_mul_is_associative, lemma_mul_is_commutative};
use vstd::arithmetic::power2::{lemma2_to64_rest, lemma_pow2_adds, pow2};
use vstd::prelude::*;

verus! {

/// A rule that shows the value of a bit field as text.
pub trait BitFieldType {
    /// The text for `value`, taken from a field `size` bits wide.
    spec fn text(value: u64, size: usize) -> Seq<char>;

    /// Shows `value`, taken from a field `size` bits wide.
    fn decode(value: u64, size: usize) -> (shown: String)
        ensures
            shown@ == Self::text(value, size),
    ;
}

/// `value << n` on 64 bits: the bits that leave at the top are lost, and a
/// shift by 64 or more leaves nothing.
pub open spec fn shifted_left(value: u64, n: nat) -> u64 {
    ((value as nat * pow2(n)) % pow2(64)) as u64
}

/// Computes [`shifted_left`].
pub fn shift_left(value: u64, n: usize) -> (r: u64)
    ensures
        r == shifted_left(value, n as nat),
{
    proof {
        lemma2_to64_rest();
    }
    if n < 64 {
        value.shift_left(n)
    } else {
        proof {
            let rest = (n - 64) as nat;
            lemma_pow2_adds(64, rest);
            lemma_mul_is_commutative(pow2(64) as int, pow2(rest) as int);
            lemma_mul_is_associative(value as int, pow2(rest) as int, pow2(64) as int);
            lemma_mod_multiples_basic(value as int * pow2(rest) as int, pow2(64) as int);
        }
        0
    }
}

/// Binary, padded with zeros to the width of the field.
pub struct Bin;

impl BitFieldType for Bin {
    open spec fn text(value: u64, size: usize) -> Seq<char> {
        "0b"@ + padded_digits(value as nat, 2, size as nat)
    }

    fn decode(value: u64, size: usize) -> (shown: String) {
        let mut shown = String::from_str("0b");
        push_padded_digits(&mut shown, value, 2, size);
        shown
    }
}

/// `false` for 0 and `true` for 1.
pub struct Bool;

impl BitFieldType for Bool {
    open spec fn text(value: u64, size: usize) -> Seq<char> {
        if value == 0 {
            "false"@
        } else if value == 1 {
            "true"@
        } else {
            "\x1b[33mCould not represent "@ + binary(value as nat) + " as boolean\x1b[0m"@
        }
    }

    fn decode(value: u64, _size: usize) -> (shown: String) {
        if value == 0 {
            String::from_str("false")
        } else if value == 1 {
            String::from_str("true")
        } else {
            let mut shown = String::from_str("\x1b[33mCould not represent ");
            push_binary(&mut shown, value);
            shown.append(" as boolean\x1b[0m");
            shown
        }
    }
}

/// Hexadecimal, in lower case and without padding.
pub struct Hex;

impl BitFieldType for Hex {
    open spec fn text(value: u64, size: usize) -> Seq<char> {
        hex(value as nat)
    }

    fn decode(value: u64, _size: usize) -> (shown: String) {
        let mut shown = String::new();
        push_hex(&mut shown, value);
        shown
    }
}

/// Decimal.
pub struct Dec;

impl BitFieldType for Dec {
    open spec fn text(value: u64, size: usize) -> Seq<char> {
        decimal(value as nat)
    }

    fn decode(value: u64, _size: usize) -> (shown: String) {
        let mut shown = String::new();
        push_decimal(&mut shown, value);
        shown
    }
}

/// A warning: `before`, the value as a binary literal, `after`.
pub open spec fn binary_warning(before: Seq<char>, value: u64, after: Seq<char>) -> Seq<char> {
    before + binary(value as nat) + after
}

/// Builds a [`binary_warning`].
fn warn_binary(before: &str, value: u64, after: &str) -> (shown: String)
    ensures
        shown@ == binary_warning(before@, value, after@),
{
    let mut shown = String::from_str(before);
    push_binary(&mut shown, value);
    shown.append(after);
    shown
}

/// The base integer width of a hart: `RV32`, `RV64` or `RV128`.
pub struct Arch;

impl BitFieldType for Arch {
    open spec fn text(value: u64, size: usize) -> Seq<char> {
        if value == 1 {
            "RV32"@
        } else if value == 2 {
            "RV64"@
        } else if value == 3 {
            "RV128"@
        } else {
            binary_warning("\x1b[33mInvalid architecture ("@, value, ")\x1b[0m"@)
        }
    }

    fn decode(value: u64, _size: usize) -> (shown: String) {
        if value == 1 {
            String::from_str("RV32")
        } else if value == 2 {
            String::from_str("RV64")
        } else if value == 3 {
            String::from_str("RV128")
        } else {
            warn_binary("\x1b[33mInvalid architecture (", value, ")\x1b[0m")
        }
    }
}

/// A privilege level: `User`, `Supervisor` or `Machine`. The encoding 2 is
/// reserved.
pub struct Priv;

impl BitFieldType for Priv {
    open spec fn text(value: u64, size: usize) -> Seq<char> {
        if value == 0 {
            "User"@
        } else if value == 1 {
            "Supervisor"@
        } else if value == 3 {
            "Machine"@
        } else {
            binary_warning("\x1b[33mInvalid privilege ("@, value, ")\x1b[0m"@)
        }
    }

    fn decode(value: u64, _size: usize) -> (shown: String) {
        if value == 0 {
            String::from_str("User")
        } else if value == 1 {
            String::from_str("Supervisor")
        } else if value == 3 {
            String::from_str("Machine")
        } else {
            warn_binary("\x1b[33mInvalid privilege (", value, ")\x1b[0m")
        }
    }
}

/// An address translation and protection mode: `Bare`, `Sv32`, `Sv39`, `Sv48`
/// or `Sv57`.
pub struct Atp;

impl BitFieldType for Atp {
    open spec fn text(value: u64, size: usize) -> Seq<char> {
        if value == 0x0 {
            "Bare"@
        } else if value == 0x1 {
            "Sv32"@
        } else if value == 0x8 {
            "Sv39"@
        } else if value == 0x9 {
            "Sv48"@
        } else if value == 0xa {
            "Sv57"@
        } else {
            binary_warning("\x1b[33mInvalid address translation mode ("@, value, ")\x1b[0m"@)
        }
    }

    fn decode(value: u64, _size: usize) -> (shown: String) {
        if value == 0x0 {
            String::from_str("Bare")
        } else if value == 0x1 {
            String::from_str("Sv32")
        } else if value == 0x8 {
            String::from_str("Sv39")
        } else if value == 0x9 {
            String::from_str("Sv48")
        } else if value == 0xa {
            String::from_str("Sv57")
        } else {
            warn_binary("\x1b[33mInvalid address translation mode (", value, ")\x1b[0m")
        }
    }
}

/// A trap vector mode: `Direct` or `Vectored`.
pub struct Tvec;

impl BitFieldType for Tvec {
    open spec fn text(value: u64, size: usize) -> Seq<char> {
        if value == 0 {
            "Direct"@
        } else if value == 1 {
            "Vectored"@
        } else {
            binary_warning("\x1b[33mInvalid ("@, value, ")\x1b[0m"@)
        }
    }

    fn decode(value: u64, _size: usize) -> (shown: String) {
        if value == 0 {
            String::from_str("Direct")
        } else if value == 1 {
            String::from_str("Vectored")
        } else {
            warn_binary("\x1b[33mInvalid (", value, ")\x1b[0m")
        }
    }
}

/// The cause of a trap. The rule reads a whole cause register: bit 63 says
/// whether the trap was an interrupt, and the bits below it hold the code.
pub struct ExcCode;

/// The name of the interrupt with the given code.
pub open spec fn interrupt_cause(code: nat) -> Option<Seq<char>> {
    if code == 1 {
        Some("Supervisor software interrupt"@)
    } else if code == 2 {
        Some("Virtual supervisor software interrupt"@)
    } else if code == 3 {
        Some("Machine software interrupt"@)
    } else if code == 5 {
        Some("Supervisor timer interrupt"@)
    } else if code == 6 {
        Some("Virtual supervisor timer interrupt"@)
    } else if code == 7 {
        Some("Machine timer interrupt"@)
    } else if code == 9 {
        Some("Supervisor external interrupt"@)
    } else if code == 10 {
        Some("Virtual supervisor external interrupt"@)
    } else if code == 11 {
        Some("Machine external interrupt"@)
    } else if code == 12 {
        Some("Supervisor guest external interrrupt"@)
    } else {
        None
    }
}

/// The name of the synchronous exception with the given code.
pub open spec fn exception_cause(code: nat) -> Option<Seq<char>> {
    if code == 0 {
        Some("Instruction address misaligned"@)
    } else if code == 1 {
        Some("Instruction access fault"@)
    } else if code == 2 {
        Some("Illegal instruction"@)
    } else if code == 3 {
        Some("Breakpoint"@)
    } else if code == 4 {
        Some("Load address misaligned"@)
    } else if code == 5 {
        Some("Load access fault"@)
    } else if code == 6 {
        Some("Store/AMO address misaligned"@)
    } else if code == 7 {
        Some("Store/AMO access fault"@)
    } else if code == 8 {
        Some("Environment call from U-mode"@)
    } else if code == 9 {
        Some("Environment call from HS-mode"@)
    } else if code == 10 {
        Some("Environment call from VS-mode"@)
    } else if code == 11 {
        Some("Environment call from M-mode"@)
    } else if code == 12 {
        Some("Instruction page fault"@)
    } else if code == 13 {
        Some("Load page fault"@)
    } else if code == 15 {
        Some("Store/AMO page fault"@)
    } else if code == 20 {
        Some("Instruction guest-page fault"@)
    } else if code == 21 {
        Some("Load guest-page fault"@)
    } else if code == 22 {
        Some("Virtual instruction"@)
    } else if code == 23 {
        Some("Store/AMO guest-page fault"@)
    } else {
        None
    }
}

/// The text for a trap cause: its name, or a warning that gives the code in
/// base ten where the code has no name.
pub open spec fn cause_text(interrupt: bool, code: nat) -> Seq<char> {
    let name = if interrupt {
        interrupt_cause(code)
    } else {
        exception_cause(code)
    };
    match name {
        Some(name) => name,
        None => "\x1b[33mUnknown exception code ("@ + decimal(code) + ")\x1b[0m"@,
    }
}

/// Looks up [`interrupt_cause`].
fn interrupt_name(code: u64) -> (name: Option<&'static str>)
    ensures
        match name {
            Some(name) => interrupt_cause(code as nat) == Some(name@),
            None => interrupt_cause(code as nat) is None,
        },
{
    if code == 1 {
        Some("Supervisor software interrupt")
    } else if code == 2 {
        Some("Virtual supervisor software interrupt")
    } else if code == 3 {
        Some("Machine software interrupt")
    } else if code == 5 {
        Some("Supervisor timer interrupt")
    } else if code == 6 {
        Some("Virtual supervisor timer interrupt")
    } else if code == 7 {
        Some("Machine timer interrupt")
    } else if code == 9 {
        Some("Supervisor external interrupt")
    } else if code == 10 {
        Some("Virtual supervisor external interrupt")
    } else if code == 11 {
        Some("Machine external interrupt")
    } else if code == 12 {
        Some("Supervisor guest external interrrupt")
    } else {
        None
    }
}

/// Looks up [`exception_cause`].
fn exception_name(code: u64) -> (name: Option<&'static str>)
    ensures
        match name {
            Some(name) => exception_cause(code as nat) == Some(name@),
            None => exception_cause(code as nat) is None,
        },
{
    if code == 0 {
        Some("Instruction address misaligned")
    } else if code == 1 {
        Some("Instruction access fault")
    } else if code == 2 {
        Some("Illegal instruction")
    } else if code == 3 {
        Some("Breakpoint")
    } else if code == 4 {
        Some("Load address misaligned")
    } else if code == 5 {
        Some("Load access fault")
    } else if code == 6 {
        Some("Store/AMO address misaligned")
    } else if code == 7 {
        Some("Store/AMO access fault")
    } else if code == 8 {
        Some("Environment call from U-mode")
    } else if code == 9 {
        Some("Environment call from HS-mode")
    } else if code == 10 {
        Some("Environment call from VS-mode")
    } else if code == 11 {
        Some("Environment call from M-mode")
    } else if code == 12 {
        Some("Instruction page fault")
    } else if code == 13 {
        Some("Load page fault")
    } else if code == 15 {
        Some("Store/AMO page fault")
    } else if code == 20 {
        Some("Instruction guest-page fault")
    } else if code == 21 {
        Some("Load guest-page fault")
    } else if code == 22 {
        Some("Virtual instruction")
    } else if code == 23 {
        Some("Store/AMO guest-page fault")
    } else {
        None
    }
}

impl BitFieldType for ExcCode {
    open spec fn text(value: u64, size: usize) -> Seq<char> {
        cause_text(bit_of(value as nat, 63) == 1, bits_of(value as nat, 0, 62))
    }

    fn decode(value: u64, _size: usize) -> (shown: String) {
        let interrupt = get_bit(value, 63);
        let code = get_bits(value, 0, 62);
        let name = if interrupt == 1 {
            interrupt_name(code)
        } else {
            exception_name(code)
        };
        match name {
            Some(name) => String::from_str(name),
            None => {
                let mut shown = String::from_str("\x1b[33mUnknown exception code (");
                push_decimal(&mut shown, code);
                shown.append(")\x1b[0m");
                shown
            },
        }
    }
}

/// A physical page number under the translation scheme `ATP`, which is 32,
/// 39, 48 or 57: the number split into the parts that the levels of the page
/// table use, highest first, then the physical address of the page.
pub struct Ppn<const ATP: usize>;

/// One part of a page number, with the space that follows it.
pub open spec fn ppn_part(value: u64, start: nat, end: nat) -> Seq<char> {
    hex(bits_of(value as nat, start, end)) + " "@
}

/// The address of page `value`: the number moved up by the twelve bits of
/// the offset within a page.
pub open spec fn page_address(value: u64) -> Seq<char> {
    "-> "@ + hex(shifted_left(value, 12) as nat)
}

/// Appends a [`ppn_part`].
fn push_ppn_part(out: &mut String, value: u64, start: usize, end: usize)
    requires
        start <= end <= 63,
    ensures
        final(out)@ == old(out)@ + ppn_part(value, start as nat, end as nat),
{
    push_hex(out, get_bits(value, start, end));
    out.append(" ");
    assert(out@ =~= old(out)@ + ppn_part(value, start as nat, end as nat));
}

/// Appends a [`page_address`].
fn push_page_address(out: &mut String, value: u64)
    ensures
        final(out)@ == old(out)@ + page_address(value),
{
    out.append("-> ");
    push_hex(out, shift_left(value, 12));
    assert(out@ =~= old(out)@ + page_address(value));
}

impl BitFieldType for Ppn<32> {
    open spec fn text(value: u64, size: usize) -> Seq<char> {
        ppn_part(value, 10, 21) + ppn_part(value, 0, 9) + page_address(value)
    }

    fn decode(value: u64, _size: usize) -> (shown: String) {
        let mut shown = String::new();
        push_ppn_part(&mut shown, value, 10, 21);
        push_ppn_part(&mut shown, value, 0, 9);
        push_page_address(&mut shown, value);
        assert(shown@ =~= Self::text(value, _size));
        shown
    }
}

impl BitFieldType for Ppn<39> {
    open spec fn text(value: u64, size: usize) -> Seq<char> {
        ppn_part(value, 18, 43) + ppn_part(value, 9, 17) + ppn_part(value, 0, 8) + page_address(
            value,
        )
    }

    fn decode(value: u64, _size: usize) -> (shown: String) {
        let mut shown = String::new();
        push_ppn_part(&mut shown, value, 18, 43);
        push_ppn_part(&mut shown, value, 9, 17);
        push_ppn_part(&mut shown, value, 0, 8);
        push_page_address(&mut shown, value);
        assert(shown@ =~= Self::text(value, _size));
        shown
    }
}

impl BitFieldType for Ppn<48> {
    open spec fn text(value: u64, size: usize) -> Seq<char> {
        ppn_part(value, 27, 43) + ppn_part(value, 18, 26) + ppn_part(value, 9, 17) + ppn_part(
            value,
            0,
            8,
        ) + page_address(value)
    }

    fn decode(value: u64, _size: usize) -> (shown: String) {
        let mut shown = String::new();
        push_ppn_part(&mut shown, value, 27, 43);
        push_ppn_part(&mut shown, value, 18, 26);
        push_ppn_part(&mut shown, value, 9, 17);
        push_ppn_part(&mut shown, value, 0, 8);
        push_page_address(&mut shown, value);
        assert(shown@ =~= Self::text(value, _size));
        shown
    }
}

impl BitFieldType for Ppn<57> {
    open spec fn text(value: u64, size: usize) -> Seq<char> {
        ppn_part(value, 36, 43) + ppn_part(value, 27, 35) + ppn_part(value, 18, 26) + ppn_part(
            value,
            9,
            17,
        ) + ppn_part(value, 0, 8) + page_address(value)
    }

    fn decode(value: u64, _size: usize) -> (shown: String) {
        let mut shown = String::new();
        push_ppn_part(&mut shown, value, 36, 43);
        push_ppn_part(&mut shown, value, 27, 35);
        push_ppn_part(&mut shown, value, 18, 26);
        push_ppn_part(&mut shown, value, 9, 17);
        push_ppn_part(&mut shown, value, 0, 8);
        push_page_address(&mut shown, value);
        assert(shown@ =~= Self::text(value, _size));
        shown
    }
}

/// A value that was stored shifted right by `N` bits: shown by the rule `T`
/// as it is stored, then as it is meant, which is shifted left by `N` bits.
pub struct RSh<const N: usize, T>(PhantomData<T>);

impl<const N: usize, T: BitFieldType> BitFieldType for RSh<N, T> {
    open spec fn text(value: u64, size: usize) -> Seq<char> {
        T::text(value, size) + " -> "@ + T::text(shifted_left(value, N as nat), size)
    }

    fn decode(value: u64, size: usize) -> (shown: String) {
        let mut shown = T::decode(value, size);
        shown.append(" -> ");
        let meant = T::decode(shift_left(value, N), size);
        shown.append(meant.as_str());
        shown
    }
}

/// A reserved field that is to hold `EXPECTED`: shown by the rule `T`, and
/// marked as a warning, with what was expected, where it holds anything
/// else.
pub struct Reserved<const EXPECTED: u64, T>(PhantomData<T>);

impl<const EXPECTED: u64, T: BitFieldType> BitFieldType for Reserved<EXPECTED, T> {
    open spec fn text(value: u64, size: usize) -> Seq<char> {
        if value == EXPECTED {
            T::text(value, size)
        } else {
            "\x1b[33m"@ + T::text(value, size) + " (reserved, expected "@ + T::text(
                EXPECTED,
                size,
            ) + ")\x1b[0m"@
        }
    }

    fn decode(value: u64, size: usize) -> (shown: String) {
        let found = T::decode(value, size);
        if value == EXPECTED {
            found
        } else {
            let mut shown = String::from_str("\x1b[33m");
            shown.append(found.as_str());
            shown.append(" (reserved, expected ");
            let expected = T::decode(EXPECTED, size);
            shown.append(expected.as_str());
            shown.append(")\x1b[0m");
            shown
        }
    }
}

/// The configuration byte of one physical memory protection entry: the lock
/// bit, the address matching mode, and the execute, write and read
/// permissions.
pub struct PmpXCfg;

/// The name of an address matching mode.
pub open spec fn pmp_mode(mode: nat) -> Seq<char> {
    if mode == 0 {
        "OFF"@
    } else if mode == 1 {
        "TOR"@
    } else if mode == 2 {
        "NA4"@
    } else {
        "NAPOT"@
    }
}

/// One flag of a configuration byte: `label` and the bit `index` of `value`.
pub open spec fn pmp_flag(label: Seq<char>, value: u64, index: nat) -> Seq<char> {
    label + decimal(bit_of(value as nat, index))
}

/// Appends a [`pmp_flag`].
fn push_pmp_flag(out: &mut String, label: &str, value: u64, index: usize)
    requires
        index <= 63,
    ensures
        final(out)@ == old(out)@ + pmp_flag(label@, value, index as nat),
{
    out.append(label);
    push_decimal(out, get_bit(value, index));
    assert(out@ =~= old(out)@ + pmp_flag(label@, value, index as nat));
}

impl BitFieldType for PmpXCfg {
    open spec fn text(value: u64, size: usize) -> Seq<char> {
        pmp_flag("L="@, value, 7) + " A="@ + pmp_mode(bits_of(value as nat, 3, 4)) + pmp_flag(
            " X="@,
            value,
            2,
        ) + pmp_flag(" W="@, value, 1) + pmp_flag(" R="@, value, 0)
    }

    fn decode(value: u64, _size: usize) -> (shown: String) {
        let mut shown = String::new();
        push_pmp_flag(&mut shown, "L=", value, 7);
        shown.append(" A=");
        let mode = get_bits(value, 3, 4);
        if mode == 0 {
            shown.append("OFF");
        } else if mode == 1 {
            shown.append("TOR");
        } else if mode == 2 {
            shown.append("NA4");
        } else {
            shown.append("NAPOT");
        }
        push_pmp_flag(&mut shown, " X=", value, 2);
        push_pmp_flag(&mut shown, " W=", value, 1);
        push_pmp_flag(&mut shown, " R=", value, 0);
        assert(shown@ =~= Self::text(value, _size));
        shown
    }
}

/// A bit field of a 64-bit word: the bits `START..=END` of the word it was
/// made from, shown by the rule `T`.
///
/// `START <= END <= 63` holds of every field that exists, and its value fits
/// in its `END - START + 1` bits.
pub struct BitField<T, const START: usize, const END: usize>(u64, PhantomData<T>);

impl<T, const S: usize, const E: usize> BitField<T, S, E> {
    #[verifier::type_invariant]
    spec fn well_formed(self) -> bool {
        &&& S <= E <= 63
        &&& self.0 < pow2((E - S + 1) as nat)
    }

    /// The value that the field holds.
    pub closed spec fn view(&self) -> u64 {
        self.0
    }

    /// The width of the field in bits.
    pub open spec fn width() -> nat {
        (E - S + 1) as nat
    }

    /// The field that holds the bits `START..=END` of `value`.
    pub closed spec fn decoded(value: u64) -> Self {
        BitField(bits_of(value as nat, S as nat, E as nat) as u64, PhantomData)
    }

    /// The field that holds `value`, whatever word it came from.
    pub closed spec fn holding(value: u64) -> Self {
        BitField(value, PhantomData)
    }

    /// A field made from a word holds the bits `START..=END` of that word.
    pub proof fn lemma_decoded(value: u64)
        requires
            S <= E <= 63,
        ensures
            Self::decoded(value)@ == bits_of(value as nat, S as nat, E as nat),
            Self::decoded(value)@ < pow2(Self::width()),
            Self::decoded(value) == Self::holding(Self::decoded(value)@),
    {
        lemma_bits_of_bounded(value, S as nat, E as nat);
    }

    /// A field that holds `value` holds it.
    pub proof fn lemma_holding(value: u64)
        ensures
            Self::holding(value)@ == value,
    {
    }

    /// Makes the field from the raw word `value`.
    pub fn new(value: u64) -> (field: Self)
        requires
            S <= E <= 63,
        ensures
            field == Self::decoded(value),
            field@ == bits_of(value as nat, S as nat, E as nat),
    {
        proof {
            lemma_bits_of_bounded(value, S as nat, E as nat);
            lemma_get_bits_single(value as nat, S as nat);
        }
        if Self::size() == 1 {
            BitField(get_bit(value, S), PhantomData)
        } else {
            BitField(get_bits(value, S, E), PhantomData)
        }
    }

    /// Makes the field from the raw word `value`, as [`BitField::new`] does.
    pub fn from(value: u64) -> (field: Self)
        requires
            S <= E <= 63,
        ensures
            field == Self::decoded(value),
            field@ == bits_of(value as nat, S as nat, E as nat),
    {
        Self::new(value)
    }

    /// The width of the field in bits.
    pub fn size() -> (bits: usize)
        requires
            S <= E,
            E - S < usize::MAX,
        ensures
            bits == Self::width(),
    {
        E - S + 1
    }

    /// Replaces the value of the field by `value`, which has to fit in a
    /// field that is less than 64 bits wide.
    pub fn set_value(&mut self, value: u64)
        requires
            Self::width() < 64,
            value < pow2(Self::width()),
        ensures
            *final(self) == Self::holding(value),
            final(self)@ == value,
    {
        proof {
            use_type_invariant(&*self);
        }
        self.0 = value;
    }

    /// The value of the field.
    pub fn value(&self) -> (value: u64)
        ensures
            value == self@,
            value < pow2(Self::width()),
            S <= E <= 63,
    {
        proof {
            use_type_invariant(self);
        }
        self.0
    }
}

impl<T: BitFieldType, const S: usize, const E: usize> BitField<T, S, E> {
    /// The text that shows the field: its value under the rule `T`.
    pub open spec fn text(&self) -> Seq<char> {
        T::text(self@, Self::width() as usize)
    }

    /// Shows the field.
    pub fn format(&self) -> (shown: String)
        ensures
            shown@ == self.text(),
    {
        let value = self.value();
        T::decode(value, Self::size())
    }
}

} // verus!
