//! Extraction of a single bit or an inclusive range of bits from an unsigned
//! machine word.
//!
//! Bit positions count from the least significant bit, which is bit 0. The
//! contracts speak of words as natural numbers: bit `i` of `v` is
//! `(v / 2^i) % 2`, and the bits `start..=end` of `v`, right-aligned, are
//! `(v / 2^start) % 2^(end - start + 1)`.
use crate::text::{padded_digits, push_padded_digits};
use vstd::arithmetic::div_mod::{
    lemma_breakdown, lemma_div_denominator, lemma_div_multiples_vanish,
    lemma_fundamental_div_mod_converse_div, lemma_mod_bound, lemma_mul_mod_noop_right,
    lemma_small_mod, lemma_truncate_middle,
};
use vstd::arithmetic::mul::{lemma_mul_is_commutative, lemma_mul_strict_inequality};
use vstd::arithmetic::power2::{
    lemma2_to64, lemma2_to64_rest, lemma_pow2_adds, lemma_pow2_pos, lemma_pow2_strictly_increases,
    lemma_pow2_unfold, pow2,
};
use vstd::bits::{
    lemma_u16_shr_is_div, lemma_u32_shr_is_div, lemma_u64_shl_is_mul, lemma_u64_shr_is_div,
    lemma_u8_shr_is_div,
};
use vstd::prelude::*;

verus! {

/// Bit `index` of `value`: 0 or 1.
pub open spec fn bit_of(value: nat, index: nat) -> nat {
    (value / pow2(index)) % 2
}

/// Bits `start..=end` of `value`, moved down so that bit `start` lands on bit 0.
pub open spec fn bits_of(value: nat, start: nat, end: nat) -> nat
    recommends
        start <= end,
{
    (value / pow2(start)) % pow2((end - start + 1) as nat)
}

/// An unsigned machine word of a fixed number of bits.
///
/// A left shift drops the bits that leave the word at the top; a right shift
/// fills with zeros.
pub trait Word: Copy + Sized {
    /// The number of bits of the representation.
    spec fn width() -> nat;

    /// The number that the word stands for.
    spec fn as_nat(self) -> nat;

    /// The position of the most significant bit.
    fn last_bit() -> (n: usize)
        ensures
            n + 1 == Self::width(),
    ;

    /// `self << n`, with the bits above the word discarded.
    fn shift_left(self, n: usize) -> (r: Self)
        requires
            n < Self::width(),
        ensures
            r.as_nat() == (self.as_nat() * pow2(n as nat)) % pow2(Self::width()),
    ;

    /// `self >> n`.
    fn shift_right(self, n: usize) -> (r: Self)
        requires
            n < Self::width(),
        ensures
            r.as_nat() == self.as_nat() / pow2(n as nat),
    ;
}

impl Word for u8 {
    open spec fn width() -> nat {
        8
    }

    open spec fn as_nat(self) -> nat {
        self as nat
    }

    fn last_bit() -> (n: usize) {
        7
    }

    fn shift_left(self, n: usize) -> (r: Self) {
        let r = self << n;
        proof {
            let wide = (self as u64) << (n as u64);
            lemma2_to64();
            lemma_u64_pow2_below(n as nat, 8);
            lemma_mul_strict_inequality(self as int, 0x100, pow2(n as nat) as int);
            lemma_u64_shl_is_mul(self as u64, n as u64);
            assert(r == (wide & 0xff) as u8) by (bit_vector)
                requires
                    n < 8,
                    r == self << n,
                    wide == (self as u64) << (n as u64),
            ;
            assert(wide & 0xff == wide % 0x100) by (bit_vector);
            assert(Self::width() == 8 && self.as_nat() == self as nat && r.as_nat() == r as nat);
        }
        r
    }

    fn shift_right(self, n: usize) -> (r: Self) {
        proof {
            lemma_u8_shr_is_div(self, n as u8);
        }
        self >> n
    }
}

impl Word for u16 {
    open spec fn width() -> nat {
        16
    }

    open spec fn as_nat(self) -> nat {
        self as nat
    }

    fn last_bit() -> (n: usize) {
        15
    }

    fn shift_left(self, n: usize) -> (r: Self) {
        let r = self << n;
        proof {
            let wide = (self as u64) << (n as u64);
            lemma2_to64();
            lemma_u64_pow2_below(n as nat, 16);
            lemma_mul_strict_inequality(self as int, 0x1_0000, pow2(n as nat) as int);
            lemma_u64_shl_is_mul(self as u64, n as u64);
            assert(r == (wide & 0xffff) as u16) by (bit_vector)
                requires
                    n < 16,
                    r == self << n,
                    wide == (self as u64) << (n as u64),
            ;
            assert(wide & 0xffff == wide % 0x1_0000) by (bit_vector);
            assert(Self::width() == 16 && self.as_nat() == self as nat && r.as_nat() == r as nat);
        }
        r
    }

    fn shift_right(self, n: usize) -> (r: Self) {
        proof {
            lemma_u16_shr_is_div(self, n as u16);
        }
        self >> n
    }
}

impl Word for u32 {
    open spec fn width() -> nat {
        32
    }

    open spec fn as_nat(self) -> nat {
        self as nat
    }

    fn last_bit() -> (n: usize) {
        31
    }

    fn shift_left(self, n: usize) -> (r: Self) {
        let r = self << n;
        proof {
            let wide = (self as u64) << (n as u64);
            lemma2_to64();
            lemma_u64_pow2_below(n as nat, 32);
            lemma_mul_strict_inequality(self as int, 0x1_0000_0000, pow2(n as nat) as int);
            lemma_u64_shl_is_mul(self as u64, n as u64);
            assert(r == (wide & 0xffff_ffff) as u32) by (bit_vector)
                requires
                    n < 32,
                    r == self << n,
                    wide == (self as u64) << (n as u64),
            ;
            assert(wide & 0xffff_ffff == wide % 0x1_0000_0000) by (bit_vector);
            assert(Self::width() == 32 && self.as_nat() == self as nat && r.as_nat() == r as nat);
        }
        r
    }

    fn shift_right(self, n: usize) -> (r: Self) {
        proof {
            lemma_u32_shr_is_div(self, n as u32);
        }
        self >> n
    }
}

impl Word for u64 {
    open spec fn width() -> nat {
        64
    }

    open spec fn as_nat(self) -> nat {
        self as nat
    }

    fn last_bit() -> (n: usize) {
        63
    }

    fn shift_left(self, n: usize) -> (r: Self) {
        assert(Self::width() == 64);
        let r = self << n;
        proof {
            lemma_u64_shl_wraps(self, n as u64);
            lemma2_to64_rest();
            assert(self.as_nat() == self as nat && r.as_nat() == r as nat);
            assert(pow2(Self::width()) == 0x1_0000_0000_0000_0000);
        }
        r
    }

    fn shift_right(self, n: usize) -> (r: Self) {
        proof {
            lemma_u64_shr_is_div(self, n as u64);
        }
        self >> n
    }
}

/// For `n < limit <= 32`, a word below `2^limit` times `2^n` fits in 64 bits.
proof fn lemma_u64_pow2_below(n: nat, limit: nat)
    requires
        n < limit <= 32,
    ensures
        0 < pow2(n) < 0x1_0000_0000,
{
    lemma_pow2_pos(n);
    lemma2_to64();
    lemma_pow2_strictly_increases(n, 32);
}

/// A left shift of a 64-bit word multiplies by a power of two modulo `2^64`.
proof fn lemma_u64_shl_wraps(x: u64, n: u64)
    requires
        n < 64,
    ensures
        (x << n) as nat == (x as nat * pow2(n as nat)) % 0x1_0000_0000_0000_0000,
    decreases n,
{
    if n == 0 {
        assert(x << 0u64 == x) by (bit_vector);
        lemma2_to64();
        assert(x as nat * pow2(0) == x as nat);
    } else {
        let m = (n - 1) as u64;
        let y = x << m;
        lemma_u64_shl_wraps(x, m);
        assert(x << n == y << 1u64) by (bit_vector)
            requires
                m < 63,
                n == m + 1,
                y == x << m,
        ;
        assert(y < 0x8000_0000_0000_0000 ==> y << 1u64 == 2 * y) by (bit_vector);
        assert(y >= 0x8000_0000_0000_0000 ==> y << 1u64 == 2 * (y - 0x8000_0000_0000_0000))
            by (bit_vector);
        assert((y << 1u64) as int == (2 * y) % 0x1_0000_0000_0000_0000);
        let prev = x as int * pow2(m as nat);
        lemma_mul_mod_noop_right(2, prev, 0x1_0000_0000_0000_0000);
        lemma_pow2_unfold(n as nat);
        assert(2 * prev == x as int * pow2(n as nat)) by (nonlinear_arith)
            requires
                prev == x as int * pow2(m as nat),
                pow2(n as nat) == 2 * pow2(m as nat),
        ;
        assert(y as int == prev % 0x1_0000_0000_0000_0000);
        assert((x << n) as int == (2 * prev) % 0x1_0000_0000_0000_0000);
    }
}

/// Shifting left by `width - 1 - end` and then right by
/// `width - 1 - end + start` leaves the bits `start..=end`, right-aligned.
pub proof fn lemma_shift_pair_extracts(value: nat, width: nat, start: nat, end: nat)
    requires
        start <= end < width,
    ensures
        ((value * pow2((width - 1 - end) as nat)) % pow2(width)) / pow2(
            (width - 1 - end + start) as nat,
        ) == bits_of(value, start, end),
{
    let up = (width - 1 - end) as nat;
    let keep = (end + 1) as nat;
    let span = (end - start + 1) as nat;
    let a = pow2(up) as int;
    let m = pow2(keep) as int;
    let y = pow2(start) as int;
    let z = pow2(span) as int;
    lemma_pow2_pos(up);
    lemma_pow2_pos(keep);
    lemma_pow2_pos(start);
    lemma_pow2_pos(span);
    lemma_pow2_adds(up, keep);
    lemma_pow2_adds(up, start);
    lemma_pow2_adds(start, span);
    let low = (value as int) % m;
    // The left shift keeps the low `end + 1` bits, moved up.
    lemma_truncate_middle(value as int, a, m);
    lemma_mul_is_commutative(value as int, a);
    assert((value * pow2(up)) % pow2(width) == a * low);
    // The right shift first undoes the move up, then drops `start` bits.
    lemma_mod_bound(value as int, m);
    vstd::arithmetic::mul::lemma_mul_nonnegative(a, low);
    lemma_div_denominator(a * low, a, y);
    lemma_div_multiples_vanish(low, a);
    assert((a * low) / (a * y) == low / y);
    // Dropping `start` bits of the low `end + 1` bits leaves `span` bits.
    lemma_breakdown(value as int, y, z);
    let q = ((value as int) / y) % z;
    let r = (value as int) % y;
    lemma_mod_bound(value as int, y);
    lemma_mul_is_commutative(y, q);
    lemma_fundamental_div_mod_converse_div(low, y, q, r);
}

/// The bit of `value` at position `index`, as 0 or 1.
pub fn get_bit<I: Word>(value: I, index: usize) -> (bit: I)
    requires
        index < I::width(),
    ensures
        bit.as_nat() == bit_of(value.as_nat(), index as nat),
        bit.as_nat() <= 1,
{
    let lastbit = I::last_bit();
    let shifted = value.shift_left(lastbit - index);
    let bit = shifted.shift_right(lastbit);
    proof {
        lemma_shift_pair_extracts(value.as_nat(), I::width(), index as nat, index as nat);
        lemma2_to64();
    }
    bit
}

/// The bits of `value` between positions `start` and `end`, both included,
/// right-aligned to bit 0.
pub fn get_bits<I: Word>(value: I, start: usize, end: usize) -> (bits: I)
    requires
        start <= end < I::width(),
    ensures
        bits.as_nat() == bits_of(value.as_nat(), start as nat, end as nat),
        bits.as_nat() < pow2((end - start + 1) as nat),
{
    let lastbit = I::last_bit();
    let shifted = value.shift_left(lastbit - end);
    let bits = shifted.shift_right(lastbit - end + start);
    proof {
        lemma_shift_pair_extracts(value.as_nat(), I::width(), start as nat, end as nat);
        lemma_pow2_pos((end - start + 1) as nat);
        lemma_mod_bound(
            (value.as_nat() / pow2(start as nat)) as int,
            pow2((end - start + 1) as nat) as int,
        );
    }
    bits
}

/// A pattern that fits in the span `start..=end`, placed there with zeros
/// everywhere else, is read back unchanged, and the word that holds it fits
/// in `end + 1` bits.
pub proof fn lemma_get_bits_of_placed_pattern(pattern: nat, start: nat, end: nat)
    requires
        start <= end,
        pattern < pow2((end - start + 1) as nat),
    ensures
        pattern * pow2(start) < pow2(end + 1),
        bits_of(pattern * pow2(start), start, end) == pattern,
{
    let span = (end - start + 1) as nat;
    lemma_pow2_pos(start);
    lemma_pow2_adds(span, start);
    lemma_mul_strict_inequality(pattern as int, pow2(span) as int, pow2(start) as int);
    lemma_mul_is_commutative(pattern as int, pow2(start) as int);
    lemma_div_multiples_vanish(pattern as int, pow2(start) as int);
    lemma_small_mod(pattern, pow2(span));
}

/// A span of one bit is that bit.
pub proof fn lemma_get_bits_single(value: nat, index: nat)
    ensures
        bits_of(value, index, index) == bit_of(value, index),
{
    lemma2_to64();
}

/// The bits of a span within a 64-bit word fit in the width of the span, and
/// so in 64 bits.
pub proof fn lemma_bits_of_bounded(value: u64, start: nat, end: nat)
    requires
        start <= end <= 63,
    ensures
        bits_of(value as nat, start, end) < pow2((end - start + 1) as nat),
        bits_of(value as nat, start, end) <= u64::MAX,
{
    let span = (end - start + 1) as nat;
    lemma_pow2_pos(span);
    lemma_pow2_pos(start);
    lemma_mod_bound((value as nat / pow2(start)) as int, pow2(span) as int);
    lemma2_to64_rest();
    if span < 64 {
        lemma_pow2_strictly_increases(span, 64);
    }
}

/// A bit field of a 64-bit word, without a rule for showing it: the bits
/// `START..=END` of the word it was made from.
///
/// `START <= END <= 63` holds of every field that exists, and its value fits
/// in its `END - START + 1` bits.
pub struct BitField<const START: usize, const END: usize>(u64);

impl<const S: usize, const E: usize> BitField<S, E> {
    #[verifier::type_invariant]
    spec fn well_formed(self) -> bool {
        &&& S <= E <= 63
        &&& self.0 < pow2((E - S + 1) as nat)
    }

    /// The value that the field holds.
    pub closed spec fn view(&self) -> u64 {
        self.0
    }

    /// The width of the field in bits.
    pub open spec fn width() -> nat {
        (E - S + 1) as nat
    }

    /// The field that holds the bits `START..=END` of `value`.
    pub closed spec fn decoded(value: u64) -> Self {
        BitField(bits_of(value as nat, S as nat, E as nat) as u64)
    }

    /// The field that holds `value`, whatever word it came from.
    pub closed spec fn holding(value: u64) -> Self {
        BitField(value)
    }

    /// A field made from a word holds the bits `START..=END` of that word.
    pub proof fn lemma_decoded(value: u64)
        requires
            S <= E <= 63,
        ensures
            Self::decoded(value)@ == bits_of(value as nat, S as nat, E as nat),
            Self::decoded(value)@ < pow2(Self::width()),
            Self::decoded(value) == Self::holding(Self::decoded(value)@),
    {
        lemma_bits_of_bounded(value, S as nat, E as nat);
    }

    /// A field that holds `value` holds it.
    pub proof fn lemma_holding(value: u64)
        ensures
            Self::holding(value)@ == value,
    {
    }

    /// Makes the field from the raw word `value`.
    pub fn new(value: u64) -> (field: Self)
        requires
            S <= E <= 63,
        ensures
            field == Self::decoded(value),
            field@ == bits_of(value as nat, S as nat, E as nat),
    {
        proof {
            lemma_bits_of_bounded(value, S as nat, E as nat);
            lemma_get_bits_single(value as nat, S as nat);
        }
        if Self::size() == 1 {
            BitField(get_bit(value, S))
        } else {
            BitField(get_bits(value, S, E))
        }
    }

    /// Makes the field from the raw word `value`, as [`BitField::new`] does.
    pub fn from(value: u64) -> (field: Self)
        requires
            S <= E <= 63,
        ensures
            field == Self::decoded(value),
            field@ == bits_of(value as nat, S as nat, E as nat),
    {
        Self::new(value)
    }

    /// The width of the field in bits.
    pub fn size() -> (bits: usize)
        requires
            S <= E,
            E - S < usize::MAX,
        ensures
            bits == Self::width(),
    {
        E - S + 1
    }

    /// Replaces the value of the field by `value`, which has to fit in a
    /// field that is less than 64 bits wide.
    pub fn set_value(&mut self, value: u64)
        requires
            Self::width() < 64,
            value < pow2(Self::width()),
        ensures
            *final(self) == Self::holding(value),
            final(self)@ == value,
    {
        proof {
            use_type_invariant(&*self);
        }
        self.0 = value;
    }

    /// The value of the field.
    pub fn value(&self) -> (value: u64)
        ensures
            value == self@,
            value < pow2(Self::width()),
            S <= E <= 63,
    {
        proof {
            use_type_invariant(self);
        }
        self.0
    }

    /// The text that shows the field: a binary literal as wide as the field.
    pub open spec fn text(&self) -> Seq<char> {
        "0b"@ + padded_digits(self@ as nat, 2, Self::width())
    }

    /// Shows the field.
    pub fn format(&self) -> (shown: String)
        ensures
            shown@ == self.text(),
    {
        let value = self.value();
        let mut shown = String::from_str("0b");
        push_padded_digits(&mut shown, value, 2, Self::size());
        shown
    }
}

} // verus!
