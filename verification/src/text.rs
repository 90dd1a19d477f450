//! Text building blocks shared by the decoders and the registries: the digits
//! of a number in a radix, runs of one character, lower-casing, comparison
//! with a literal, and the reading of an unsigned number.
//!
//! All contracts speak of strings as sequences of characters.
use vstd::arithmetic::div_mod::{
    lemma_div_decreases, lemma_div_is_ordered_by_denominator, lemma_small_mod,
};
use vstd::arithmetic::power2::{lemma2_to64, lemma2_to64_rest, lemma_pow2_unfold, pow2};
use vstd::prelude::*;

verus! {

/// What this library takes on trust of `String::push` of the standard
/// library: after the call the string is what it was before, with `c` as one
/// more character at its end.
pub assume_specification[ String::push ](s: &mut String, c: char)
    ensures
        final(s)@ == old(s)@.push(c),
;

/// The character for one digit, lower case above 9.
pub open spec fn digit_char(d: nat) -> char
    recommends
        d < 16,
{
    if d < 10 {
        (0x30 + d) as char
    } else {
        (0x61 + d - 10) as char
    }
}

/// The digits of `n` in `radix`, most significant first, without leading
/// zeros; zero is the single digit `0`.
pub open spec fn digits(n: nat, radix: nat) -> Seq<char>
    recommends
        2 <= radix <= 16,
    decreases n,
{
    if radix < 2 || n < radix {
        seq![digit_char(n)]
    } else {
        proof {
            lemma_div_decreases(n as int, radix as int);
        }
        digits(n / radix, radix).push(digit_char(n % radix))
    }
}

/// The digits of `n` in `radix`, with zeros in front where they are fewer
/// than `width`.
pub open spec fn padded_digits(n: nat, radix: nat, width: nat) -> Seq<char> {
    let len = digits(n, radix).len();
    repeated('0', if width > len { (width - len) as nat } else { 0 }) + digits(n, radix)
}

/// `n` as a binary literal: `0b` and its binary digits.
pub open spec fn binary(n: nat) -> Seq<char> {
    "0b"@ + digits(n, 2)
}

/// `n` as a hexadecimal literal: `0x` and its lower-case hexadecimal digits.
pub open spec fn hex(n: nat) -> Seq<char> {
    "0x"@ + digits(n, 16)
}

/// `n` in base ten.
pub open spec fn decimal(n: nat) -> Seq<char> {
    digits(n, 10)
}

/// `count` copies of `c`.
pub open spec fn repeated(c: char, count: nat) -> Seq<char> {
    Seq::new(count, |i: int| c)
}

/// The lower-case form of an ASCII capital; every other character is itself.
pub open spec fn lower_char(c: char) -> char {
    if 'A' <= c <= 'Z' {
        ((c as u8) + 32) as char
    } else {
        c
    }
}

/// `s` with every ASCII capital replaced by its lower-case form.
pub open spec fn lower(s: Seq<char>) -> Seq<char> {
    Seq::new(s.len(), |i: int| lower_char(s[i]))
}

/// The value of `c` as a digit of `radix`, if it is one. Letters count from
/// ten, in either case.
pub open spec fn digit_value(c: char, radix: nat) -> Option<nat> {
    let d: nat = if '0' <= c <= '9' {
        (c as nat - 0x30) as nat
    } else if 'a' <= c <= 'z' {
        (c as nat - 0x61 + 10) as nat
    } else if 'A' <= c <= 'Z' {
        (c as nat - 0x41 + 10) as nat
    } else {
        radix
    };
    if d < radix {
        Some(d)
    } else {
        None
    }
}

/// Whether every character of `s` is a digit of `radix`.
pub open spec fn all_digits(s: Seq<char>, radix: nat) -> bool {
    forall|i: int| 0 <= i < s.len() ==> digit_value(#[trigger] s[i], radix) is Some
}

/// The number that the digits `s` spell in `radix`, most significant first.
pub open spec fn number_value(s: Seq<char>, radix: nat) -> nat
    decreases s.len(),
{
    if s.len() == 0 {
        0
    } else {
        let last = match digit_value(s.last(), radix) {
            Some(d) => d,
            None => 0,
        };
        number_value(s.drop_last(), radix) * radix + last
    }
}

/// The number that the digits `s` spell in `radix`, if `s` is one or more
/// digits and nothing else, and the number is at most `max`.
pub open spec fn parse_digits(s: Seq<char>, radix: nat, max: nat) -> Option<nat> {
    if s.len() > 0 && all_digits(s, radix) && number_value(s, radix) <= max {
        Some(number_value(s, radix))
    } else {
        None
    }
}

/// The number that `s` denotes in `radix`, if it is at most `max`: the digits
/// of [`parse_digits`], with one `+` before them at will.
pub open spec fn parse_unsigned(s: Seq<char>, radix: nat, max: nat) -> Option<nat> {
    if s.len() > 0 && s[0] == '+' {
        parse_digits(s.skip(1), radix, max)
    } else {
        parse_digits(s, radix, max)
    }
}

/// The number that `s` spells in base ten the usual way, without a sign and
/// without zeros in front, if it is at most `max`.
pub open spec fn parse_index(s: Seq<char>, max: nat) -> Option<nat> {
    if s.len() > 1 && s[0] == '0' {
        None
    } else {
        parse_digits(s, 10, max)
    }
}

/// Whether `s` begins with `prefix`.
pub open spec fn starts_with(s: Seq<char>, prefix: Seq<char>) -> bool {
    prefix.len() <= s.len() && s.take(prefix.len() as int) == prefix
}

/// One digit as a character.
fn digit_to_char(d: u8) -> (c: char)
    requires
        d < 16,
    ensures
        c == digit_char(d as nat),
{
    if d < 10 {
        (0x30 + d) as char
    } else {
        (0x61 + (d - 10)) as char
    }
}

/// Appends the digits of `value` in `radix` to `out`.
pub fn push_digits(out: &mut String, value: u64, radix: u64)
    requires
        2 <= radix <= 16,
    ensures
        final(out)@ == old(out)@ + digits(value as nat, radix as nat),
    decreases value,
{
    if value >= radix {
        proof {
            lemma_div_decreases(value as int, radix as int);
        }
        push_digits(out, value / radix, radix);
    }
    let d = (value % radix) as u8;
    out.push(digit_to_char(d));
    proof {
        let last = digit_char(d as nat);
        if value >= radix {
            let high = digits((value / radix) as nat, radix as nat);
            assert((old(out)@ + high).push(last) =~= old(out)@ + high.push(last));
        } else {
            lemma_small_mod(value as nat, radix as nat);
            assert(old(out)@.push(last) =~= old(out)@ + seq![last]);
        }
    }
}

/// Appends `value` as a binary literal to `out`.
pub fn push_binary(out: &mut String, value: u64)
    ensures
        final(out)@ == old(out)@ + binary(value as nat),
{
    out.append("0b");
    push_digits(out, value, 2);
    assert(out@ =~= old(out)@ + binary(value as nat));
}

/// Appends `value` as a hexadecimal literal to `out`.
pub fn push_hex(out: &mut String, value: u64)
    ensures
        final(out)@ == old(out)@ + hex(value as nat),
{
    out.append("0x");
    push_digits(out, value, 16);
    assert(out@ =~= old(out)@ + hex(value as nat));
}

/// Appends `value` in base ten to `out`.
pub fn push_decimal(out: &mut String, value: u64)
    ensures
        final(out)@ == old(out)@ + decimal(value as nat),
{
    push_digits(out, value, 10);
}

/// The number of digits of `value` in `radix`.
pub fn count_digits(value: u64, radix: u64) -> (count: usize)
    requires
        2 <= radix <= 16,
    ensures
        count == digits(value as nat, radix as nat).len(),
        1 <= count <= 64,
{
    let mut rest = value;
    let mut count: usize = 1;
    proof {
        lemma_digits_len(value as nat, radix as nat);
    }
    while rest >= radix
        invariant
            2 <= radix <= 16,
            1 <= count,
            count + digits(rest as nat, radix as nat).len() == digits(
                value as nat,
                radix as nat,
            ).len() + 1,
            digits(value as nat, radix as nat).len() <= 64,
        decreases rest,
    {
        proof {
            lemma_div_decreases(rest as int, radix as int);
        }
        rest = rest / radix;
        count = count + 1;
    }
    count
}

/// A number below `2^64` has at most 64 digits in any radix from 2 on.
proof fn lemma_digits_len(n: nat, radix: nat)
    requires
        2 <= radix,
        n <= u64::MAX,
    ensures
        1 <= digits(n, radix).len() <= 64,
{
    lemma2_to64_rest();
    lemma_digits_len_bound(n, radix, 64);
}

/// A number below `2^bits` has at most `bits` digits, and at least one.
proof fn lemma_digits_len_bound(n: nat, radix: nat, bits: nat)
    requires
        2 <= radix,
        1 <= bits,
        n < pow2(bits),
    ensures
        1 <= digits(n, radix).len() <= bits,
    decreases n,
{
    if n >= radix {
        lemma2_to64();
        lemma_pow2_unfold(bits);
        lemma_div_is_ordered_by_denominator(n as int, 2, radix as int);
        lemma_div_decreases(n as int, radix as int);
        lemma_digits_len_bound(n / radix, radix, (bits - 1) as nat);
    }
}

/// Appends `count` copies of `c` to `out`.
pub fn push_repeated(out: &mut String, c: char, count: usize)
    ensures
        final(out)@ == old(out)@ + repeated(c, count as nat),
{
    let mut i: usize = 0;
    while i < count
        invariant
            i <= count,
            out@ == old(out)@ + repeated(c, i as nat),
        decreases count - i,
    {
        out.push(c);
        i = i + 1;
    }
}

/// The characters of `s`.
pub fn chars_of(s: &str) -> (v: Vec<char>)
    ensures
        v@ == s@,
{
    let mut v: Vec<char> = Vec::new();
    for c in it: s.chars()
        invariant
            it.seq() == s@,
            v@ == it.seq().take(it.index() as int),
    {
        v.push(c);
    }
    v
}

/// The lower-case form of one character.
pub fn to_lower_char(c: char) -> (l: char)
    ensures
        l == lower_char(c),
{
    if 'A' <= c && c <= 'Z' {
        ((c as u8) + 32) as char
    } else {
        c
    }
}

/// The characters of `s`, each in lower case.
pub fn lower_chars_of(s: &str) -> (v: Vec<char>)
    ensures
        v@ == lower(s@),
{
    let mut v: Vec<char> = Vec::new();
    for c in it: s.chars()
        invariant
            it.seq() == s@,
            v@ == lower(it.seq().take(it.index() as int)),
    {
        v.push(to_lower_char(c));
    }
    v
}

/// Appends the digits of `value` in `radix` to `out`, with zeros in front
/// where they are fewer than `width`.
pub fn push_padded_digits(out: &mut String, value: u64, radix: u64, width: usize)
    requires
        2 <= radix <= 16,
    ensures
        final(out)@ == old(out)@ + padded_digits(value as nat, radix as nat, width as nat),
{
    let len = count_digits(value, radix);
    let padding = if width > len {
        width - len
    } else {
        0
    };
    push_repeated(out, '0', padding);
    push_digits(out, value, radix);
    assert(out@ =~= old(out)@ + padded_digits(value as nat, radix as nat, width as nat));
}

/// The value of `c` as a digit of `radix`, if it is one.
pub fn digit_of(c: char, radix: u64) -> (d: Option<u64>)
    requires
        radix <= 36,
    ensures
        match d {
            Some(d) => digit_value(c, radix as nat) == Some(d as nat),
            None => digit_value(c, radix as nat) is None,
        },
{
    let d: u64 = if '0' <= c && c <= '9' {
        (c as u64) - 0x30
    } else if 'a' <= c && c <= 'z' {
        (c as u64) - 0x61 + 10
    } else if 'A' <= c && c <= 'Z' {
        (c as u64) - 0x41 + 10
    } else {
        radix
    };
    if d < radix {
        Some(d)
    } else {
        None
    }
}

/// Digits only make a number larger: the value of a whole text of digits is
/// at least the value of any beginning of it.
proof fn lemma_number_value_grows(s: Seq<char>, radix: nat, upto: int)
    requires
        0 <= upto <= s.len(),
        1 <= radix,
    ensures
        number_value(s.take(upto), radix) <= number_value(s, radix),
    decreases s.len() - upto,
{
    if upto == s.len() {
        assert(s.take(upto) =~= s);
    } else {
        lemma_number_value_grows(s, radix, upto + 1);
        let longer = s.take(upto + 1);
        assert(longer.drop_last() =~= s.take(upto));
        assert(number_value(longer.drop_last(), radix) * radix >= number_value(
            longer.drop_last(),
            radix,
        )) by (nonlinear_arith)
            requires
                1 <= radix,
        ;
    }
}

/// A digit character stands for the digit it was made from.
proof fn lemma_digit_char_value(d: nat, radix: nat)
    requires
        d < radix <= 16,
    ensures
        digit_value(digit_char(d), radix) == Some(d),
        digit_char(d) != '+',
        d > 0 ==> digit_char(d) != '0',
{
}

/// The digits of a number are digits of the radix, at least one, and they
/// spell the number; a number other than zero does not begin with `0`.
pub proof fn lemma_digits_spell_number(n: nat, radix: nat)
    requires
        2 <= radix <= 16,
    ensures
        digits(n, radix).len() >= 1,
        all_digits(digits(n, radix), radix),
        number_value(digits(n, radix), radix) == n,
        digits(n, radix)[0] != '+',
        n > 0 ==> digits(n, radix)[0] != '0',
    decreases n,
{
    let text = digits(n, radix);
    if n < radix {
        lemma_digit_char_value(n, radix);
        assert(text.len() == 1);
        assert(text.last() == digit_char(n));
        assert(text.drop_last() =~= Seq::<char>::empty());
        assert(number_value(text.drop_last(), radix) == 0);
        assert(number_value(text, radix) == 0 * radix + n);
    } else {
        lemma_div_decreases(n as int, radix as int);
        let high = digits(n / radix, radix);
        let low = n % radix;
        lemma_digits_spell_number(n / radix, radix);
        lemma_digit_char_value(low, radix);
        assert(text.drop_last() =~= high);
        assert(text.last() == digit_char(low));
        assert forall|i: int| 0 <= i < text.len() implies digit_value(
            #[trigger] text[i],
            radix,
        ) is Some by {
            if i < high.len() {
                assert(text[i] == high[i]);
            }
        }
        vstd::arithmetic::div_mod::lemma_fundamental_div_mod(n as int, radix as int);
        assert(number_value(text, radix) == (n / radix) * radix + low);
        assert((n / radix) * radix == radix * (n / radix)) by (nonlinear_arith);
        assert(text[0] == high[0]);
        assert(n / radix > 0) by {
            vstd::arithmetic::div_mod::lemma_div_non_zero(n as int, radix as int);
        }
    }
}

/// Reading is the inverse of writing: the digits of a number, read in the
/// radix in which they were written, give the number back, with or without
/// leave for a sign, and in base ten also as an index.
pub proof fn lemma_digits_read_back(n: nat, radix: nat, max: nat)
    requires
        2 <= radix <= 16,
        n <= max,
    ensures
        parse_digits(digits(n, radix), radix, max) == Some(n),
        parse_unsigned(digits(n, radix), radix, max) == Some(n),
        radix == 10 ==> parse_index(decimal(n), max) == Some(n),
{
    lemma_digits_spell_number(n, radix);
    if n == 0 {
        assert(digits(0, radix).len() == 1);
    }
}

/// Reads the characters of `v` from position `from` on as a number in
/// `radix`: digits only, at least one, and a value of at most `max`.
pub fn read_digits(v: &Vec<char>, from: usize, radix: u64, max: u64) -> (n: Option<u64>)
    requires
        from <= v.len(),
        2 <= radix <= 36,
        max <= 0xffff_ffff,
    ensures
        match n {
            Some(n) => parse_digits(v@.skip(from as int), radix as nat, max as nat) == Some(
                n as nat,
            ),
            None => parse_digits(v@.skip(from as int), radix as nat, max as nat) is None,
        },
{
    let ghost s = v@.skip(from as int);
    if from == v.len() {
        return None;
    }
    let mut value: u64 = 0;
    let mut i: usize = from;
    while i < v.len()
        invariant
            from <= i <= v.len(),
            2 <= radix <= 36,
            max <= 0xffff_ffff,
            s == v@.skip(from as int),
            all_digits(s.take(i - from), radix as nat),
            value == number_value(s.take(i - from), radix as nat),
            value <= max,
        decreases v.len() - i,
    {
        let ghost read = s.take(i - from + 1);
        assert(read.drop_last() =~= s.take(i - from));
        assert(read.last() == v@[i as int]);
        match digit_of(v[i], radix) {
            None => {
                assert(digit_value(s[i - from], radix as nat) is None);
                return None;
            },
            Some(d) => {
                assert(value * radix + d <= 0xffff_ffff * 36 + 36) by (nonlinear_arith)
                    requires
                        value <= 0xffff_ffff,
                        radix <= 36,
                        d < radix,
                ;
                let next = value * radix + d;
                assert(next == number_value(read, radix as nat));
                if next > max {
                    proof {
                        if all_digits(s, radix as nat) {
                            lemma_number_value_grows(s, radix as nat, i - from + 1);
                        }
                    }
                    return None;
                }
                assert forall|j: int| 0 <= j < read.len() implies digit_value(
                    #[trigger] read[j],
                    radix as nat,
                ) is Some by {
                    if j < i - from {
                        assert(read[j] == s.take(i - from)[j]);
                    }
                }
                value = next;
                i = i + 1;
            },
        }
    }
    assert(s.take(i - from) =~= s);
    Some(value)
}

/// Reads the characters of `v` from position `from` on as an unsigned number
/// in `radix` of at most `max`; one `+` may stand before the digits.
pub fn read_unsigned(v: &Vec<char>, from: usize, radix: u64, max: u64) -> (n: Option<u64>)
    requires
        from <= v.len(),
        2 <= radix <= 36,
        max <= 0xffff_ffff,
    ensures
        match n {
            Some(n) => parse_unsigned(v@.skip(from as int), radix as nat, max as nat) == Some(
                n as nat,
            ),
            None => parse_unsigned(v@.skip(from as int), radix as nat, max as nat) is None,
        },
{
    if from < v.len() && v[from] == '+' {
        assert(v@.skip(from as int).skip(1) =~= v@.skip(from + 1));
        read_digits(v, from + 1, radix, max)
    } else {
        read_digits(v, from, radix, max)
    }
}

/// Reads the characters of `v` from position `from` on as an index of at
/// most `max`, written in base ten the usual way.
pub fn read_index(v: &Vec<char>, from: usize, max: u64) -> (n: Option<u64>)
    requires
        from <= v.len(),
        max <= 0xffff_ffff,
    ensures
        match n {
            Some(n) => parse_index(v@.skip(from as int), max as nat) == Some(n as nat),
            None => parse_index(v@.skip(from as int), max as nat) is None,
        },
{
    if v.len() - from > 1 && v[from] == '0' {
        None
    } else {
        read_digits(v, from, 10, max)
    }
}

/// Whether the characters `v` begin with the text `prefix`.
pub fn begins_with(v: &Vec<char>, prefix: &str) -> (begins: bool)
    ensures
        begins == starts_with(v@, prefix@),
{
    let p = chars_of(prefix);
    if p.len() > v.len() {
        return false;
    }
    let mut i: usize = 0;
    while i < p.len()
        invariant
            i <= p.len() <= v.len(),
            p@ == prefix@,
            forall|j: int| 0 <= j < i ==> v@[j] == p@[j],
        decreases p.len() - i,
    {
        if v[i] != p[i] {
            assert(v@.take(p.len() as int)[i as int] != p@[i as int]);
            return false;
        }
        i = i + 1;
    }
    assert(v@.take(p.len() as int) =~= p@);
    true
}

/// Whether the characters `v` spell exactly the text `word`.
pub fn spells(v: &Vec<char>, word: &str) -> (same: bool)
    ensures
        same == (v@ == word@),
{
    let w = chars_of(word);
    if w.len() != v.len() {
        return false;
    }
    let mut i: usize = 0;
    while i < v.len()
        invariant
            i <= v.len(),
            w.len() == v.len(),
            w@ == word@,
            forall|j: int| 0 <= j < i ==> v@[j] == w@[j],
        decreases v.len() - i,
    {
        if v[i] != w[i] {
            return false;
        }
        i = i + 1;
    }
    assert(v@ =~= w@);
    true
}

} // verus!
