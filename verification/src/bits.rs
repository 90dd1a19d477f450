//! Values of a fixed number of bits, from one to sixty-four.
//!
//! Each type `B1` to `B64` wraps a word and knows its width; a value is
//! shown as a binary literal of that many digits. A type does not check that
//! the word it wraps fits in its width: a larger word is shown with all its
//! digits.
use crate::text::{padded_digits, push_padded_digits};
use vstd::prelude::*;

verus! {

/// The text that shows `word` as a value of `width` bits: a binary literal
/// of at least `width` digits.
pub open spec fn shown_bits(word: u64, width: u8) -> Seq<char> {
    "0b"@ + padded_digits(word as nat, 2, width as nat)
}

/// A value of a known number of bits.
pub trait Bits {
    /// The word that holds the value.
    spec fn word(&self) -> u64;

    /// The number of bits of the value.
    spec fn width(&self) -> u8;

    /// The word that holds the value.
    fn to_u64(&self) -> (word: u64)
        ensures
            word == self.word(),
    ;

    /// The number of bits of the value.
    fn size(&self) -> (width: u8)
        ensures
            width == self.width(),
    ;

    /// Shows the value.
    fn format(&self) -> (shown: String)
        ensures
            shown@ == shown_bits(self.word(), self.width()),
    {
        let mut shown = String::from_str("0b");
        push_padded_digits(&mut shown, self.to_u64(), 2, self.size() as usize);
        shown
    }
}

/// A value of 1 bit.
pub struct B1(pub u64);

impl Bits for B1 {
    open spec fn word(&self) -> u64 {
        self.0
    }

    open spec fn width(&self) -> u8 {
        1
    }

    fn to_u64(&self) -> (word: u64) {
        self.0
    }

    fn size(&self) -> (width: u8) {
        1
    }
}

/// A value of 2 bits.
pub struct B2(pub u64);

impl Bits for B2 {
    open spec fn word(&self) -> u64 {
        self.0
    }

    open spec fn width(&self) -> u8 {
        2
    }

    fn to_u64(&self) -> (word: u64) {
        self.0
    }

    fn size(&self) -> (width: u8) {
        2
    }
}

/// A value of 3 bits.
pub struct B3(pub u64);

impl Bits for B3 {
    open spec fn word(&self) -> u64 {
        self.0
    }

    open spec fn width(&self) -> u8 {
        3
    }

    fn to_u64(&self) -> (word: u64) {
        self.0
    }

    fn size(&self) -> (width: u8) {
        3
    }
}

/// A value of 4 bits.
pub struct B4(pub u64);

impl Bits for B4 {
    open spec fn word(&self) -> u64 {
        self.0
    }

    open spec fn width(&self) -> u8 {
        4
    }

    fn to_u64(&self) -> (word: u64) {
        self.0
    }

    fn size(&self) -> (width: u8) {
        4
    }
}

/// A value of 5 bits.
pub struct B5(pub u64);

impl Bits for B5 {
    open spec fn word(&self) -> u64 {
        self.0
    }

    open spec fn width(&self) -> u8 {
        5
    }

    fn to_u64(&self) -> (word: u64) {
        self.0
    }

    fn size(&self) -> (width: u8) {
        5
    }
}

/// A value of 6 bits.
pub struct B6(pub u64);

impl Bits for B6 {
    open spec fn word(&self) -> u64 {
        self.0
    }

    open spec fn width(&self) -> u8 {
        6
    }

    fn to_u64(&self) -> (word: u64) {
        self.0
    }

    fn size(&self) -> (width: u8) {
        6
    }
}

/// A value of 7 bits.
pub struct B7(pub u64);

impl Bits for B7 {
    open spec fn word(&self) -> u64 {
        self.0
    }

    open spec fn width(&self) -> u8 {
        7
    }

    fn to_u64(&self) -> (word: u64) {
        self.0
    }

    fn size(&self) -> (width: u8) {
        7
    }
}

/// A value of 8 bits.
pub struct B8(pub u64);

impl Bits for B8 {
    open spec fn word(&self) -> u64 {
        self.0
    }

    open spec fn width(&self) -> u8 {
        8
    }

    fn to_u64(&self) -> (word: u64) {
        self.0
    }

    fn size(&self) -> (width: u8) {
        8
    }
}

/// A value of 9 bits.
pub struct B9(pub u64);

impl Bits for B9 {
    open spec fn word(&self) -> u64 {
        self.0
    }

    open spec fn width(&self) -> u8 {
        9
    }

    fn to_u64(&self) -> (word: u64) {
        self.0
    }

    fn size(&self) -> (width: u8) {
        9
    }
}

/// A value of 10 bits.
pub struct B10(pub u64);

impl Bits for B10 {
    open spec fn word(&self) -> u64 {
        self.0
    }

    open spec fn width(&self) -> u8 {
        10
    }

    fn to_u64(&self) -> (word: u64) {
        self.0
    }

    fn size(&self) -> (width: u8) {
        10
    }
}

/// A value of 11 bits.
pub struct B11(pub u64);

impl Bits for B11 {
    open spec fn word(&self) -> u64 {
        self.0
    }

    open spec fn width(&self) -> u8 {
        11
    }

    fn to_u64(&self) -> (word: u64) {
        self.0
    }

    fn size(&self) -> (width: u8) {
        11
    }
}

/// A value of 12 bits.
pub struct B12(pub u64);

impl Bits for B12 {
    open spec fn word(&self) -> u64 {
        self.0
    }

    open spec fn width(&self) -> u8 {
        12
    }

    fn to_u64(&self) -> (word: u64) {
        self.0
    }

    fn size(&self) -> (width: u8) {
        12
    }
}

/// A value of 13 bits.
pub struct B13(pub u64);

impl Bits for B13 {
    open spec fn word(&self) -> u64 {
        self.0
    }

    open spec fn width(&self) -> u8 {
        13
    }

    fn to_u64(&self) -> (word: u64) {
        self.0
    }

    fn size(&self) -> (width: u8) {
        13
    }
}

/// A value of 14 bits.
pub struct B14(pub u64);

impl Bits for B14 {
    open spec fn word(&self) -> u64 {
        self.0
    }

    open spec fn width(&self) -> u8 {
        14
    }

    fn to_u64(&self) -> (word: u64) {
        self.0
    }

    fn size(&self) -> (width: u8) {
        14
    }
}

/// A value of 15 bits.
pub struct B15(pub u64);

impl Bits for B15 {
    open spec fn word(&self) -> u64 {
        self.0
    }

    open spec fn width(&self) -> u8 {
        15
    }

    fn to_u64(&self) -> (word: u64) {
        self.0
    }

    fn size(&self) -> (width: u8) {
        15
    }
}

/// A value of 16 bits.
pub struct B16(pub u64);

impl Bits for B16 {
    open spec fn word(&self) -> u64 {
        self.0
    }

    open spec fn width(&self) -> u8 {
        16
    }

    fn to_u64(&self) -> (word: u64) {
        self.0
    }

    fn size(&self) -> (width: u8) {
        16
    }
}

/// A value of 17 bits.
pub struct B17(pub u64);

impl Bits for B17 {
    open spec fn word(&self) -> u64 {
        self.0
    }

    open spec fn width(&self) -> u8 {
        17
    }

    fn to_u64(&self) -> (word: u64) {
        self.0
    }

    fn size(&self) -> (width: u8) {
        17
    }
}

/// A value of 18 bits.
pub struct B18(pub u64);

impl Bits for B18 {
    open spec fn word(&self) -> u64 {
        self.0
    }

    open spec fn width(&self) -> u8 {
        18
    }

    fn to_u64(&self) -> (word: u64) {
        self.0
    }

    fn size(&self) -> (width: u8) {
        18
    }
}

/// A value of 19 bits.
pub struct B19(pub u64);

impl Bits for B19 {
    open spec fn word(&self) -> u64 {
        self.0
    }

    open spec fn width(&self) -> u8 {
        19
    }

    fn to_u64(&self) -> (word: u64) {
        self.0
    }

    fn size(&self) -> (width: u8) {
        19
    }
}

/// A value of 20 bits.
pub struct B20(pub u64);

impl Bits for B20 {
    open spec fn word(&self) -> u64 {
        self.0
    }

    open spec fn width(&self) -> u8 {
        20
    }

    fn to_u64(&self) -> (word: u64) {
        self.0
    }

    fn size(&self) -> (width: u8) {
        20
    }
}

/// A value of 21 bits.
pub struct B21(pub u64);

impl Bits for B21 {
    open spec fn word(&self) -> u64 {
        self.0
    }

    open spec fn width(&self) -> u8 {
        21
    }

    fn to_u64(&self) -> (word: u64) {
        self.0
    }

    fn size(&self) -> (width: u8) {
        21
    }
}

/// A value of 22 bits.
pub struct B22(pub u64);

impl Bits for B22 {
    open spec fn word(&self) -> u64 {
        self.0
    }

    open spec fn width(&self) -> u8 {
        22
    }

    fn to_u64(&self) -> (word: u64) {
        self.0
    }

    fn size(&self) -> (width: u8) {
        22
    }
}

/// A value of 23 bits.
pub struct B23(pub u64);

impl Bits for B23 {
    open spec fn word(&self) -> u64 {
        self.0
    }

    open spec fn width(&self) -> u8 {
        23
    }

    fn to_u64(&self) -> (word: u64) {
        self.0
    }

    fn size(&self) -> (width: u8) {
        23
    }
}

/// A value of 24 bits.
pub struct B24(pub u64);

impl Bits for B24 {
    open spec fn word(&self) -> u64 {
        self.0
    }

    open spec fn width(&self) -> u8 {
        24
    }

    fn to_u64(&self) -> (word: u64) {
        self.0
    }

    fn size(&self) -> (width: u8) {
        24
    }
}

/// A value of 25 bits.
pub struct B25(pub u64);

impl Bits for B25 {
    open spec fn word(&self) -> u64 {
        self.0
    }

    open spec fn width(&self) -> u8 {
        25
    }

    fn to_u64(&self) -> (word: u64) {
        self.0
    }

    fn size(&self) -> (width: u8) {
        25
    }
}

/// A value of 26 bits.
pub struct B26(pub u64);

impl Bits for B26 {
    open spec fn word(&self) -> u64 {
        self.0
    }

    open spec fn width(&self) -> u8 {
        26
    }

    fn to_u64(&self) -> (word: u64) {
        self.0
    }

    fn size(&self) -> (width: u8) {
        26
    }
}

/// A value of 27 bits.
pub struct B27(pub u64);

impl Bits for B27 {
    open spec fn word(&self) -> u64 {
        self.0
    }

    open spec fn width(&self) -> u8 {
        27
    }

    fn to_u64(&self) -> (word: u64) {
        self.0
    }

    fn size(&self) -> (width: u8) {
        27
    }
}

/// A value of 28 bits.
pub struct B28(pub u64);

impl Bits for B28 {
    open spec fn word(&self) -> u64 {
        self.0
    }

    open spec fn width(&self) -> u8 {
        28
    }

    fn to_u64(&self) -> (word: u64) {
        self.0
    }

    fn size(&self) -> (width: u8) {
        28
    }
}

/// A value of 29 bits.
pub struct B29(pub u64);

impl Bits for B29 {
    open spec fn word(&self) -> u64 {
        self.0
    }

    open spec fn width(&self) -> u8 {
        29
    }

    fn to_u64(&self) -> (word: u64) {
        self.0
    }

    fn size(&self) -> (width: u8) {
        29
    }
}

/// A value of 30 bits.
pub struct B30(pub u64);

impl Bits for B30 {
    open spec fn word(&self) -> u64 {
        self.0
    }

    open spec fn width(&self) -> u8 {
        30
    }

    fn to_u64(&self) -> (word: u64) {
        self.0
    }

    fn size(&self) -> (width: u8) {
        30
    }
}

/// A value of 31 bits.
pub struct B31(pub u64);

impl Bits for B31 {
    open spec fn word(&self) -> u64 {
        self.0
    }

    open spec fn width(&self) -> u8 {
        31
    }

    fn to_u64(&self) -> (word: u64) {
        self.0
    }

    fn size(&self) -> (width: u8) {
        31
    }
}

/// A value of 32 bits.
pub struct B32(pub u64);

impl Bits for B32 {
    open spec fn word(&self) -> u64 {
        self.0
    }

    open spec fn width(&self) -> u8 {
        32
    }

    fn to_u64(&self) -> (word: u64) {
        self.0
    }

    fn size(&self) -> (width: u8) {
        32
    }
}

/// A value of 33 bits.
pub struct B33(pub u64);

impl Bits for B33 {
    open spec fn word(&self) -> u64 {
        self.0
    }

    open spec fn width(&self) -> u8 {
        33
    }

    fn to_u64(&self) -> (word: u64) {
        self.0
    }

    fn size(&self) -> (width: u8) {
        33
    }
}

/// A value of 34 bits.
pub struct B34(pub u64);

impl Bits for B34 {
    open spec fn word(&self) -> u64 {
        self.0
    }

    open spec fn width(&self) -> u8 {
        34
    }

    fn to_u64(&self) -> (word: u64) {
        self.0
    }

    fn size(&self) -> (width: u8) {
        34
    }
}

/// A value of 35 bits.
pub struct B35(pub u64);

impl Bits for B35 {
    open spec fn word(&self) -> u64 {
        self.0
    }

    open spec fn width(&self) -> u8 {
        35
    }

    fn to_u64(&self) -> (word: u64) {
        self.0
    }

    fn size(&self) -> (width: u8) {
        35
    }
}

/// A value of 36 bits.
pub struct B36(pub u64);

impl Bits for B36 {
    open spec fn word(&self) -> u64 {
        self.0
    }

    open spec fn width(&self) -> u8 {
        36
    }

    fn to_u64(&self) -> (word: u64) {
        self.0
    }

    fn size(&self) -> (width: u8) {
        36
    }
}

/// A value of 37 bits.
pub struct B37(pub u64);

impl Bits for B37 {
    open spec fn word(&self) -> u64 {
        self.0
    }

    open spec fn width(&self) -> u8 {
        37
    }

    fn to_u64(&self) -> (word: u64) {
        self.0
    }

    fn size(&self) -> (width: u8) {
        37
    }
}

/// A value of 38 bits.
pub struct B38(pub u64);

impl Bits for B38 {
    open spec fn word(&self) -> u64 {
        self.0
    }

    open spec fn width(&self) -> u8 {
        38
    }

    fn to_u64(&self) -> (word: u64) {
        self.0
    }

    fn size(&self) -> (width: u8) {
        38
    }
}

/// A value of 39 bits.
pub struct B39(pub u64);

impl Bits for B39 {
    open spec fn word(&self) -> u64 {
        self.0
    }

    open spec fn width(&self) -> u8 {
        39
    }

    fn to_u64(&self) -> (word: u64) {
        self.0
    }

    fn size(&self) -> (width: u8) {
        39
    }
}

/// A value of 40 bits.
pub struct B40(pub u64);

impl Bits for B40 {
    open spec fn word(&self) -> u64 {
        self.0
    }

    open spec fn width(&self) -> u8 {
        40
    }

    fn to_u64(&self) -> (word: u64) {
        self.0
    }

    fn size(&self) -> (width: u8) {
        40
    }
}

/// A value of 41 bits.
pub struct B41(pub u64);

impl Bits for B41 {
    open spec fn word(&self) -> u64 {
        self.0
    }

    open spec fn width(&self) -> u8 {
        41
    }

    fn to_u64(&self) -> (word: u64) {
        self.0
    }

    fn size(&self) -> (width: u8) {
        41
    }
}

/// A value of 42 bits.
pub struct B42(pub u64);

impl Bits for B42 {
    open spec fn word(&self) -> u64 {
        self.0
    }

    open spec fn width(&self) -> u8 {
        42
    }

    fn to_u64(&self) -> (word: u64) {
        self.0
    }

    fn size(&self) -> (width: u8) {
        42
    }
}

/// A value of 43 bits.
pub struct B43(pub u64);

impl Bits for B43 {
    open spec fn word(&self) -> u64 {
        self.0
    }

    open spec fn width(&self) -> u8 {
        43
    }

    fn to_u64(&self) -> (word: u64) {
        self.0
    }

    fn size(&self) -> (width: u8) {
        43
    }
}

/// A value of 44 bits.
pub struct B44(pub u64);

impl Bits for B44 {
    open spec fn word(&self) -> u64 {
        self.0
    }

    open spec fn width(&self) -> u8 {
        44
    }

    fn to_u64(&self) -> (word: u64) {
        self.0
    }

    fn size(&self) -> (width: u8) {
        44
    }
}

/// A value of 45 bits.
pub struct B45(pub u64);

impl Bits for B45 {
    open spec fn word(&self) -> u64 {
        self.0
    }

    open spec fn width(&self) -> u8 {
        45
    }

    fn to_u64(&self) -> (word: u64) {
        self.0
    }

    fn size(&self) -> (width: u8) {
        45
    }
}

/// A value of 46 bits.
pub struct B46(pub u64);

impl Bits for B46 {
    open spec fn word(&self) -> u64 {
        self.0
    }

    open spec fn width(&self) -> u8 {
        46
    }

    fn to_u64(&self) -> (word: u64) {
        self.0
    }

    fn size(&self) -> (width: u8) {
        46
    }
}

/// A value of 47 bits.
pub struct B47(pub u64);

impl Bits for B47 {
    open spec fn word(&self) -> u64 {
        self.0
    }

    open spec fn width(&self) -> u8 {
        47
    }

    fn to_u64(&self) -> (word: u64) {
        self.0
    }

    fn size(&self) -> (width: u8) {
        47
    }
}

/// A value of 48 bits.
pub struct B48(pub u64);

impl Bits for B48 {
    open spec fn word(&self) -> u64 {
        self.0
    }

    open spec fn width(&self) -> u8 {
        48
    }

    fn to_u64(&self) -> (word: u64) {
        self.0
    }

    fn size(&self) -> (width: u8) {
        48
    }
}

/// A value of 49 bits.
pub struct B49(pub u64);

impl Bits for B49 {
    open spec fn word(&self) -> u64 {
        self.0
    }

    open spec fn width(&self) -> u8 {
        49
    }

    fn to_u64(&self) -> (word: u64) {
        self.0
    }

    fn size(&self) -> (width: u8) {
        49
    }
}

/// A value of 50 bits.
pub struct B50(pub u64);

impl Bits for B50 {
    open spec fn word(&self) -> u64 {
        self.0
    }

    open spec fn width(&self) -> u8 {
        50
    }

    fn to_u64(&self) -> (word: u64) {
        self.0
    }

    fn size(&self) -> (width: u8) {
        50
    }
}

/// A value of 51 bits.
pub struct B51(pub u64);

impl Bits for B51 {
    open spec fn word(&self) -> u64 {
        self.0
    }

    open spec fn width(&self) -> u8 {
        51
    }

    fn to_u64(&self) -> (word: u64) {
        self.0
    }

    fn size(&self) -> (width: u8) {
        51
    }
}

/// A value of 52 bits.
pub struct B52(pub u64);

impl Bits for B52 {
    open spec fn word(&self) -> u64 {
        self.0
    }

    open spec fn width(&self) -> u8 {
        52
    }

    fn to_u64(&self) -> (word: u64) {
        self.0
    }

    fn size(&self) -> (width: u8) {
        52
    }
}

/// A value of 53 bits.
pub struct B53(pub u64);

impl Bits for B53 {
    open spec fn word(&self) -> u64 {
        self.0
    }

    open spec fn width(&self) -> u8 {
        53
    }

    fn to_u64(&self) -> (word: u64) {
        self.0
    }

    fn size(&self) -> (width: u8) {
        53
    }
}

/// A value of 54 bits.
pub struct B54(pub u64);

impl Bits for B54 {
    open spec fn word(&self) -> u64 {
        self.0
    }

    open spec fn width(&self) -> u8 {
        54
    }

    fn to_u64(&self) -> (word: u64) {
        self.0
    }

    fn size(&self) -> (width: u8) {
        54
    }
}

/// A value of 55 bits.
pub struct B55(pub u64);

impl Bits for B55 {
    open spec fn word(&self) -> u64 {
        self.0
    }

    open spec fn width(&self) -> u8 {
        55
    }

    fn to_u64(&self) -> (word: u64) {
        self.0
    }

    fn size(&self) -> (width: u8) {
        55
    }
}

/// A value of 56 bits.
pub struct B56(pub u64);

impl Bits for B56 {
    open spec fn word(&self) -> u64 {
        self.0
    }

    open spec fn width(&self) -> u8 {
        56
    }

    fn to_u64(&self) -> (word: u64) {
        self.0
    }

    fn size(&self) -> (width: u8) {
        56
    }
}

/// A value of 57 bits.
pub struct B57(pub u64);

impl Bits for B57 {
    open spec fn word(&self) -> u64 {
        self.0
    }

    open spec fn width(&self) -> u8 {
        57
    }

    fn to_u64(&self) -> (word: u64) {
        self.0
    }

    fn size(&self) -> (width: u8) {
        57
    }
}

/// A value of 58 bits.
pub struct B58(pub u64);

impl Bits for B58 {
    open spec fn word(&self) -> u64 {
        self.0
    }

    open spec fn width(&self) -> u8 {
        58
    }

    fn to_u64(&self) -> (word: u64) {
        self.0
    }

    fn size(&self) -> (width: u8) {
        58
    }
}

/// A value of 59 bits.
pub struct B59(pub u64);

impl Bits for B59 {
    open spec fn word(&self) -> u64 {
        self.0
    }

    open spec fn width(&self) -> u8 {
        59
    }

    fn to_u64(&self) -> (word: u64) {
        self.0
    }

    fn size(&self) -> (width: u8) {
        59
    }
}

/// A value of 60 bits.
pub struct B60(pub u64);

impl Bits for B60 {
    open spec fn word(&self) -> u64 {
        self.0
    }

    open spec fn width(&self) -> u8 {
        60
    }

    fn to_u64(&self) -> (word: u64) {
        self.0
    }

    fn size(&self) -> (width: u8) {
        60
    }
}

/// A value of 61 bits.
pub struct B61(pub u64);

impl Bits for B61 {
    open spec fn word(&self) -> u64 {
        self.0
    }

    open spec fn width(&self) -> u8 {
        61
    }

    fn to_u64(&self) -> (word: u64) {
        self.0
    }

    fn size(&self) -> (width: u8) {
        61
    }
}

/// A value of 62 bits.
pub struct B62(pub u64);

impl Bits for B62 {
    open spec fn word(&self) -> u64 {
        self.0
    }

    open spec fn width(&self) -> u8 {
        62
    }

    fn to_u64(&self) -> (word: u64) {
        self.0
    }

    fn size(&self) -> (width: u8) {
        62
    }
}

/// A value of 63 bits.
pub struct B63(pub u64);

impl Bits for B63 {
    open spec fn word(&self) -> u64 {
        self.0
    }

    open spec fn width(&self) -> u8 {
        63
    }

    fn to_u64(&self) -> (word: u64) {
        self.0
    }

    fn size(&self) -> (width: u8) {
        63
    }
}

/// A value of 64 bits.
pub struct B64(pub u64);

impl Bits for B64 {
    open spec fn word(&self) -> u64 {
        self.0
    }

    open spec fn width(&self) -> u8 {
        64
    }

    fn to_u64(&self) -> (word: u64) {
        self.0
    }

    fn size(&self) -> (width: u8) {
        64
    }
}

} // verus!
