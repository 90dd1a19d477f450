use rv_format::format::{push_text_line, start_report};
use rv_format::text::{
    begins_with, chars_of, count_digits, digit_of, lower_chars_of, push_binary, push_decimal,
    push_digits, push_hex, push_padded_digits, push_repeated, read_digits, read_index,
    read_unsigned, spells, to_lower_char,
};

fn digits(value: u64, radix: u64) -> String {
    let mut out = String::new();
    push_digits(&mut out, value, radix);
    out
}

#[test]
fn digits_in_the_radices_of_the_reports() {
    assert_eq!(digits(0, 2), "0");
    assert_eq!(digits(0, 10), "0");
    assert_eq!(digits(0, 16), "0");
    assert_eq!(digits(5, 2), "101");
    assert_eq!(digits(255, 16), "ff");
    assert_eq!(digits(256, 16), "100");
    assert_eq!(digits(1234567890, 10), "1234567890");
    assert_eq!(digits(u64::MAX, 2), "1".repeat(64));
    assert_eq!(digits(u64::MAX, 16), "f".repeat(16));
    assert_eq!(digits(u64::MAX, 10), "18446744073709551615");
    assert_eq!(digits(0o777, 8), "777");
}

#[test]
fn digits_are_appended() {
    let mut out = String::from("x=");
    push_hex(&mut out, 0x1f);
    out.push(' ');
    push_binary(&mut out, 6);
    out.push(' ');
    push_decimal(&mut out, 42);
    assert_eq!(out, "x=0x1f 0b110 42");
}

#[test]
fn digits_are_counted() {
    assert_eq!(count_digits(0, 2), 1);
    assert_eq!(count_digits(1, 2), 1);
    assert_eq!(count_digits(2, 2), 2);
    assert_eq!(count_digits(u64::MAX, 2), 64);
    assert_eq!(count_digits(u64::MAX, 16), 16);
    assert_eq!(count_digits(u64::MAX, 10), 20);
    assert_eq!(count_digits(9, 10), 1);
    assert_eq!(count_digits(10, 10), 2);
}

#[test]
fn padding_fills_up_to_the_width() {
    let mut out = String::new();
    push_padded_digits(&mut out, 5, 2, 6);
    assert_eq!(out, "000101");
    let mut out = String::new();
    push_padded_digits(&mut out, 0x13, 16, 16);
    assert_eq!(out, "0000000000000013");
    let mut out = String::new();
    push_padded_digits(&mut out, 0x123, 16, 2);
    assert_eq!(out, "123");
    let mut out = String::from("ab");
    push_repeated(&mut out, '-', 3);
    assert_eq!(out, "ab---");
    push_repeated(&mut out, '-', 0);
    assert_eq!(out, "ab---");
}

#[test]
fn capitals_are_lowered() {
    assert_eq!(to_lower_char('A'), 'a');
    assert_eq!(to_lower_char('Z'), 'z');
    assert_eq!(to_lower_char('a'), 'a');
    assert_eq!(to_lower_char('0'), '0');
    assert_eq!(to_lower_char('_'), '_');
    assert_eq!(to_lower_char('['), '[');
    assert_eq!(to_lower_char('@'), '@');
    assert_eq!(to_lower_char('É'), 'É');
    assert_eq!(lower_chars_of("PmpAddr_12"), chars_of("pmpaddr_12"));
    assert_eq!(chars_of("aé"), vec!['a', 'é']);
}

#[test]
fn comparison_with_a_word() {
    let name = chars_of("misa");
    assert!(spells(&name, "misa"));
    assert!(!spells(&name, "mis"));
    assert!(!spells(&name, "misa0"));
    assert!(!spells(&name, "mise"));
    assert!(!spells(&name, ""));
    assert!(spells(&chars_of(""), ""));
    assert!(begins_with(&name, "mi"));
    assert!(begins_with(&name, ""));
    assert!(begins_with(&name, "misa"));
    assert!(!begins_with(&name, "misa0"));
    assert!(!begins_with(&name, "ma"));
}

#[test]
fn digits_by_radix() {
    assert_eq!(digit_of('0', 2), Some(0));
    assert_eq!(digit_of('1', 2), Some(1));
    assert_eq!(digit_of('2', 2), None);
    assert_eq!(digit_of('9', 10), Some(9));
    assert_eq!(digit_of('a', 10), None);
    assert_eq!(digit_of('a', 16), Some(10));
    assert_eq!(digit_of('F', 16), Some(15));
    assert_eq!(digit_of('g', 16), None);
    assert_eq!(digit_of('z', 36), Some(35));
    assert_eq!(digit_of('_', 36), None);
    assert_eq!(digit_of('/', 10), None);
    assert_eq!(digit_of(':', 10), None);
}

#[test]
fn numbers_are_read() {
    assert_eq!(read_digits(&chars_of("769"), 0, 10, 0xffff), Some(769));
    assert_eq!(read_digits(&chars_of("0x301"), 2, 16, 0xffff), Some(0x301));
    assert_eq!(read_digits(&chars_of("0x301"), 0, 16, 0xffff), None);
    assert_eq!(read_digits(&chars_of("65535"), 0, 10, 0xffff), Some(65535));
    assert_eq!(read_digits(&chars_of("65536"), 0, 10, 0xffff), None);
    assert_eq!(read_digits(&chars_of("000000000000000000001"), 0, 10, 0xffff), Some(1));
    assert_eq!(read_digits(&chars_of(""), 0, 10, 0xffff), None);
    assert_eq!(read_digits(&chars_of("12"), 2, 10, 0xffff), None);
    assert_eq!(read_digits(&chars_of("+1"), 0, 10, 0xffff), None);
    assert_eq!(read_unsigned(&chars_of("+1"), 0, 10, 0xffff), Some(1));
    assert_eq!(read_unsigned(&chars_of("+"), 0, 10, 0xffff), None);
    assert_eq!(read_unsigned(&chars_of("++1"), 0, 10, 0xffff), None);
    assert_eq!(read_unsigned(&chars_of("1+"), 0, 10, 0xffff), None);
    assert_eq!(read_unsigned(&chars_of("ff"), 0, 16, 0xff), Some(0xff));
    assert_eq!(read_unsigned(&chars_of("100"), 0, 16, 0xff), None);
    assert_eq!(read_index(&chars_of("x7"), 1, 63), Some(7));
    assert_eq!(read_index(&chars_of("x07"), 1, 63), None);
    assert_eq!(read_index(&chars_of("x0"), 1, 63), Some(0));
    assert_eq!(read_index(&chars_of("x63"), 1, 63), Some(63));
    assert_eq!(read_index(&chars_of("x64"), 1, 63), None);
    assert_eq!(read_index(&chars_of("x"), 1, 63), None);
}

#[test]
fn report_head_and_lines() {
    assert_eq!(start_report("misa"), "misa\n----\n");
    assert_eq!(start_report(""), "\n\n");
    let mut text = start_report("x");
    push_text_line(&mut text, "field", "0b1");
    push_text_line(&mut text, "other", "");
    assert_eq!(text, "x\n-\nfield: 0b1\nother: \n");
}
