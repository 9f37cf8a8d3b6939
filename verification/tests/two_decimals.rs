use msd_sync::single::Real32;
use msd_sync::text::{chars_of, contains, contains_chars, decimal_string};

fn text(x: f32) -> String {
    Real32::from_bits(x.to_bits()).two_decimal_text()
}

#[test]
fn one_and_a_half_is_written_with_two_digits() {
    assert_eq!(text(1.5), "1.50");
    assert_eq!(text(1.0), "1.00");
    assert_eq!(text(0.75), "0.75");
    assert_eq!(text(1.6), "1.60");
    assert_eq!(text(2.0), "2.00");
    assert_eq!(text(0.0), "0.00");
}

#[test]
fn ties_go_to_the_even_hundredth() {
    assert_eq!(text(0.125), "0.12");
    assert_eq!(text(0.375), "0.38");
    assert_eq!(text(0.625), "0.62");
    assert_eq!(text(0.875), "0.88");
    assert_eq!(text(2.125), "2.12");
    assert_eq!(text(1024.375), "1024.38");
}

#[test]
fn values_off_a_tie_go_to_the_nearest_hundredth() {
    assert_eq!(text(1.005), "1.00");
    assert_eq!(text(2.675), "2.67");
    assert_eq!(text(1.001), "1.00");
    assert_eq!(text(1.002), "1.00");
    assert_eq!(text(0.999), "1.00");
    assert_eq!(text(0.994), "0.99");
    assert_eq!(text(9.996), "10.00");
    assert_eq!(text(0.004), "0.00");
    assert_eq!(text(0.006), "0.01");
}

#[test]
fn sign_is_written_where_the_sign_bit_is_set() {
    assert_eq!(text(-1.5), "-1.50");
    assert_eq!(text(-0.0), "-0.00");
    assert_eq!(text(-0.001), "-0.00");
    assert_eq!(text(-0.125), "-0.12");
}

#[test]
fn values_that_are_no_numbers_are_named() {
    assert_eq!(text(f32::NAN), "NaN");
    assert_eq!(text(-f32::NAN), "NaN");
    assert_eq!(text(f32::INFINITY), "inf");
    assert_eq!(text(f32::NEG_INFINITY), "-inf");
    assert_eq!(Real32::from_bits(0x7F800001).two_decimal_text(), "NaN");
    assert_eq!(Real32::from_bits(0xFFFFFFFF).two_decimal_text(), "NaN");
}

#[test]
fn ends_of_the_range_are_written_in_full() {
    assert_eq!(text(f32::MAX), "340282346638528859811704183484516925440.00");
    assert_eq!(text(f32::MIN), "-340282346638528859811704183484516925440.00");
    assert_eq!(text(f32::MIN_POSITIVE), "0.00");
    assert_eq!(Real32::from_bits(1).two_decimal_text(), "0.00");
    assert_eq!(text(16777216.0), "16777216.00");
    assert_eq!(text(8388608.5), "8388608.00");
    assert_eq!(text(4194304.5), "4194304.50");
    assert_eq!(text(2097152.25), "2097152.25");
}

#[test]
fn agrees_with_the_formatter_of_the_language_on_a_sweep() {
    let mut bits: u32 = 0;
    loop {
        let x = f32::from_bits(bits);
        assert_eq!(Real32::from_bits(bits).two_decimal_text(), format!("{:.2}", x), "{:#x}", bits);
        match bits.checked_add(20011) {
            Some(b) => bits = b,
            None => break,
        }
    }
}

#[test]
fn agrees_with_the_formatter_of_the_language_near_one() {
    let start = 0.5f32.to_bits();
    let end = 4.0f32.to_bits();
    let mut bits = start;
    while bits < end {
        let x = f32::from_bits(bits);
        assert_eq!(Real32::from_bits(bits).two_decimal_text(), format!("{:.2}", x), "{:#x}", bits);
        bits += 211;
    }
}

#[test]
fn agrees_with_the_formatter_of_the_language_on_hundredths_and_eighths() {
    for i in 0..4000u32 {
        let x = i as f32 / 100.0;
        assert_eq!(text(x), format!("{:.2}", x));
        let y = i as f32 / 8.0;
        assert_eq!(text(y), format!("{:.2}", y));
        let z = i as f32 / 1000.0;
        assert_eq!(text(z), format!("{:.2}", z));
        assert_eq!(text(-z), format!("{:.2}", -z));
    }
}

#[test]
fn bits_go_in_and_out_unchanged() {
    for bits in [0u32, 1, 0x3FC00000, 0x80000000, 0xFFFFFFFF] {
        assert_eq!(Real32::from_bits(bits).to_bits(), bits);
        assert_eq!(Real32::from_bits(bits), Real32 { bits });
    }
}

#[test]
fn decimal_string_writes_numbers() {
    assert_eq!(decimal_string(0), "0");
    assert_eq!(decimal_string(7), "7");
    assert_eq!(decimal_string(10), "10");
    assert_eq!(decimal_string(1234567890), "1234567890");
    assert_eq!(decimal_string(u128::MAX), "340282366920938463463374607431768211455");
    for d in 0..10u128 {
        assert_eq!(decimal_string(d), d.to_string());
    }
}

#[test]
fn contains_finds_markers() {
    assert!(contains("HDDT", "DT"));
    assert!(contains("DT", "DT"));
    assert!(contains("DTHD", "DT"));
    assert!(!contains("D", "DT"));
    assert!(!contains("TD", "DT"));
    assert!(!contains("", "DT"));
    assert!(contains("", ""));
    assert!(contains("abc", ""));
    assert!(contains("aab", "ab"));
    assert!(!contains("D\u{e9}T", "DT"));
    assert!(contains("\u{e9}DT", "DT"));
    assert!(contains("ab\u{1F600}cd", "\u{1F600}c"));
    assert!(contains_chars(&vec!['a', 'b', 'c'], &vec!['b', 'c']));
    assert!(!contains_chars(&vec!['a', 'b', 'c'], &vec!['c', 'b']));
    assert!(contains_chars(&vec![], &vec![]));
}

#[test]
fn chars_of_lists_the_characters() {
    assert_eq!(chars_of(""), Vec::<char>::new());
    assert_eq!(chars_of("a-\u{e9}"), vec!['a', '-', '\u{e9}']);
}
