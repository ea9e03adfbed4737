//! Number rendering and padding against Rust's own formatter.

use mbr_forensic::text::{push_dec, push_dec_pad_end, push_dec_pad_start, push_hex, push_hex_fixed, push_pad_end, push_spaces};

#[test]
fn decimal_matches_display() {
    for v in [0u64, 9, 10, 99, 100, 2048, 123_456_789, u64::MAX] {
        let mut s = String::new();
        let n = push_dec(&mut s, v);
        assert_eq!(s, v.to_string());
        assert_eq!(n, s.len());
    }
}

#[test]
fn hex_matches_lower_hex() {
    for v in [0u64, 15, 16, 0x1be, 0xdead_beef, u64::MAX] {
        let mut s = String::from("x");
        push_hex(&mut s, v);
        assert_eq!(s, format!("x{v:x}"));
    }
}

#[test]
fn fixed_hex_matches_zero_padded_format() {
    for v in [0u32, 1, 0xabc, 0x1234_abcd, u32::MAX] {
        let mut s = String::new();
        push_hex_fixed(&mut s, v as u64, 8);
        assert_eq!(format!("0x{s}"), format!("{v:#010x}"));
    }
}

#[test]
fn padding_matches_alignment_flags() {
    let mut s = String::new();
    push_pad_end(&mut s, "ab", 5);
    assert_eq!(s, format!("{:<5}", "ab"));
    let mut s = String::new();
    push_pad_end(&mut s, "abcdef", 5);
    assert_eq!(s, "abcdef");
    let mut s = String::new();
    push_dec_pad_start(&mut s, 42, 6);
    assert_eq!(s, format!("{:>6}", 42));
    let mut s = String::new();
    push_dec_pad_end(&mut s, 1_234_567, 3);
    assert_eq!(s, format!("{:<3}", 1_234_567));
    let mut s = String::new();
    push_spaces(&mut s, 0);
    push_spaces(&mut s, 3);
    assert_eq!(s, "   ");
}
