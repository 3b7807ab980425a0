use lazy_panic::text::{push_dec_u32, push_dec_usize, push_hex_usize, push_pad_left};

#[test]
fn decimal_numerals_are_exact() {
    let mut out: Vec<u8> = Vec::new();
    push_dec_u32(&mut out, 0);
    out.push(b' ');
    push_dec_u32(&mut out, 42);
    out.push(b' ');
    push_dec_u32(&mut out, 4294967295);
    assert_eq!(out, b"0 42 4294967295".to_vec());
}

#[test]
fn decimal_usize_matches_u32() {
    let mut a: Vec<u8> = Vec::new();
    push_dec_usize(&mut a, 305);
    let mut b: Vec<u8> = Vec::new();
    push_dec_u32(&mut b, 305);
    assert_eq!(a, b);
}

#[test]
fn hex_numerals_are_lower_case_without_prefix() {
    let mut out: Vec<u8> = Vec::new();
    push_hex_usize(&mut out, 0);
    out.push(b' ');
    push_hex_usize(&mut out, 255);
    out.push(b' ');
    push_hex_usize(&mut out, 0xdeadbeef);
    assert_eq!(out, b"0 ff deadbeef".to_vec());
}

#[test]
fn padding_is_left_spaces_only_when_short() {
    let mut out: Vec<u8> = Vec::new();
    push_pad_left(&mut out, b"ab", 4);
    assert_eq!(out, b"  ab".to_vec());

    let mut out: Vec<u8> = Vec::new();
    push_pad_left(&mut out, b"abcdef", 4);
    assert_eq!(out, b"abcdef".to_vec());
}
