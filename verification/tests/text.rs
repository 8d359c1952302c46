use ctp_router::text::{slice_to_string, zh_cstr_to_str};

#[test]
fn ascii_fixed_buffer_decodes_exactly() {
    assert_eq!(zh_cstr_to_str(b"ABC\0\0\0"), "ABC");
}

#[test]
fn empty_run_decodes_to_empty_string() {
    assert_eq!(zh_cstr_to_str(b"\0\0\0\0"), "");
    assert_eq!(zh_cstr_to_str(b""), "");
}

#[test]
fn bytes_after_the_first_zero_are_padding() {
    assert_eq!(zh_cstr_to_str(b"ok\0garbage"), "ok");
}

#[test]
fn buffer_without_terminator_decodes_whole() {
    assert_eq!(zh_cstr_to_str(b"AB"), "AB");
}

#[test]
fn gb18030_text_decodes() {
    // "ZHONG" (middle) in GB18030 is 0xD6 0xD0.
    assert_eq!(zh_cstr_to_str(&[0xd6, 0xd0, 0x00, 0x00]), "\u{4e2d}");
}

#[test]
fn invalid_sequences_degrade_to_replacement() {
    let decoded = zh_cstr_to_str(&[0x41, 0xff, 0x41, 0x00]);
    assert!(decoded.contains('\u{fffd}'));
}

#[test]
fn lone_trailing_lead_byte_never_panics() {
    let decoded = zh_cstr_to_str(&[0xd6]);
    assert!(decoded.contains('\u{fffd}'));
}

#[test]
fn signed_bytes_decode_like_unsigned() {
    let v: Vec<i8> = vec![98, 97, 100, 0, 0];
    assert_eq!(slice_to_string(&v), "bad");
    let zh: Vec<i8> = vec![0xd6u8 as i8, 0xd0u8 as i8, 0];
    assert_eq!(slice_to_string(&zh), "\u{4e2d}");
}
