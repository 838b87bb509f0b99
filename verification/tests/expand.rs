use fltk_utils::expand::{
    expansion_buffer, expansion_input, find_nul, interpret_expansion, utf8_valid_up_to,
    FltkError, FltkErrorKind, MAX_PATH_LEN,
};

#[test]
fn buffer_is_zeroed_and_full_size() {
    let buf = expansion_buffer();
    assert_eq!(buf.len(), MAX_PATH_LEN);
    assert!(buf.iter().all(|&b| b == 0));
}

#[test]
fn input_is_nul_terminated() {
    assert_eq!(expansion_input(b"~/x"), vec![b'~', b'/', b'x', 0]);
}

#[test]
fn input_with_embedded_nul_is_truncated() {
    assert_eq!(expansion_input(b"~/a\0b"), vec![b'~', b'/', b'a', 0]);
}

#[test]
fn find_nul_reports_first_occurrence() {
    assert_eq!(find_nul(b"ab\0c\0"), Some(2));
    assert_eq!(find_nul(b"\0"), Some(0));
    assert_eq!(find_nul(b"abc"), None);
    assert_eq!(find_nul(b""), None);
}

#[test]
fn valid_up_to_on_valid_text_is_whole_length() {
    assert_eq!(utf8_valid_up_to(b"plain ascii"), 11);
    // U+00E9, U+4E16, U+1F600: 2-, 3- and 4-byte encodings
    let s = "\u{e9}\u{4e16}\u{1f600}";
    assert_eq!(utf8_valid_up_to(s.as_bytes()), s.len());
    assert_eq!(utf8_valid_up_to(b""), 0);
}

#[test]
fn valid_up_to_stops_at_first_bad_byte() {
    assert_eq!(utf8_valid_up_to(&[0x61, 0xff, 0x62]), 1);
    assert_eq!(utf8_valid_up_to(&[0xc3, 0xa9, 0x80]), 2);
    assert_eq!(utf8_valid_up_to(&[0xc3]), 0);
}

#[test]
fn valid_up_to_rejects_surrogates_and_overlong_forms() {
    // UTF-8 pattern of a surrogate codepoint
    assert_eq!(utf8_valid_up_to(&[0xed, 0xa0, 0x80]), 0);
    // overlong encoding of the nul character
    assert_eq!(utf8_valid_up_to(&[0xc0, 0x80]), 0);
    // overlong 3-byte encoding
    assert_eq!(utf8_valid_up_to(&[0xe0, 0x80, 0xaf]), 0);
    // largest scalar, then the first value past it
    assert_eq!(utf8_valid_up_to(&[0xf4, 0x8f, 0xbf, 0xbf]), 4);
    assert_eq!(utf8_valid_up_to(&[0xf4, 0x90, 0x80, 0x80]), 0);
}

#[test]
fn failed_native_call_is_operation_error() {
    let buf = expansion_buffer();
    let r = interpret_expansion(0, buf);
    assert!(matches!(
        r,
        Err(FltkError::Internal(FltkErrorKind::FailedOperation))
    ));
}

#[test]
fn successful_call_yields_text_before_first_nul() {
    let mut buf = expansion_buffer();
    let path = b"/home/user/file.txt";
    buf[..path.len()].copy_from_slice(path);
    let r = interpret_expansion(1, buf);
    assert_eq!(r.unwrap(), "/home/user/file.txt");
}

#[test]
fn successful_call_decodes_multibyte_text() {
    let mut buf = expansion_buffer();
    let path = "/home/\u{e9}t\u{e9}/caf\u{e9}".as_bytes();
    buf[..path.len()].copy_from_slice(path);
    let r = interpret_expansion(1, buf);
    assert_eq!(r.unwrap(), "/home/\u{e9}t\u{e9}/caf\u{e9}");
}

#[test]
fn successful_call_with_empty_output_is_empty_text() {
    let buf = expansion_buffer();
    let r = interpret_expansion(1, buf);
    assert_eq!(r.unwrap(), "");
}

#[test]
fn invalid_output_bytes_are_a_decoding_error() {
    let mut buf = expansion_buffer();
    buf[0] = 0xff;
    let r = interpret_expansion(1, buf);
    match r {
        Err(FltkError::Utf8Error(f)) => {
            assert_eq!(f.bytes, vec![0xff]);
            assert_eq!(f.valid_up_to, 0);
        }
        _ => panic!("expected a decoding error"),
    }
}

#[test]
fn decoding_error_keeps_valid_prefix_position() {
    let mut buf = expansion_buffer();
    buf[0] = b'a';
    buf[1] = 0xc3;
    buf[2] = 0x28;
    let r = interpret_expansion(1, buf);
    match r {
        Err(FltkError::Utf8Error(f)) => {
            assert_eq!(f.bytes, vec![b'a', 0xc3, 0x28]);
            assert_eq!(f.valid_up_to, 1);
        }
        _ => panic!("expected a decoding error"),
    }
}
