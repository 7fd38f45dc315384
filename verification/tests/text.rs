use redisless::text::{owned_text, same_bytes};

#[test]
fn bytes_compare_one_by_one() {
    assert!(same_bytes(b"", b""));
    assert!(same_bytes(b"SET", b"SET"));
    assert!(!same_bytes(b"SET", b"set"));
    assert!(!same_bytes(b"SET", b"SE"));
    assert!(!same_bytes(b"SE", b"SET"));
    assert!(!same_bytes(b"SET", b"SEX"));
    assert!(!same_bytes(b"", b"a"));
}

#[test]
fn text_of_well_formed_bytes() {
    assert_eq!(owned_text(b""), Some(String::new()));
    assert_eq!(owned_text(b"FROBNICATE"), Some("FROBNICATE".to_string()));
    assert_eq!(
        owned_text(&[0x63, 0x61, 0x66, 0xc3, 0xa9]),
        Some("caf\u{e9}".to_string())
    );
    assert_eq!(
        owned_text(&[0xf0, 0x9f, 0x98, 0x80]),
        Some("\u{1f600}".to_string())
    );
}

#[test]
fn no_text_of_ill_formed_bytes() {
    let strings: Vec<&[u8]> = vec![
        &[0x80],
        &[0xff],
        &[0xc3],
        &[0xc3, 0x28],
        &[0xc0, 0x80],
        &[0xc1, 0xbf],
        &[0xe0, 0x9f, 0xbf],
        &[0xed, 0xa0, 0x80],
        &[0xed, 0xbf, 0xbf],
        &[0xf0, 0x8f, 0xbf, 0xbf],
        &[0xf4, 0x90, 0x80, 0x80],
        &[0xf5, 0x80, 0x80, 0x80],
        &[0x41, 0xe2, 0x82],
    ];
    for bytes in strings {
        assert_eq!(owned_text(bytes), None);
    }
}
