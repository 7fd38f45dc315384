use redisless::command::parse_duration;
use redisless::decimal::parse_decimal;
use redisless::protocol::error::RedisCommandError;

#[test]
fn duration_in_plain_digits() {
    assert_eq!(parse_duration(b"0".to_vec()), Ok(0));
    assert_eq!(parse_duration(b"7".to_vec()), Ok(7));
    assert_eq!(parse_duration(b"60".to_vec()), Ok(60));
    assert_eq!(parse_duration(b"1234567890".to_vec()), Ok(1_234_567_890));
}

#[test]
fn duration_with_leading_zeros_or_plus() {
    assert_eq!(parse_duration(b"007".to_vec()), Ok(7));
    assert_eq!(parse_duration(b"+5".to_vec()), Ok(5));
    assert_eq!(parse_duration(b"+0".to_vec()), Ok(0));
    assert_eq!(
        parse_duration(b"0000000000000000000000000000001".to_vec()),
        Ok(1)
    );
}

#[test]
fn duration_at_the_limit_of_64_bits() {
    assert_eq!(
        parse_duration(b"18446744073709551615".to_vec()),
        Ok(u64::MAX)
    );
    assert_eq!(
        parse_duration(b"18446744073709551616".to_vec()),
        Err(RedisCommandError::IntParse)
    );
    assert_eq!(
        parse_duration(b"99999999999999999999".to_vec()),
        Err(RedisCommandError::IntParse)
    );
    assert_eq!(
        parse_duration(b"184467440737095516150".to_vec()),
        Err(RedisCommandError::IntParse)
    );
}

#[test]
fn duration_that_is_no_number() {
    let texts: Vec<&[u8]> = vec![
        b"",
        b"+",
        b"-",
        b"-5",
        b"++5",
        b"+-5",
        b"5+",
        b" 5",
        b"5 ",
        b"1_000",
        b"1.5",
        b"1e3",
        b"0x10",
        b"notanumber",
        b"12a",
        "\u{0663}".as_bytes(),
        "\u{ff15}".as_bytes(),
    ];
    for text in texts {
        assert_eq!(
            parse_duration(text.to_vec()),
            Err(RedisCommandError::IntParse)
        );
    }
}

#[test]
fn duration_that_is_no_text() {
    let strings: Vec<&[u8]> = vec![
        &[0xff],
        &[0x36, 0x30, 0x80],
        &[0xc3],
        &[0xc0, 0xaf],
        &[0xe0, 0x80, 0x80],
        &[0xed, 0xa0, 0x80],
        &[0xf4, 0x90, 0x80, 0x80],
        &[0xf8, 0x88, 0x80, 0x80, 0x80],
    ];
    for bytes in strings {
        assert_eq!(
            parse_duration(bytes.to_vec()),
            Err(RedisCommandError::BadString)
        );
    }
}

#[test]
fn duration_agrees_with_the_standard_parser() {
    let texts: Vec<&str> = vec![
        "", "0", "1", "9", "10", "+1", "-1", "+", "00", "4294967296", "18446744073709551615",
        "18446744073709551616", "1844674407370955161", "x", "1x", "x1", " 1", "+ 1", "++1",
        "999999999999999999999999", "000000000000000000000000",
    ];
    for text in texts {
        assert_eq!(
            parse_duration(text.as_bytes().to_vec()).ok(),
            text.parse::<u64>().ok()
        );
        assert_eq!(parse_decimal(text.as_bytes()), text.parse::<u64>().ok());
    }
}

#[test]
fn decimal_reads_digits_only() {
    assert_eq!(parse_decimal(b"42"), Some(42));
    assert_eq!(parse_decimal(b"+42"), Some(42));
    assert_eq!(parse_decimal(b"18446744073709551615"), Some(u64::MAX));
    assert_eq!(parse_decimal(b"18446744073709551616"), None);
    assert_eq!(parse_decimal(b""), None);
    assert_eq!(parse_decimal(b"+"), None);
    assert_eq!(parse_decimal(b"4 2"), None);
    assert_eq!(parse_decimal(&[0x34, 0xff]), None);
    assert_eq!(parse_decimal(b"/"), None);
    assert_eq!(parse_decimal(b":"), None);
}
