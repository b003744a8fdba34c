use tello_sdk::num::{fmt_i8, fmt_u64, is_float_text_x, parse_i16, parse_u16, parse_u8};
use tello_sdk::text::{bytes_eq, contains_bytes, is_valid_utf8, push_char, split_bytes, trim};

#[test]
fn trim_removes_ascii_whitespace_both_ends() {
    assert_eq!(trim(b"  ok\r\n"), &b"ok"[..]);
    assert_eq!(trim(b"ok"), &b"ok"[..]);
    assert_eq!(trim(b" \t \n "), &b""[..]);
    assert_eq!(trim(b""), &b""[..]);
    assert_eq!(trim(b" a b "), &b"a b"[..]);
}

#[test]
fn contains_finds_substrings() {
    assert!(contains_bytes(b"response ok", b"ok"));
    assert!(contains_bytes(b"ok", b"ok"));
    assert!(contains_bytes(b"anything", b""));
    assert!(!contains_bytes(b"o", b"ok"));
    assert!(!contains_bytes(b"okay", b"error"));
    assert!(contains_bytes(b"wifi-setter", b"wifi"));
}

#[test]
fn bytes_eq_compares_contents() {
    assert!(bytes_eq(b"abc", b"abc"));
    assert!(!bytes_eq(b"abc", b"abd"));
    assert!(!bytes_eq(b"abc", b"ab"));
    assert!(bytes_eq(b"", b""));
}

#[test]
fn split_keeps_empty_pieces() {
    let toks = split_bytes(b"a:1;b:2;;", b';');
    let views: Vec<&[u8]> = toks.iter().map(|t| t.as_slice()).collect();
    assert_eq!(views, vec![&b"a:1"[..], b"b:2", b"", b""]);
    let toks = split_bytes(b"", b';');
    assert_eq!(toks.len(), 1);
    assert!(toks[0].is_empty());
}

#[test]
fn parse_u8_matches_std() {
    for s in [&b"0"[..], b"255", b"+7", b"007", b"256", b"-1", b"-0", b"", b"+", b"1 ", b"a"] {
        let expected = std::str::from_utf8(s).unwrap().parse::<u8>().ok();
        assert_eq!(parse_u8(s), expected, "input {:?}", s);
    }
}

#[test]
fn parse_u16_matches_std() {
    for s in [&b"0"[..], b"65535", b"65536", b"+42", b"999999999999", b"12x", b""] {
        let expected = std::str::from_utf8(s).unwrap().parse::<u16>().ok();
        assert_eq!(parse_u16(s), expected, "input {:?}", s);
    }
}

#[test]
fn parse_i16_matches_std() {
    for s in [
        &b"0"[..],
        b"32767",
        b"32768",
        b"-32768",
        b"-32769",
        b"+5",
        b"-0",
        b"--1",
        b"+-1",
        b"",
        b"-",
        b"+",
        b"1.0",
        b"00042",
    ] {
        let expected = std::str::from_utf8(s).unwrap().parse::<i16>().ok();
        assert_eq!(parse_i16(s), expected, "input {:?}", s);
    }
}

#[test]
fn fmt_renders_decimal() {
    assert_eq!(fmt_u64(0), b"0".to_vec());
    assert_eq!(fmt_u64(7), b"7".to_vec());
    assert_eq!(fmt_u64(10), b"10".to_vec());
    assert_eq!(fmt_u64(65535), b"65535".to_vec());
    assert_eq!(fmt_u64(18446744073709551615), b"18446744073709551615".to_vec());
    assert_eq!(fmt_i8(0), b"0".to_vec());
    assert_eq!(fmt_i8(127), b"127".to_vec());
    assert_eq!(fmt_i8(-1), b"-1".to_vec());
    assert_eq!(fmt_i8(-128), b"-128".to_vec());
}

#[test]
fn utf8_validity_matches_std_acceptance() {
    let cases: &[&[u8]] = &[
        b"",
        b"ok",
        b"error Motor stop",
        b"caf\xC3\xA9",             // two-byte sequence
        b"\xE2\x82\xAC",            // three-byte sequence (euro sign)
        b"\xF0\x9F\x9A\x81",        // four-byte sequence (helicopter)
        b"\xED\x9F\xBF",            // U+D7FF, highest before surrogates
        b"\xEE\x80\x80",            // U+E000, first after surrogates
        b"\xF4\x8F\xBF\xBF",        // U+10FFFF, the last code point
        b"\x80",                    // lone continuation byte
        b"\xC0\xAF",                // overlong two-byte form
        b"\xC1\xBF",                // overlong two-byte form
        b"\xC2",                    // truncated two-byte sequence
        b"\xE0\x80\x80",            // overlong three-byte form
        b"\xED\xA0\x80",            // surrogate
        b"\xF0\x80\x80\x80",        // overlong four-byte form
        b"\xF4\x90\x80\x80",        // above U+10FFFF
        b"\xF5\x80\x80\x80",        // invalid leading byte
        b"\xFF",                    // invalid leading byte
        b"ok\xC3",                  // valid prefix, truncated tail
    ];
    for s in cases {
        assert_eq!(
            is_valid_utf8(s),
            std::str::from_utf8(s).is_ok(),
            "input {:?}",
            s
        );
    }
}

#[test]
fn push_char_encodes_as_std_does() {
    for c in ['a', '\0', '~', 'é', 'ß', '€', '\u{D7FF}', '\u{E000}', '😀', '\u{10FFFF}'] {
        let mut w: Vec<u8> = Vec::new();
        push_char(&mut w, c);
        let mut expected = [0u8; 4];
        assert_eq!(w, c.encode_utf8(&mut expected).as_bytes().to_vec(), "char {:?}", c);
        assert!(is_valid_utf8(&w));
    }
}

#[test]
fn float_text_matches_std_acceptance() {
    let accepted: &[&[u8]] = &[
        b"0.0", b"1.23", b"-1000.0", b"+12.", b".5", b"-.5", b"5.", b"1e5", b"1E+07", b"1e-3",
        b"3.25e2", b"inf", b"-inf", b"Infinity", b"NaN", b"nan", b"+INF", b"007", b"1.",
    ];
    for s in accepted {
        assert!(is_float_text_x(s), "should accept {:?}", s);
        assert!(std::str::from_utf8(s).unwrap().parse::<f32>().is_ok());
    }
    let rejected: &[&[u8]] = &[
        b"", b".", b"+", b"-", b"e5", b"1e", b"1e+", b"1.2.3", b"nan(1)", b" 1.2", b"1.2 ",
        b"0x1p3", b"1,5", b"--1", b"infx",
    ];
    for s in rejected {
        assert!(!is_float_text_x(s), "should reject {:?}", s);
        assert!(std::str::from_utf8(s).unwrap().parse::<f32>().is_err());
    }
}
