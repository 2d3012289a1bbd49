use opencode_pty::error::{Base64Context, Base64Error, Error};
use opencode_pty::text::{
    blank, decimal_text, hexadecimal_text, parse_signed, parse_unsigned, same, signed_decimal_text,
    split_once_white, split_words, trim, trim_end, NumberError,
};

#[test]
fn numbers_have_texts() {
    assert_eq!(decimal_text(0), "0");
    assert_eq!(decimal_text(1_048_576), "1048576");
    assert_eq!(decimal_text(u128::MAX), u128::MAX.to_string());
    assert_eq!(signed_decimal_text(i32::MIN), "-2147483648");
    assert_eq!(hexadecimal_text(0xbeef, 8), "0000beef");
    assert_eq!(hexadecimal_text(u128::MAX, 32), "f".repeat(32));
}

#[test]
fn texts_are_numbers_as_the_standard_library_reads_them() {
    for text in ["", "+", "-", "0", "00", "+7", "-7", "65535", "65536", "x", "1x", "99999x", "é"] {
        assert_eq!(parse_unsigned(text, 65535).ok(), text.parse::<u16>().ok().map(u64::from));
        assert_eq!(parse_signed(text), text.parse::<i32>().ok());
        if let Err(e) = parse_unsigned(text, 65535) {
            assert_eq!(e.message(), text.parse::<u16>().unwrap_err().to_string());
        }
    }
    assert_eq!(parse_unsigned(&u64::MAX.to_string(), u64::MAX), Ok(u64::MAX));
    assert_eq!(parse_unsigned("18446744073709551616", u64::MAX), Err(NumberError::PosOverflow));
    assert_eq!(parse_signed("-2147483648"), Some(i32::MIN));
    assert_eq!(parse_signed("-2147483649"), None);
    assert_eq!(parse_signed("2147483648"), None);
}

#[test]
fn numbers_read_back() {
    for n in [0, 9, 10, 4096, u64::MAX] {
        assert_eq!(parse_unsigned(&decimal_text(n.into()), u64::MAX), Ok(n));
    }
}

#[test]
fn white_space_is_trimmed_and_split_at() {
    let text = "\u{3000} a\u{2009}b  c\t\r\n";
    assert_eq!(trim(text), text.trim());
    assert_eq!(trim_end(text), text.trim_end());
    assert_eq!(split_words(text), text.split_whitespace().collect::<Vec<_>>());
    assert!(blank(" \u{85}\u{a0}"));
    assert!(blank(""));
    assert!(!blank(" . "));
    let (head, tail) = split_once_white("run  ls -l");
    assert_eq!((head.as_str(), tail.as_str()), ("run", " ls -l"));
    let (head, tail) = split_once_white("list");
    assert_eq!((head.as_str(), tail.as_str()), ("list", ""));
    assert!(split_words(" ").is_empty());
}

#[test]
fn white_space_is_the_unicode_property() {
    for n in 0..=0x10ffffu32 {
        if let Some(c) = char::from_u32(n) {
            assert_eq!(opencode_pty::text::white(c), c.is_whitespace());
        }
    }
}

#[test]
fn strings_are_the_same_by_their_characters() {
    assert!(same("a\u{301}", "a\u{301}"));
    assert!(!same("a", "A"));
    assert!(!same("", " "));
}

#[test]
fn errors_have_words() {
    let fault = Base64Error::InvalidByte { index: 3, byte: 33 };
    let e = Error::InvalidBase64 { what: Base64Context::SubscriptionReplay, fault };
    assert_eq!(e.message(), "invalid subscription replay base64: Invalid symbol 33, offset 3.");
    let e = Error::WrongOwner { directory: "/d".to_string(), owner: 0, expected: 1000 };
    assert_eq!(e.message(), "PTY socket directory /d is owned by uid 0, expected 1000");
    let e = Error::TerminalNotFound { id: 5 };
    assert_eq!(e.message(), "terminal 5 not found");
    assert_eq!(
        Error::OutputFrameOverflow.message(),
        "output frame length overflow"
    );
    assert_eq!(
        Error::RowIndexTooLarge.message(),
        "terminal row index exceeds u32: out of range integral type conversion attempted"
    );
}
