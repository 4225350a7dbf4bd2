use ip_kvm::error::{DeserializedError, ErrorKind};
use ip_kvm::fs::{number_or_error, read_to_bool, read_to_u16, read_to_u8};

fn is_parse_int_error(kind: &ErrorKind) -> bool {
    matches!(kind, ErrorKind::Deserialized(DeserializedError::ParseInt(_)))
}

fn custom_message(kind: &ErrorKind) -> Option<String> {
    match kind {
        ErrorKind::Deserialized(DeserializedError::Custom(msg)) => Some(msg.clone()),
        _ => None,
    }
}

#[test]
fn read_to_bool_accepts_four_words() {
    assert_eq!(read_to_bool("1").unwrap(), true);
    assert_eq!(read_to_bool("0").unwrap(), false);
    assert_eq!(read_to_bool("true").unwrap(), true);
    assert_eq!(read_to_bool("false").unwrap(), false);
}

#[test]
fn read_to_bool_trims_whitespace() {
    assert_eq!(read_to_bool("1\n").unwrap(), true);
    assert_eq!(read_to_bool("  0 \t\r\n").unwrap(), false);
    assert_eq!(read_to_bool("\u{a0}true\u{3000}").unwrap(), true);
}

#[test]
fn read_to_bool_refuses_anything_else() {
    for text in ["", "2", "yes", "TRUE", "1 0", "tru", "01"] {
        let err = read_to_bool(text).unwrap_err();
        assert_eq!(
            custom_message(err.kind()),
            Some(format!("Can not parse {} to boolean.", text.trim()))
        );
    }
    let err = read_to_bool(" maybe\n").unwrap_err();
    assert_eq!(custom_message(err.kind()), Some("Can not parse maybe to boolean.".to_string()));
}

#[test]
fn read_to_u8_reads_decimal() {
    assert_eq!(read_to_u8("0").unwrap(), 0);
    assert_eq!(read_to_u8("128").unwrap(), 128);
    assert_eq!(read_to_u8("255").unwrap(), 255);
    assert_eq!(read_to_u8("2\n").unwrap(), 2);
}

#[test]
fn read_to_u8_reads_prefixed_numerals() {
    assert_eq!(read_to_u8("0x10").unwrap(), 16);
    assert_eq!(read_to_u8("0x80\n").unwrap(), 0x80);
    assert_eq!(read_to_u8("0b101").unwrap(), 5);
    assert_eq!(read_to_u8("0o17").unwrap(), 15);
    assert_eq!(read_to_u8("1_0").unwrap(), 10);
}

#[test]
fn read_to_u8_refuses_what_does_not_fit() {
    for text in ["256", "0x100", "", "abc", "1.5", "_1"] {
        let err = read_to_u8(text).unwrap_err();
        assert!(is_parse_int_error(err.kind()), "{text}");
    }
}

#[test]
fn read_to_u8_refuses_minus_sign() {
    for text in ["-1", "-0", " -5\n", "-"] {
        let err = read_to_u8(text).unwrap_err();
        assert_eq!(
            custom_message(err.kind()),
            Some(format!("Can not parse {} to an unsigned number.", text.trim()))
        );
    }
}

#[test]
fn read_to_u16_reads_numerals() {
    assert_eq!(read_to_u16("0").unwrap(), 0);
    assert_eq!(read_to_u16("1301").unwrap(), 0x515);
    assert_eq!(read_to_u16("0x0515\n").unwrap(), 0x515);
    assert_eq!(read_to_u16("65535").unwrap(), 65535);
    assert_eq!(read_to_u16("500").unwrap(), 500);
}

#[test]
fn read_to_u16_refuses_what_does_not_fit() {
    for text in ["65536", "0x10000", "", "x"] {
        let err = read_to_u16(text).unwrap_err();
        assert!(is_parse_int_error(err.kind()), "{text}");
    }
    let err = read_to_u16("-2").unwrap_err();
    assert_eq!(
        custom_message(err.kind()),
        Some("Can not parse -2 to an unsigned number.".to_string())
    );
}

#[test]
fn written_numbers_read_back() {
    for n in 0u16..=255 {
        let text = ip_kvm::text::decimal_string(n as u64);
        assert_eq!(read_to_u8(&text).unwrap(), n as u8);
        assert_eq!(read_to_u16(&text).unwrap(), n);
    }
    for n in [256u16, 1000, 0x515, 0x7fff, 0xffff] {
        let text = ip_kvm::text::decimal_string(n as u64);
        assert_eq!(read_to_u16(&text).unwrap(), n);
    }
}

#[test]
fn number_or_error_keeps_number_and_wraps_refusal() {
    assert_eq!(number_or_error("12".parse::<u8>()).unwrap(), 12);
    let err = number_or_error("x".parse::<u8>()).unwrap_err();
    assert!(is_parse_int_error(err.kind()));
}
