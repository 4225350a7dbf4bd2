use ip_kvm::text::{
    decimal_string, has_prefix, join_path, prefixed_hex_string, same_text, signed_decimal_string,
};

#[test]
fn decimal_numerals() {
    assert_eq!(decimal_string(0), "0");
    assert_eq!(decimal_string(7), "7");
    assert_eq!(decimal_string(10), "10");
    assert_eq!(decimal_string(255), "255");
    assert_eq!(decimal_string(0x515), "1301");
    assert_eq!(decimal_string(65535), "65535");
    assert_eq!(decimal_string(u64::MAX), "18446744073709551615");
}

#[test]
fn decimal_numerals_agree_with_std() {
    for n in 0u64..2000 {
        assert_eq!(decimal_string(n), n.to_string());
    }
}

#[test]
fn signed_decimal_numerals() {
    assert_eq!(signed_decimal_string(0), "0");
    assert_eq!(signed_decimal_string(3), "3");
    assert_eq!(signed_decimal_string(-1), "-1");
    assert_eq!(signed_decimal_string(i32::MAX), "2147483647");
    assert_eq!(signed_decimal_string(i32::MIN), "-2147483648");
}

#[test]
fn hexadecimal_numerals() {
    assert_eq!(prefixed_hex_string(0), "0x0");
    assert_eq!(prefixed_hex_string(0x409), "0x409");
    assert_eq!(prefixed_hex_string(0xffff), "0xffff");
    assert_eq!(prefixed_hex_string(0xabcdef), "0xabcdef");
    assert_eq!(prefixed_hex_string(16), "0x10");
}

#[test]
fn hexadecimal_numerals_agree_with_std() {
    for n in 0u64..2000 {
        assert_eq!(prefixed_hex_string(n), format!("{:#x}", n));
    }
}

#[test]
fn join_path_puts_a_slash_between() {
    assert_eq!(join_path("/a/b", "c"), "/a/b/c");
    assert_eq!(join_path("g", "strings"), "g/strings");
    assert_eq!(join_path("", "x"), "/x");
    assert_eq!(join_path("/a", "../../functions/f"), "/a/../../functions/f");
}

#[test]
fn same_text_compares_characters() {
    assert!(same_text("", ""));
    assert!(same_text("lun.0", "lun.0"));
    assert!(!same_text("lun.0", "lun.1"));
    assert!(!same_text("lun.0", "lun.00"));
    assert!(same_text("h\u{e9}llo", "h\u{e9}llo"));
    assert!(!same_text("h\u{e9}llo", "hello"));
}

#[test]
fn has_prefix_compares_beginnings() {
    assert!(has_prefix("hid.keyboard", "hid"));
    assert!(has_prefix("hid", "hid"));
    assert!(has_prefix("anything", ""));
    assert!(!has_prefix("hi", "hid"));
    assert!(!has_prefix("mass_storage.msg", "hid"));
    assert!(has_prefix("mass_storage.msg", "mass_storage"));
    assert!(!has_prefix("", "x"));
}
