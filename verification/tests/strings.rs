use gemfra::strings::parse_u16;
use gemfra::strings::parse_u32;
use gemfra::strings::u32_to_string;

#[test]
fn test_u32_to_string() {
    assert_eq!(u32_to_string(0), "0");
    assert_eq!(u32_to_string(7), "7");
    assert_eq!(u32_to_string(30), "30");
    assert_eq!(u32_to_string(1965), "1965");
    assert_eq!(u32_to_string(u32::MAX), "4294967295");
}

#[test]
fn test_parse_u16() {
    assert_eq!(parse_u16("0"), Some(0));
    assert_eq!(parse_u16("1965"), Some(1965));
    assert_eq!(parse_u16("65535"), Some(65535));
    assert_eq!(parse_u16("+30"), Some(30));
    assert_eq!(parse_u16("030"), Some(30));
    assert_eq!(parse_u16("65536"), None);
    assert_eq!(parse_u16(""), None);
    assert_eq!(parse_u16("+"), None);
    assert_eq!(parse_u16("-1"), None);
    assert_eq!(parse_u16("1 "), None);
    assert_eq!(parse_u16("0x10"), None);
}

#[test]
fn test_parse_u32() {
    assert_eq!(parse_u32("4294967295"), Some(u32::MAX));
    assert_eq!(parse_u32("4294967296"), None);
    assert_eq!(parse_u32("30"), Some(30));
    assert_eq!(parse_u32("soon"), None);
}
