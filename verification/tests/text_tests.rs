use bones::text::contains_str;
use bones::text::decimal_string;
use bones::text::ends_with;
use bones::text::lines;
use bones::text::parse_u32;
use bones::text::parse_u8;
use bones::text::piece_in_list;
use bones::text::split_char;
use bones::text::starts_with;
use bones::text::trim;

#[test]
fn trimming_and_splitting() {
    assert_eq!(trim("  a b \t\n"), "a b");
    assert_eq!(trim("   "), "");
    assert_eq!(split_char("a;;b;", ';'), vec!["a", "", "b", ""]);
    assert_eq!(split_char("", ';'), vec![""]);
    assert!(piece_in_list("/a:/b", "/b", ':'));
    assert!(!piece_in_list("/a:/bc", "/b", ':'));
}

#[test]
fn line_iteration() {
    assert_eq!(lines("a\r\nb\n\nc"), vec!["a", "b", "", "c"]);
    assert_eq!(lines("x\n"), vec!["x"]);
    assert!(lines("").is_empty());
}

#[test]
fn prefixes_and_infixes() {
    assert!(starts_with("OpenGL ES 3.2", "OpenGL ES"));
    assert!(!starts_with("Open", "OpenGL"));
    assert!(ends_with("/usr/bin/flatpak", "/flatpak"));
    assert!(contains_str("a..b", ".."));
    assert!(!contains_str("a.b", ".."));
}

#[test]
fn decimal_roundtrip() {
    for n in [0u32, 7, 10, 99, 1000, 4294967295] {
        let s = decimal_string(n);
        assert_eq!(s, n.to_string());
        assert_eq!(parse_u32(&s), Some(n));
    }
    assert_eq!(parse_u8("255"), Some(255));
    assert_eq!(parse_u8("256"), None);
}
