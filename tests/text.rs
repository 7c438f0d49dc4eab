use dorc::{parse_port, trim, u16_to_decimal};

#[test]
fn decimal_numerals() {
    assert_eq!(u16_to_decimal(0), "0");
    assert_eq!(u16_to_decimal(7), "7");
    assert_eq!(u16_to_decimal(9001), "9001");
    assert_eq!(u16_to_decimal(65535), "65535");
}

#[test]
fn ports_as_u16_parse_reads_them() {
    for s in ["0", "80", "8080", "+80", "65535", "007", "", "+", "-1", "65536", "12a", " 80", "99999999"] {
        assert_eq!(parse_port(s), s.parse::<u16>().ok(), "{:?}", s);
    }
    assert_eq!(parse_port("9000"), Some(9000));
    assert_eq!(parse_port("65536"), None);
}

#[test]
fn trimming_matches_str_trim() {
    for s in ["", "   ", " a ", "\t x y \n", "\u{3000}a\u{a0}", "a\u{85}", "\u{200b}b", "x"] {
        assert_eq!(trim(s), s.trim(), "{:?}", s);
    }
    assert_eq!(trim("  foo \n"), "foo");
}
