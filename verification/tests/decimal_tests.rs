use embystream::decimal::{decimal_string, parse_i32, parse_u16, parse_u64};

#[test]
fn parses_like_str_parse() {
    for s in ["0", "65535", "+7", "0007", "", "+", "-1", "65536", " 1", "1a"] {
        assert_eq!(parse_u16(s), s.parse::<u16>().ok(), "input {s:?}");
    }
    for s in ["0", "18446744073709551615", "18446744073709551616", "+9", "-0"] {
        assert_eq!(parse_u64(s), s.parse::<u64>().ok(), "input {s:?}");
    }
    for s in ["0", "-2147483648", "2147483647", "2147483648", "-2147483649", "-", "+-1", "-+1", "+12", "-0"] {
        assert_eq!(parse_i32(s), s.parse::<i32>().ok(), "input {s:?}");
    }
}

#[test]
fn writes_like_display() {
    for n in [0u64, 7, 10, 60001, 18446744073709551615] {
        assert_eq!(decimal_string(n), n.to_string());
    }
}

#[test]
fn written_numbers_read_back() {
    for n in [0u64, 9, 10, 65535, 4294967296, 18446744073709551615] {
        assert_eq!(parse_u64(&decimal_string(n)), Some(n));
    }
    assert_eq!(parse_u16(&decimal_string(60001)), Some(60001));
    assert_eq!(parse_u16(&decimal_string(65536)), None);
}
