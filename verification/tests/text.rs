use rustproxy::text::{chars_of, parse_usize_chars, push_decimal, second_word_of, trim_chars};

fn string_from_chars(chars: &[char]) -> String {
    chars.iter().collect()
}

fn parse(s: &str) -> Option<usize> {
    parse_usize_chars(&chars_of(s))
}

#[test]
fn parses_like_std() {
    for s in ["0", "42", "+42", "007", "", "+", "-1", "-0", "1 ", " 1", "4x", "18446744073709551615",
        "18446744073709551616", "99999999999999999999999999"]
    {
        assert_eq!(parse(s), s.parse::<usize>().ok(), "input {:?}", s);
    }
}

#[test]
fn decimal_round_trip() {
    for n in [0u64, 9, 10, 99, 100, 12345, u64::MAX] {
        let mut out = Vec::new();
        push_decimal(&mut out, n);
        let s = string_from_chars(&out);
        assert_eq!(s, n.to_string());
    }
}

#[test]
fn trims_like_std() {
    for s in ["", "  ", " a ", "\u{2003}x y\u{85}", "\t\r\nSTATS\n", "a"] {
        let t = string_from_chars(&trim_chars(&chars_of(s)));
        assert_eq!(t, s.trim());
    }
}

#[test]
fn second_word_like_std() {
    for s in ["GET /a HTTP", "GET", "", "  a   b  c", "a\u{a0}b"] {
        let w = second_word_of(&chars_of(s)).map(|v| string_from_chars(&v));
        assert_eq!(w.as_deref(), s.split_whitespace().nth(1));
    }
}
