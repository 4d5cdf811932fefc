use jotti::agent::dns::record_fqdn;
use jotti::text::{
    concat2, concat3, decimal_chars, decimal_string, lines_chars, parse_u64_bounded, replace_str,
    split_chars, trim_str, words_chars,
};

fn chars(s: &str) -> Vec<char> {
    s.chars().collect()
}

#[test]
fn decimal_text_round_trip() {
    for n in [0u64, 7, 10, 8732, u64::MAX] {
        assert_eq!(decimal_string(n), n.to_string());
        assert_eq!(parse_u64_bounded(&decimal_chars(n), u64::MAX), Some(n));
    }
    assert_eq!(parse_u64_bounded(&chars("300"), 255), None);
    assert_eq!(parse_u64_bounded(&chars(""), 255), None);
    assert_eq!(parse_u64_bounded(&chars("1a"), 255), None);
}

#[test]
fn text_helpers() {
    assert_eq!(trim_str(" \t a b \n"), "a b");
    assert_eq!(replace_str("a-b-c", "-", "+"), "a+b+c");
    assert_eq!(concat2("ab", "cd"), "abcd");
    assert_eq!(concat3("a", "b", "c"), "abc");
    assert_eq!(split_chars(&chars("a,,b"), ','), vec![chars("a"), vec![], chars("b")]);
    assert_eq!(lines_chars(&chars("a\r\nb\n")), vec![chars("a"), chars("b")]);
    assert_eq!(words_chars(&chars("  x  y ")), vec![chars("x"), chars("y")]);
}

#[test]
fn qualified_record_names_end_with_a_dot() {
    for name in ["", "@", "www", "www.", "a.example.com", "x.other.org"] {
        assert!(record_fqdn(name, "example.com.").ends_with('.'));
    }
}
