use cfc::text::{
    char_is_space, chars_of, contains_str, decimal_string, join_from, parse_decimal, split, str_eq,
    trim,
};

fn strings(items: &[&str]) -> Vec<String> {
    items.iter().map(|s| s.to_string()).collect()
}

#[test]
fn trim_removes_white_space_at_both_ends() {
    assert_eq!(trim("  @every 5s \t\n"), "@every 5s");
    assert_eq!(trim("abc"), "abc");
    assert_eq!(trim(" a b "), "a b");
}

#[test]
fn trim_of_white_space_alone_is_empty() {
    assert_eq!(trim(""), "");
    assert_eq!(trim(" \t \n"), "");
}

#[test]
fn trim_knows_unicode_white_space() {
    assert_eq!(trim("\u{a0}\u{2003}x\u{3000}\u{85}"), "x");
    assert_eq!(trim("\u{200b}x"), "\u{200b}x");
}

#[test]
fn trim_agrees_with_std() {
    for text in ["", " ", "a", " a", "a ", "\u{1680}a b\u{2028}", "\u{feff}a", "é  "] {
        assert_eq!(trim(text), text.trim());
    }
}

#[test]
fn white_space_agrees_with_std() {
    for code in 0u32..0x3100 {
        if let Some(c) = char::from_u32(code) {
            assert_eq!(char_is_space(c), c.is_whitespace(), "U+{:04X}", code);
        }
    }
}

#[test]
fn split_cuts_at_every_separator() {
    assert_eq!(split("cfc.job-exec.hello.schedule", '.'), strings(&["cfc", "job-exec", "hello", "schedule"]));
    assert_eq!(split("a=b=c", '='), strings(&["a", "b", "c"]));
}

#[test]
fn split_keeps_empty_pieces() {
    assert_eq!(split("", '.'), strings(&[""]));
    assert_eq!(split(".", '.'), strings(&["", ""]));
    assert_eq!(split("a..b.", '.'), strings(&["a", "", "b", ""]));
}

#[test]
fn split_agrees_with_std() {
    for text in ["", "a", ".a", "a.", "a.b.c.d.e", "héllo.wörld", "..."] {
        let expected: Vec<String> = text.split('.').map(|s| s.to_string()).collect();
        assert_eq!(split(text, '.'), expected);
    }
}

#[test]
fn join_puts_the_separator_between_neighbours() {
    assert_eq!(join_from(&strings(&["a", "b", "c"]), 0, "."), "a.b.c");
    assert_eq!(join_from(&strings(&["a"]), 0, "."), "a");
    assert_eq!(join_from(&strings(&[]), 0, "."), "");
    assert_eq!(join_from(&strings(&["", ""]), 0, ", "), ", ");
}

#[test]
fn join_from_skips_the_first_pieces() {
    let parts = strings(&["KEY", "a", "b"]);
    assert_eq!(join_from(&parts, 1, "."), "a.b");
    assert_eq!(join_from(&parts, 3, "."), "");
    assert_eq!(join_from(&parts, 0, "="), "KEY=a=b");
}

#[test]
fn decimal_round_trip() {
    for n in [0u32, 7, 10, 59, 100, 2147483647, 4294967295] {
        let text = decimal_string(n);
        assert_eq!(text, n.to_string());
    }
    assert_eq!(parse_decimal(&chars_of("0010")), Some(10));
    assert_eq!(parse_decimal(&chars_of("2147483647")), Some(2147483647));
    assert_eq!(parse_decimal(&chars_of("")), Some(0));
    assert_eq!(parse_decimal(&chars_of("12a")), None);
    assert_eq!(parse_decimal(&chars_of("-1")), None);
    assert_eq!(parse_decimal(&chars_of("١٢")), None);
}

#[test]
fn decimal_above_the_limit_is_refused() {
    assert_eq!(parse_decimal(&chars_of("2147483648")), None);
    assert_eq!(parse_decimal(&chars_of("99999999999999999999")), None);
}

#[test]
fn string_comparison_goes_by_characters() {
    assert!(str_eq("job-local", "job-local"));
    assert!(!str_eq("job-local", "job-locaL"));
    assert!(!str_eq("a", "ab"));
    assert!(str_eq("", ""));
    assert!(contains_str(&strings(&["cfc", "ofelia"]), "ofelia"));
    assert!(!contains_str(&strings(&["cfc", "ofelia"]), "ofeli"));
}
