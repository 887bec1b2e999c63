use focusapp::text::{
    chars_of, str_concat, contains, decimal_string, join, parse_u16_str, signed_decimal_string,
    split_chars, starts_with, str_eq, string_of, trim,
};

#[test]
fn conversions_round_trip() {
    assert_eq!(chars_of("a⚡b"), vec!['a', '⚡', 'b']);
    assert_eq!(string_of(&vec!['a', '⚡', 'b']), "a⚡b");
    assert_eq!(string_of(&vec![]), "");
    assert_eq!(str_concat("ab", "cd"), "abcd");
    assert!(str_eq("abc", "abc"));
    assert!(!str_eq("abc", "abd"));
    assert!(!str_eq("abc", "ab"));
    assert!(str_eq("", ""));
}

#[test]
fn prefixes_and_substrings() {
    assert!(starts_with("hello", ""));
    assert!(starts_with("hello", "he"));
    assert!(starts_with("hello", "hello"));
    assert!(!starts_with("hello", "hello!"));
    assert!(!starts_with("hello", "el"));
    assert!(contains("hello", ""));
    assert!(contains("", ""));
    assert!(!contains("", "a"));
    assert!(contains("hello", "ell"));
    assert!(contains("hello", "lo"));
    assert!(contains("hello", "hello"));
    assert!(!contains("hello", "hello!"));
    assert!(!contains("hello", "lol"));
    assert!(contains("{\"message\":\"Max pages reached\"}", "Max pages reached"));
    assert!(!contains("max pages reached", "Max pages reached"));
}

#[test]
fn trimming() {
    assert_eq!(trim(""), "");
    assert_eq!(trim("   "), "");
    assert_eq!(trim(" a b \n"), "a b");
    assert_eq!(trim("\t\r\nx"), "x");
    assert_eq!(trim("x\u{3000}"), "x");
    assert_eq!(trim("x"), "x");
    for text in ["", " ", " a", "a ", " a b ", "\u{a0}a\u{2003}"] {
        assert_eq!(trim(text), text.trim());
    }
}

#[test]
fn splitting() {
    let split = |text: &str| split_chars(&chars_of(text), ':');
    assert_eq!(split(""), vec![""]);
    assert_eq!(split("a"), vec!["a"]);
    assert_eq!(split(":"), vec!["", ""]);
    assert_eq!(split("a:b"), vec!["a", "b"]);
    assert_eq!(split("a::b:"), vec!["a", "", "b", ""]);
    for text in ["", "a", ":", "::", "a:b:c", ":a:", "a::"] {
        let expected: Vec<String> = text.split(':').map(|s| s.to_string()).collect();
        assert_eq!(split(text), expected);
    }
}

#[test]
fn numbers() {
    assert_eq!(decimal_string(0), "0");
    assert_eq!(decimal_string(9), "9");
    assert_eq!(decimal_string(10), "10");
    assert_eq!(decimal_string(65535), "65535");
    assert_eq!(decimal_string(u64::MAX), "18446744073709551615");
    assert_eq!(signed_decimal_string(0), "0");
    assert_eq!(signed_decimal_string(-1), "-1");
    assert_eq!(signed_decimal_string(i64::MIN), "-9223372036854775808");
    assert_eq!(signed_decimal_string(i64::MAX), "9223372036854775807");
    for text in ["0", "7", "+7", "007", "65535", "65536", "", "+", "-0", "1 ", "٣", "1_0", "99999"] {
        assert_eq!(parse_u16_str(text), text.parse::<u16>().ok(), "{:?}", text);
    }
}

#[test]
fn joining() {
    assert_eq!(join(&vec![], ". "), "");
    assert_eq!(join(&vec!["a".to_string()], ". "), "a");
    assert_eq!(join(&vec!["a".to_string(), "b".to_string(), String::new()], ". "), "a. b. ");
}

#[test]
fn ascii_white_space_is_the_space_and_five_controls() {
    for code in 0u8..128 {
        let c = code as char;
        let white = c == ' ' || ('\t'..='\r').contains(&c);
        let padded = format!("{}x{}", c, c);
        assert_eq!(trim(&padded) == "x", white, "{:?}", c);
        assert_eq!(trim(&c.to_string()).is_empty(), white, "{:?}", c);
    }
    // Beyond ASCII the character database decides.
    assert_eq!(trim("\u{85}x\u{2028}"), "x");
    assert_eq!(trim("\u{200b}x"), "\u{200b}x");
}

#[test]
fn trimmed_text_stays_as_it_is() {
    for text in ["", "a", "a b", "LeagueClient:1:2:pw:https", "⚡ x ⚡"] {
        assert_eq!(trim(text), text);
    }
}
