use macopy::text::{
    chars_of, contains, decimal_text, digit_value, matches_at, parse_index, remove_all,
    same_text, starts_with, strip_prefix,
};

fn chars(text: &str) -> Vec<char> {
    text.chars().collect()
}

#[test]
fn same_text_compares_characters() {
    assert!(same_text("abc", "abc"));
    assert!(same_text("", ""));
    assert!(!same_text("abc", "abd"));
    assert!(!same_text("abc", "ab"));
    assert!(!same_text("é", "e"));
}

#[test]
fn prefixes() {
    assert!(starts_with("history_3", "history_"));
    assert!(starts_with("history_", "history_"));
    assert!(starts_with("anything", ""));
    assert!(!starts_with("histor", "history_"));
    assert!(!starts_with("xhistory_3", "history_"));
    assert_eq!(strip_prefix("history_3", "history_"), Some("3"));
    assert_eq!(strip_prefix("history_", "history_"), Some(""));
    assert_eq!(strip_prefix("日本語のテキスト", "日本"), Some("語のテキスト"));
    assert_eq!(strip_prefix("other", "history_"), None);
    assert_eq!(strip_prefix("", "h"), None);
}

#[test]
fn substrings() {
    assert!(contains("ja_JP", "ja"));
    assert!(contains("en_ja", "ja"));
    assert!(contains("abc", ""));
    assert!(contains("", ""));
    assert!(!contains("", "a"));
    assert!(!contains("aj", "ja"));
    assert!(!contains("j", "ja"));
    assert!(contains("日本語", "本語"));
}

#[test]
fn characters_of_a_text() {
    assert_eq!(chars_of("aé日"), vec!['a', 'é', '日']);
    assert_eq!(chars_of(""), Vec::<char>::new());
}

#[test]
fn matching_at_a_position() {
    assert!(matches_at(&chars("abcabc"), &chars("abc"), 0));
    assert!(matches_at(&chars("abcabc"), &chars("abc"), 3));
    assert!(!matches_at(&chars("abcabc"), &chars("abc"), 1));
    assert!(!matches_at(&chars("abcabc"), &chars("abc"), 4));
    assert!(!matches_at(&chars("abc"), &chars("abc"), 7));
    assert!(matches_at(&chars("abc"), &chars(""), 3));
    assert!(!matches_at(&chars("abc"), &chars(""), 4));
}

#[test]
fn taking_a_pattern_out() {
    for (text, pattern) in [
        ("history_3", "history_"),
        ("history_history_3", "history_"),
        ("history_1history_2", "history_"),
        ("3history_", "history_"),
        ("ababa", "aba"),
        ("aaaa", "aa"),
        ("aaa", "aa"),
        ("abc", ""),
        ("", "a"),
        ("histor", "history_"),
        ("hhistory_x", "history_"),
    ] {
        let expected: Vec<char> = text.replace(pattern, "").chars().collect();
        assert_eq!(remove_all(&chars(text), &chars(pattern)), expected);
    }
    assert_eq!(remove_all(&chars("history_12"), &chars("history_")), chars("12"));
    assert_eq!(remove_all(&chars("ababa"), &chars("aba")), chars("ba"));
}

#[test]
fn digits() {
    assert_eq!(digit_value('0'), Some(0));
    assert_eq!(digit_value('7'), Some(7));
    assert_eq!(digit_value('9'), Some(9));
    assert_eq!(digit_value('a'), None);
    assert_eq!(digit_value('+'), None);
    assert_eq!(digit_value('٣'), None);
}

#[test]
fn indexes_are_parsed_as_the_standard_library_parses_them() {
    let max = usize::MAX.to_string();
    let over = format!("{}0", usize::MAX);
    let over_by_one = {
        let mut digits: Vec<u8> = max.clone().into_bytes();
        let last = digits.len() - 1;
        digits[last] += 1;
        String::from_utf8(digits).unwrap()
    };
    for text in [
        "0", "7", "10", "007", "+5", "+", "", "-1", "++1", "1+", " 1", "1 ", "1_0", "٣", "12a",
        "18446744073709551615", "18446744073709551616", "99999999999999999999999",
        max.as_str(), over.as_str(), over_by_one.as_str(),
    ] {
        assert_eq!(parse_index(&chars(text)), text.parse::<usize>().ok());
    }
    assert_eq!(parse_index(&chars("42")), Some(42));
    assert_eq!(parse_index(&chars("+42")), Some(42));
    assert_eq!(parse_index(&chars("")), None);
    assert_eq!(parse_index(&chars("+")), None);
    assert_eq!(parse_index(&chars(&max)), Some(usize::MAX));
    assert_eq!(parse_index(&chars(&over)), None);
}

#[test]
fn numbers_in_decimal() {
    assert_eq!(decimal_text(0), "0");
    assert_eq!(decimal_text(9), "9");
    assert_eq!(decimal_text(10), "10");
    assert_eq!(decimal_text(1203), "1203");
    assert_eq!(decimal_text(usize::MAX), usize::MAX.to_string());
}

#[test]
fn decimal_text_is_parsed_back() {
    for n in [0, 1, 9, 10, 11, 99, 100, 12345, usize::MAX - 1, usize::MAX] {
        assert_eq!(parse_index(&chars(&decimal_text(n))), Some(n));
    }
}
