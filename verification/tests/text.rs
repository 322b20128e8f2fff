use tidybee_agent::agent_uuid::uuid_file_contents;
use tidybee_agent::text::{
    concat_chars, contains_chars, decimal_chars_signed, decimal_string, find_chars, from_chars,
    parse_i64, parse_u64, split_first_two, split_whitespace, starts_with_chars, suffix_from,
    to_chars, trim_quotes,
};
use tidybee_agent::utils::path_to_pretty_path;

fn cs(s: &str) -> Vec<char> {
    s.chars().collect()
}

#[test]
fn chars_round_trip() {
    assert_eq!(from_chars(&to_chars("héllo wörld")), "héllo wörld");
    assert_eq!(from_chars(&concat_chars(&cs("ab"), &cs("cd"))), "abcd");
    assert_eq!(from_chars(&suffix_from(&cs("abcdef"), 4)), "ef");
}

#[test]
fn searching_finds_the_first_occurrence() {
    assert_eq!(find_chars(&cs("abcabc"), &cs("ca")), Some(2));
    assert_eq!(find_chars(&cs("abc"), &cs("x")), None);
    assert_eq!(find_chars(&cs("abc"), &cs("")), Some(0));
    assert!(contains_chars(&cs("/home/me"), &cs("me")));
    assert!(starts_with_chars(&cs("/home/me"), &cs("/ho")));
    assert!(!starts_with_chars(&cs("/h"), &cs("/home")));
}

#[test]
fn decimals_render_like_display() {
    assert_eq!(decimal_string(0), "0");
    assert_eq!(decimal_string(u128::MAX), u128::MAX.to_string());
    assert_eq!(from_chars(&decimal_chars_signed(i128::MIN)), i128::MIN.to_string());
    assert_eq!(from_chars(&decimal_chars_signed(-42)), "-42");
}

#[test]
fn integers_parse_like_str_parse() {
    assert_eq!(parse_u64(&cs("18446744073709551615")), Some(u64::MAX));
    assert_eq!(parse_u64(&cs("18446744073709551616")), None);
    assert_eq!(parse_u64(&cs("+7")), Some(7));
    assert_eq!(parse_u64(&cs("")), None);
    assert_eq!(parse_i64(&cs("-9223372036854775808")), Some(i64::MIN));
    assert_eq!(parse_i64(&cs("+1")), Some(1));
    assert_eq!(parse_i64(&cs("1x")), None);
    assert_eq!(parse_i64(&cs("-")), None);
}

#[test]
fn whitespace_splits_like_split_whitespace() {
    let text = "  a\tbc \n d  ";
    let got: Vec<String> = split_whitespace(&cs(text)).iter().map(from_chars).collect();
    let want: Vec<String> = text.split_whitespace().map(String::from).collect();
    assert_eq!(got, want);
    assert!(split_whitespace(&cs(" \u{3000} ")).is_empty());
}

#[test]
fn first_two_pieces_split_at_separator() {
    let (a, b) = split_first_two(&cs("key=value=more"), '=');
    assert_eq!(from_chars(&a), "key");
    assert_eq!(b.map(|v| from_chars(&v)), Some("value".to_string()));
    let (a, b) = split_first_two(&cs("alone"), '=');
    assert_eq!(from_chars(&a), "alone");
    assert!(b.is_none());
}

#[test]
fn quotes_are_trimmed_on_both_ends() {
    assert_eq!(from_chars(&trim_quotes(&cs("\"\"id\"\""))), "id");
    assert_eq!(from_chars(&trim_quotes(&cs("\"\"\""))), "");
    assert_eq!(from_chars(&trim_quotes(&cs("a\"b"))), "a\"b");
}

#[test]
fn uuid_file_drops_first_and_last_character() {
    assert_eq!(uuid_file_contents("\"abc\""), "abc");
    assert_eq!(uuid_file_contents("x"), "");
}

#[test]
fn pretty_path_starts_at_the_first_matching_root() {
    let roots = vec!["test_folder".to_string(), "assets".to_string()];
    assert_eq!(
        path_to_pretty_path(&"/home/x/tests/assets/test_folder/f".to_string(), &roots),
        "test_folder/f"
    );
    assert_eq!(path_to_pretty_path(&"/home/x/assets/f".to_string(), &roots), "assets/f");
    assert_eq!(path_to_pretty_path(&"/elsewhere/f".to_string(), &roots), "/elsewhere/f");
    let pretty = path_to_pretty_path(&"/a/assets/b".to_string(), &roots);
    assert!("/a/assets/b".ends_with(&pretty));
}
