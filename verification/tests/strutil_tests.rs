use hammer::strutil::{find_char, parse_u32, split_ws, str_eq, trim};

#[test]
fn str_eq_compares_by_characters() {
    assert!(str_eq("abc", "abc"));
    assert!(!str_eq("abc", "abd"));
    assert!(!str_eq("abc", "ab"));
    assert!(str_eq("", ""));
    assert!(str_eq("héllo", "héllo"));
}

#[test]
fn find_char_returns_first_occurrence() {
    assert_eq!(find_char("a!b!c", '!'), Some(1));
    assert_eq!(find_char("abc", '!'), None);
    assert_eq!(find_char("", '!'), None);
    assert_eq!(find_char("!", '!'), Some(0));
}

#[test]
fn parse_u32_accepts_digits_only() {
    assert_eq!(parse_u32("600"), Some(600));
    assert_eq!(parse_u32("0"), Some(0));
    assert_eq!(parse_u32("4294967295"), Some(4294967295));
    assert_eq!(parse_u32("4294967296"), None);
    assert_eq!(parse_u32("99999999999999999999"), None);
    assert_eq!(parse_u32(""), None);
    assert_eq!(parse_u32("12a"), None);
    assert_eq!(parse_u32("+5"), None);
    assert_eq!(parse_u32("-5"), None);
}

#[test]
fn trim_removes_surrounding_whitespace() {
    assert_eq!(trim("  ban me! \t"), "ban me!");
    assert_eq!(trim("ban me!"), "ban me!");
    assert_eq!(trim(" \n "), "");
    assert_eq!(trim(""), "");
}

#[test]
fn split_ws_splits_on_whitespace_runs() {
    assert_eq!(split_ws("a b  c"), vec!["a".to_string(), "b".to_string(), "c".to_string()]);
    assert_eq!(split_ws("  lead and trail  "), vec!["lead".to_string(), "and".to_string(), "trail".to_string()]);
    assert_eq!(split_ws(""), Vec::<String>::new());
    assert_eq!(split_ws(" \t\n"), Vec::<String>::new());
    assert_eq!(split_ws("single"), vec!["single".to_string()]);
}
