use github_monitor::error::MonitorError;
use github_monitor::text::{
    char_is_whitespace, chars_of, contains_text, ends_with, find_char_from, starts_with,
    trim_bounds,
};

fn chars(s: &str) -> Vec<char> {
    s.chars().collect()
}

fn trimmed(s: &str) -> String {
    let all = chars(s);
    let (a, b) = trim_bounds(&all);
    all[a..b].iter().collect()
}

#[test]
fn chars_of_gives_the_characters_in_order() {
    assert_eq!(chars_of(""), Vec::<char>::new());
    assert_eq!(chars_of("a\u{e9}\u{20ac}\u{1f600}"), vec!['a', '\u{e9}', '\u{20ac}', '\u{1f600}']);
}

#[test]
fn whitespace_is_what_trim_removes() {
    for code in 0u32..0x3100 {
        if let Some(c) = char::from_u32(code) {
            assert_eq!(char_is_whitespace(c), c.is_whitespace(), "U+{:04X}", code);
        }
    }
    assert!(!char_is_whitespace('\u{10ffff}'));
    assert!(!char_is_whitespace('\u{200b}'));
    assert!(!char_is_whitespace('\u{feff}'));
}

#[test]
fn trim_bounds_cut_whitespace_at_both_ends() {
    assert_eq!(trim_bounds(&chars("  ab c \n")), (2, 6));
    assert_eq!(trim_bounds(&chars("abc")), (0, 3));
    assert_eq!(trim_bounds(&chars("")), (0, 0));
    assert_eq!(trim_bounds(&chars(" \t\r\n")), (4, 4));
    assert_eq!(trim_bounds(&chars("\u{2003}x\u{85}")), (1, 2));
}

#[test]
fn trimming_agrees_with_the_standard_library() {
    for s in ["", " ", " a ", "a  b", "\n\ta\u{a0}b\u{3000} ", "\u{1680}", "x\u{200b} "] {
        assert_eq!(trimmed(s), s.trim());
    }
}

#[test]
fn prefix_and_suffix() {
    assert!(starts_with(&chars("https://x"), &chars("https://")));
    assert!(starts_with(&chars("abc"), &chars("")));
    assert!(starts_with(&chars(""), &chars("")));
    assert!(starts_with(&chars("abc"), &chars("abc")));
    assert!(!starts_with(&chars("abc"), &chars("abcd")));
    assert!(!starts_with(&chars("abc"), &chars("b")));
    assert!(!starts_with(&chars("abc"), &chars("abd")));
    assert!(ends_with(&chars("repo.git"), &chars(".git")));
    assert!(ends_with(&chars("abc"), &chars("")));
    assert!(ends_with(&chars(".git"), &chars(".git")));
    assert!(!ends_with(&chars("git"), &chars(".git")));
    assert!(!ends_with(&chars("repo.gif"), &chars(".git")));
    assert!(!ends_with(&chars("repo.git "), &chars(".git")));
}

#[test]
fn find_char_from_finds_the_first_at_or_after() {
    let s = chars("a/b/c");
    assert_eq!(find_char_from(&s, '/', 0), 1);
    assert_eq!(find_char_from(&s, '/', 1), 1);
    assert_eq!(find_char_from(&s, '/', 2), 3);
    assert_eq!(find_char_from(&s, '/', 4), 5);
    assert_eq!(find_char_from(&s, '/', 5), 5);
    assert_eq!(find_char_from(&s, 'x', 0), 5);
    assert_eq!(find_char_from(&[], '/', 0), 0);
}

#[test]
fn contains_text_finds_occurrences_anywhere() {
    assert!(contains_text(&chars("hello world"), &chars("hello")));
    assert!(contains_text(&chars("hello world"), &chars("o w")));
    assert!(contains_text(&chars("hello world"), &chars("world")));
    assert!(contains_text(&chars("hello world"), &chars("hello world")));
    assert!(contains_text(&chars("hello"), &chars("")));
    assert!(contains_text(&chars(""), &chars("")));
    assert!(contains_text(&chars("aaab"), &chars("aab")));
    assert!(!contains_text(&chars("hello"), &chars("hello world")));
    assert!(!contains_text(&chars("hello"), &chars("lo ")));
    assert!(!contains_text(&chars(""), &chars("a")));
    assert!(!contains_text(&chars("abab"), &chars("aba b")));
}

#[test]
fn errors_are_rendered_with_their_heading() {
    let m = |e: MonitorError| e.message();
    assert_eq!(m(MonitorError::WebhookValidation("x".to_string())), "Webhook validation failed: x");
    assert_eq!(m(MonitorError::GitHubApi("x".to_string())), "GitHub API error: x");
    assert_eq!(m(MonitorError::PackageManager("x".to_string())), "Package manager error: x");
    assert_eq!(m(MonitorError::AppManager("x".to_string())), "Application management error: x");
    assert_eq!(m(MonitorError::Config("x".to_string())), "Configuration error: x");
    assert_eq!(m(MonitorError::Io("x".to_string())), "IO error: x");
    assert_eq!(m(MonitorError::Http("x".to_string())), "HTTP error: x");
    assert_eq!(m(MonitorError::Json(String::new())), "JSON error: ");
}
