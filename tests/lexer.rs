use minishell::shell::Shell;
use minishell::text::is_space;

fn toks(line: &str) -> Vec<String> {
    Shell::parse_args(line)
}

#[test]
fn plain_line_splits_on_whitespace_runs() {
    assert_eq!(toks("  ls   -la\t/tmp  "), vec!["ls", "-la", "/tmp"]);
}

#[test]
fn unicode_space_separates_tokens() {
    assert_eq!(toks("a\u{3000}b\u{a0}c"), vec!["a", "b", "c"]);
}

#[test]
fn empty_and_blank_lines_give_no_tokens() {
    assert!(toks("").is_empty());
    assert!(toks(" \t  ").is_empty());
}

#[test]
fn single_quotes_keep_space() {
    assert_eq!(toks("'a b'"), vec!["a b"]);
}

#[test]
fn escaped_quote_inside_double_quotes() {
    assert_eq!(toks(r#""a\"b""#), vec![r#"a"b"#]);
}

#[test]
fn escaped_space_unquoted() {
    assert_eq!(toks(r"a\ b"), vec!["a b"]);
}

#[test]
fn backslash_literal_in_single_quotes() {
    assert_eq!(toks(r"'a\b'"), vec![r"a\b"]);
}

#[test]
fn double_quote_escape_of_other_char_keeps_backslash() {
    assert_eq!(toks(r#""a\nb""#), vec![r"a\nb"]);
    assert_eq!(toks(r#""a\\b""#), vec![r"a\b"]);
}

#[test]
fn empty_quotes_make_an_empty_token() {
    assert_eq!(toks("echo ''"), vec!["echo", ""]);
    assert_eq!(toks(r#"x "" y"#), vec!["x", "", "y"]);
}

#[test]
fn adjacent_quoted_parts_join() {
    assert_eq!(toks(r#"ab'c d'"e f"g"#), vec!["abc de fg"]);
}

#[test]
fn trailing_backslash_stays() {
    assert_eq!(toks(r"abc\"), vec![r"abc\"]);
    assert_eq!(toks(r"\"), vec![r"\"]);
}

#[test]
fn unterminated_quote_flushes_token() {
    assert_eq!(toks("echo 'abc"), vec!["echo", "abc"]);
    assert_eq!(toks("echo \"x y"), vec!["echo", "x y"]);
}

#[test]
fn space_test_agrees_with_std() {
    for code in 0u32..0x11000 {
        if let Some(c) = char::from_u32(code) {
            assert_eq!(is_space(c), c.is_whitespace(), "{:?}", c);
        }
    }
}

#[test]
fn lone_trailing_backslash_matches_split() {
    assert_eq!(toks(r"a b\"), vec!["a", r"b\"]);
    assert_eq!(toks(r"a \"), vec!["a", r"\"]);
}
