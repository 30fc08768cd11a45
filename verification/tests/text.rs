use oms::order::{sort_texts, text_le_exec};
use oms::text::{contains, ends_with, join, parse_usize, replace_all, split_char,
    starts_with, str_eq, trim, u64_to_string, usize_to_string};
use oms::config::read::{error_command, read_outcome};
use oms::config::{parse_args, AppConfigAction};
use oms::commands::ErrorKind;

fn s(x: &str) -> String {
    x.to_string()
}

#[test]
fn text_basics() {
    assert_eq!(oms::text::concat("a", "b"), "ab");
    assert!(contains("abc", "bc") && !contains("abc", "cb"));
    assert!(starts_with("abc", "ab") && ends_with("abc", "bc"));
    assert_eq!(replace_all("a//b//", "//", "/"), "a/b/");
    assert_eq!(replace_all("aaa", "aa", "b"), "ba");
    assert_eq!(split_char("a,,b", ','), vec![s("a"), s(""), s("b")]);
    assert_eq!(join(&vec![s("a"), s("b")], ", "), "a, b");
    assert_eq!(trim("  a b \n"), "a b");
    assert!(str_eq("x", "x") && !str_eq("x", "y"));
}

#[test]
fn numbers() {
    assert_eq!(parse_usize("42"), Some(42));
    assert_eq!(parse_usize("+7"), Some(7));
    assert_eq!(parse_usize(""), None);
    assert_eq!(parse_usize("-1"), None);
    assert_eq!(parse_usize("1a"), None);
    assert_eq!(parse_usize("99999999999999999999999"), None);
    assert_eq!(usize_to_string(0), "0");
    assert_eq!(usize_to_string(1205), "1205");
    assert_eq!(u64_to_string(1_500_000), "1500000");
}

#[test]
fn ordering() {
    assert!(text_le_exec("a", "b"));
    assert!(text_le_exec("ab", "abc"));
    assert!(!text_le_exec("b", "ab"));
    assert!(text_le_exec("", ""));
    assert_eq!(sort_texts(vec![s("b"), s("a"), s("ab"), s("a")]), vec![s("a"), s("a"), s("ab"), s("b")]);
}

#[test]
fn config_actions() {
    assert_eq!(error_command(), "\nread error: 'file_path' parameter required\n");
    let c = parse_args(&vec![s("oms")]).unwrap();
    assert!(matches!(c.action, AppConfigAction::Info()));
    let c = parse_args(&vec![s("oms"), s("read"), s("a.txt")]).unwrap();
    match c.action {
        AppConfigAction::Read(p) => assert_eq!(p, "a.txt"),
        _ => panic!("read expected"),
    }
    assert!(parse_args(&vec![s("oms"), s("x")]).is_err());
}

#[test]
fn read_outcomes() {
    let e = read_outcome(Err(s("No such file")), Ok(s(""))).unwrap_err();
    assert_eq!(e.kind, ErrorKind::InvalidInput);
    assert_eq!(e.to_string(), "\nread error: No such file\n");
    let e = read_outcome(Ok(()), Err(s("denied"))).unwrap_err();
    assert_eq!(e.kind, ErrorKind::PermissionDenied);
    assert_eq!(read_outcome(Ok(()), Ok(s("content"))).unwrap(), "content");
}

#[test]
fn lines_and_whitespace() {
    assert_eq!(oms::text::first_line("ffmpeg version 6\nbuilt with"), "ffmpeg version 6");
    assert_eq!(oms::text::first_line(""), "");
    assert_eq!(trim("\t\u{a0}a b\u{3000}\r\n"), "a b");
    assert_eq!(trim("\u{200b}a"), "\u{200b}a");
    assert!(oms::text::char_is_whitespace('\u{85}'));
    assert!(!oms::text::char_is_whitespace('x'));
}
