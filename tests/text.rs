use mcp_bridge::text::{blank, contains, output_lines, should_forward};

#[test]
fn blank_lines_are_not_forwarded() {
    assert!(!should_forward(""));
    assert!(!should_forward("   "));
    assert!(!should_forward("\t \r"));
    assert!(!should_forward("\u{a0}\u{3000}"));
    assert!(should_forward(" {} "));
}

#[test]
fn blank_cases() {
    assert!(blank(""));
    assert!(blank(" \n\t"));
    assert!(!blank(" x "));
}

#[test]
fn output_lines_strip_blank_interior_lines() {
    assert_eq!(output_lines("a\n\n  \nb"), vec!["a".to_string(), "b".to_string()]);
}

#[test]
fn output_lines_handle_crlf_and_trailing_newline() {
    assert_eq!(output_lines("a\r\nb\r\n"), vec!["a".to_string(), "b".to_string()]);
    assert_eq!(output_lines("\n\n"), Vec::<String>::new());
    assert_eq!(output_lines(""), Vec::<String>::new());
    assert_eq!(output_lines(" x \r"), vec![" x \r".to_string()]);
    assert_eq!(output_lines("a\r\r\nb"), vec!["a\r".to_string(), "b".to_string()]);
}

#[test]
fn output_single_line() {
    assert_eq!(output_lines("{\"x\":1}"), vec!["{\"x\":1}".to_string()]);
}

#[test]
fn contains_cases() {
    assert!(contains("text/event-stream; charset=utf-8", "text/event-stream"));
    assert!(contains("abc", ""));
    assert!(!contains("", "a"));
    assert!(!contains("text/event-strea", "text/event-stream"));
    assert!(contains("xxtext/event-stream", "text/event-stream"));
}
