use mcp_bridge::stream::{event_stream_result, line_payload, plain_result};

fn lines(ls: &[&str]) -> Vec<String> {
    ls.iter().map(|l| l.to_string()).collect()
}

#[test]
fn stream_drops_empty_payloads_and_keeps_order() {
    let r = event_stream_result(&lines(&["data: A", "data: ", "data: B"]));
    assert_eq!(r, Some("A\nB".to_string()));
}

#[test]
fn stream_without_data_lines_is_nothing() {
    assert_eq!(event_stream_result(&lines(&["event: message", "id: 3", ""])), None);
    assert_eq!(event_stream_result(&lines(&[])), None);
}

#[test]
fn stream_skips_other_fields() {
    let r = event_stream_result(&lines(&[
        "event: message",
        "data: {\"jsonrpc\":\"2.0\",\"id\":1,\"result\":{}}",
        "",
        "data:no-space",
        "data: second",
    ]));
    assert_eq!(r, Some("{\"jsonrpc\":\"2.0\",\"id\":1,\"result\":{}}\nsecond".to_string()));
}

#[test]
fn line_payload_cases() {
    assert_eq!(line_payload("data: x y"), Some("x y".to_string()));
    assert_eq!(line_payload("data: "), Some(String::new()));
    assert_eq!(line_payload("data:"), None);
    assert_eq!(line_payload(" data: x"), None);
    assert_eq!(line_payload("data: é€"), Some("é€".to_string()));
}

#[test]
fn plain_body_empty_is_nothing() {
    assert_eq!(plain_result(String::new()), None);
}

#[test]
fn plain_body_is_returned_whole() {
    assert_eq!(plain_result("{\"x\":1}".to_string()), Some("{\"x\":1}".to_string()));
}
