use mcp_bridge::bridge::ProxyError;
use mcp_bridge::envelope::{error_envelope, error_reply, JsonRpcMessage};

fn parse(text: &str) -> Option<JsonRpcMessage> {
    let v: serde_json::Value = serde_json::from_str(text).ok()?;
    let jsonrpc = v.get("jsonrpc")?.as_str()?.to_string();
    let id = v.get("id").filter(|i| !i.is_null()).map(|i| i.to_string());
    Some(JsonRpcMessage { jsonrpc, id })
}

#[test]
fn transport_failure_on_request_gets_error_reply() {
    let msg = parse("{\"jsonrpc\":\"2.0\",\"id\":7,\"method\":\"m\"}");
    let r = error_reply(&msg, &ProxyError::Transport("boom".to_string()));
    assert_eq!(
        r,
        Some("{\"jsonrpc\":\"2.0\",\"id\":7,\"error\":{\"code\":-32603,\"message\":\"boom\"}}".to_string())
    );
}

#[test]
fn notification_gets_no_reply() {
    let msg = parse("{\"jsonrpc\":\"2.0\",\"method\":\"notify\"}");
    assert!(msg.is_some());
    assert_eq!(error_reply(&msg, &ProxyError::Transport("boom".to_string())), None);
    assert_eq!(error_reply(&msg, &ProxyError::SessionExpired), None);
}

#[test]
fn unreadable_message_gets_no_reply() {
    assert_eq!(error_reply(&None, &ProxyError::SessionExpired), None);
}

#[test]
fn session_expired_reply_with_string_id() {
    let msg = parse("{\"jsonrpc\":\"2.0\",\"id\":\"a-1\",\"method\":\"m\"}");
    let r = error_reply(&msg, &ProxyError::SessionExpired);
    assert_eq!(
        r,
        Some(
            "{\"jsonrpc\":\"2.0\",\"id\":\"a-1\",\"error\":{\"code\":-32603,\"message\":\"Session expired\"}}"
                .to_string()
        )
    );
}

#[test]
fn error_text_is_escaped() {
    let msg = Some(JsonRpcMessage { jsonrpc: "2.0".to_string(), id: Some("3".to_string()) });
    let r = error_reply(&msg, &ProxyError::Transport("bad \"quote\"\nline".to_string()));
    assert_eq!(
        r,
        Some(
            "{\"jsonrpc\":\"2.0\",\"id\":3,\"error\":{\"code\":-32603,\"message\":\"bad \\\"quote\\\"\\nline\"}}"
                .to_string()
        )
    );
}

#[test]
fn envelope_frame() {
    assert_eq!(
        error_envelope("null", "\"m\""),
        "{\"jsonrpc\":\"2.0\",\"id\":null,\"error\":{\"code\":-32603,\"message\":\"m\"}}"
    );
}
