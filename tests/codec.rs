use tunnel_supervisor::codec::{decode, encode, Command};

fn fields_of(line: &str) -> serde_json::Map<String, serde_json::Value> {
    let v: serde_json::Value = serde_json::from_str(line).expect("encoded command is JSON");
    v.as_object().expect("encoded command is an object").clone()
}

#[test]
fn encode_disconnect_exact() {
    let line = encode(&Command::Disconnect { session_id: "abc".to_string() });
    assert_eq!(line, "{\"action\":\"DISCONNECT\",\"session_id\":\"abc\"}");
}

#[test]
fn encode_list_exact() {
    let line = encode(&Command::List);
    assert_eq!(line, "{\"action\":\"LIST\",\"session_id\":\"\"}");
}

#[test]
fn encode_is_one_line_with_two_fields() {
    let ids = ["abc", "", "line\nbreak", "quote\"and\\slash", "tab\tbell\u{7}", "ünï"];
    for id in ids {
        let line = encode(&Command::Disconnect { session_id: id.to_string() });
        assert!(!line.contains('\n'));
        assert!(!line.contains('\r'));
        let fields = fields_of(&line);
        assert_eq!(fields.len(), 2);
        assert_eq!(fields["action"], serde_json::Value::String("DISCONNECT".to_string()));
        assert_eq!(fields["session_id"], serde_json::Value::String(id.to_string()));
    }
    let fields = fields_of(&encode(&Command::List));
    assert_eq!(fields.len(), 2);
    assert_eq!(fields["action"], serde_json::Value::String("LIST".to_string()));
}

#[test]
fn encode_escapes_control_characters() {
    let line = encode(&Command::Disconnect { session_id: "a\nb".to_string() });
    assert_eq!(line, "{\"action\":\"DISCONNECT\",\"session_id\":\"a\\nb\"}");
}

#[test]
fn decode_rejects_non_json() {
    for line in ["", "hello", "{", "{\"action\":", "not json at all", "[1, 2"] {
        assert!(decode(line).is_none(), "{line}");
    }
}

#[test]
fn decode_rejects_missing_or_mistyped_action() {
    for line in ["{}", "{\"session_id\":\"x\"}", "{\"action\":5}", "{\"action\":null}", "3", "\"BACKEND_STARTED\""] {
        assert!(decode(line).is_none(), "{line}");
    }
}

#[test]
fn decode_started_record() {
    let line = "{\"action\":\"BACKEND_STARTED\",\"started_info\":{\"process_id\":\"123\",\"process_type\":\"server\"}}";
    let e = decode(line).expect("decodes");
    assert_eq!(e.action, "BACKEND_STARTED");
    let info = e.started_info.expect("started info");
    assert_eq!(info.process_id, "123");
    assert_eq!(info.process_type, "server");
    assert!(e.session_id.is_none());
    assert!(e.sessions.is_none());
    assert!(e.port.is_none());
}

#[test]
fn decode_all_members() {
    let line = "{\"action\":\"SESSIONS\",\"session_id\":\"s1\",\"sessions\":[\"a\",\"b\"],\"token\":\"t\",\"error\":\"e\",\"port\":8080,\"addr\":\"1.2.3.4:5\",\"extra\":true}";
    let e = decode(line).expect("decodes");
    assert_eq!(e.action, "SESSIONS");
    assert_eq!(e.session_id.as_deref(), Some("s1"));
    assert_eq!(e.sessions, Some(vec!["a".to_string(), "b".to_string()]));
    assert_eq!(e.token.as_deref(), Some("t"));
    assert_eq!(e.error.as_deref(), Some("e"));
    assert_eq!(e.port, Some(8080));
    assert_eq!(e.addr.as_deref(), Some("1.2.3.4:5"));
}

#[test]
fn decode_null_members_are_absent() {
    let e = decode("{\"action\":\"X\",\"token\":null,\"port\":null,\"started_info\":null}").expect("decodes");
    assert!(e.token.is_none());
    assert!(e.port.is_none());
    assert!(e.started_info.is_none());
}

#[test]
fn decode_rejects_mistyped_members() {
    for line in [
        "{\"action\":\"X\",\"port\":70000}",
        "{\"action\":\"X\",\"port\":-1}",
        "{\"action\":\"X\",\"port\":\"80\"}",
        "{\"action\":\"X\",\"sessions\":[\"a\",1]}",
        "{\"action\":\"X\",\"sessions\":\"a\"}",
        "{\"action\":\"X\",\"token\":1}",
        "{\"action\":\"X\",\"started_info\":{\"process_id\":\"1\"}}",
    ] {
        assert!(decode(line).is_none(), "{line}");
    }
}

#[test]
fn decode_largest_port() {
    let e = decode("{\"action\":\"X\",\"port\":65535}").expect("decodes");
    assert_eq!(e.port, Some(65535));
}
