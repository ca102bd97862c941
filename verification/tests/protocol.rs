use aiecho::json::JsonValue;
use aiecho::protocol::{
    announce_payload, discover_req_payload, discover_res_payload, frame_message, goodbye_payload,
    split_message, DiscoverResParams, ProtocolError, ServiceEvent, ServiceInfo, DISCOVERY_PORT,
    DISCOVER_REQ, DISCOVER_RES, PROTOCOL_VERSION, SERVICE_ANNOUNCE, SERVICE_GOODBYE,
};

fn obj(members: Vec<(&str, JsonValue)>) -> JsonValue {
    JsonValue::Object(members.into_iter().map(|(k, v)| (k.to_string(), v)).collect())
}

fn s(x: &str) -> JsonValue {
    JsonValue::Str(x.to_string())
}

fn n(x: u64) -> JsonValue {
    JsonValue::Number(aiecho::json::JsonNumber::PosInt(x))
}

fn field_str<'a>(v: &'a JsonValue, key: &str) -> Option<&'a str> {
    v.get(key).and_then(|x| x.as_str()).map(|x| x.as_str())
}

#[test]
fn constants_match_protocol() {
    assert_eq!(DISCOVERY_PORT, 53535);
    assert_eq!(DISCOVER_REQ, "AI_DISCOVER_REQ");
    assert_eq!(DISCOVER_RES, "AI_DISCOVER_RES");
    assert_eq!(SERVICE_ANNOUNCE, "AI_SERVICE_ANNOUNCE");
    assert_eq!(SERVICE_GOODBYE, "AI_SERVICE_GOODBYE");
    assert_eq!(PROTOCOL_VERSION, "1.0");
}

#[test]
fn parse_discover_req() {
    let raw = "AI_DISCOVER_REQ\n{\"query_id\": \"test-123\", \"version\": \"1.0\"}";
    match split_message(raw.as_bytes()) {
        Ok((cmd, payload)) => {
            assert_eq!(cmd, "AI_DISCOVER_REQ");
            assert_eq!(payload, "{\"query_id\": \"test-123\", \"version\": \"1.0\"}");
        }
        Err(_) => panic!("expected a message"),
    }
}

#[test]
fn parse_trims_text_and_command() {
    let raw = "  \t AI_DISCOVER_RES  \n {\"a\": 1}\n\n  ";
    match split_message(raw.as_bytes()) {
        Ok((cmd, payload)) => {
            assert_eq!(cmd, "AI_DISCOVER_RES");
            assert_eq!(payload, " {\"a\": 1}");
        }
        Err(_) => panic!("expected a message"),
    }
}

#[test]
fn parse_splits_at_first_line_break() {
    match split_message(b"CMD\nline1\nline2") {
        Ok((cmd, payload)) => {
            assert_eq!(cmd, "CMD");
            assert_eq!(payload, "line1\nline2");
        }
        Err(_) => panic!("expected a message"),
    }
}

#[test]
fn parse_rejects_invalid_utf8() {
    match split_message(&[0x41, 0xff, 0x0a, 0x7b, 0x7d]) {
        Err(ProtocolError::InvalidEncoding(_)) => {}
        _ => panic!("expected an encoding error"),
    }
}

#[test]
fn parse_rejects_text_without_line_break() {
    match split_message(b"  hello  ") {
        Err(ProtocolError::InvalidFormat(m)) => {
            assert_eq!(m, "Expected COMMAND\\nJSON, got: hello");
        }
        _ => panic!("expected a format error"),
    }
}

#[test]
fn parse_blank_is_format_error() {
    match split_message(b" \n \n ") {
        Err(ProtocolError::InvalidFormat(m)) => {
            assert_eq!(m, "Expected COMMAND\\nJSON, got: ");
        }
        _ => panic!("expected a format error"),
    }
}

#[test]
fn parse_format_error_quotes_first_hundred_bytes() {
    let text = "x".repeat(150);
    match split_message(text.as_bytes()) {
        Err(ProtocolError::InvalidFormat(m)) => {
            assert_eq!(m, format!("Expected COMMAND\\nJSON, got: {}", "x".repeat(100)));
        }
        _ => panic!("expected a format error"),
    }
}

#[test]
fn parse_format_error_cuts_at_char_boundary() {
    let text = format!("{}é{}", "a".repeat(99), "b".repeat(10));
    match split_message(text.as_bytes()) {
        Err(ProtocolError::InvalidFormat(m)) => {
            assert_eq!(m, format!("Expected COMMAND\\nJSON, got: {}", "a".repeat(99)));
        }
        _ => panic!("expected a format error"),
    }
}

#[test]
fn protocol_error_messages() {
    assert_eq!(ProtocolError::InvalidEncoding("x".to_string()).message(), "Invalid encoding: x");
    assert_eq!(ProtocolError::InvalidFormat("y".to_string()).message(), "Invalid format: y");
    assert_eq!(ProtocolError::InvalidJson("z".to_string()).message(), "Invalid JSON: z");
}

#[test]
fn frame_message_bytes() {
    assert_eq!(frame_message("AI_DISCOVER_REQ", "{}"), b"AI_DISCOVER_REQ\n{}".to_vec());
    assert_eq!(frame_message("C", "é"), "C\né".as_bytes().to_vec());
}

#[test]
fn frame_then_parse_round_trip() {
    let bytes = frame_message(SERVICE_ANNOUNCE, "{\"event\":\"online\"}  ");
    match split_message(&bytes) {
        Ok((cmd, payload)) => {
            assert_eq!(cmd, SERVICE_ANNOUNCE);
            assert_eq!(payload, "{\"event\":\"online\"}");
        }
        Err(_) => panic!("expected a message"),
    }
}

#[test]
fn discover_req_with_query_id() {
    let p = discover_req_payload(Some("test-123"));
    assert_eq!(field_str(&p, "query_id"), Some("test-123"));
    assert_eq!(field_str(&p, "version"), Some("1.0"));
}

#[test]
fn discover_req_generates_uuid() {
    let p = discover_req_payload(None);
    let q = field_str(&p, "query_id").unwrap().to_string();
    assert_eq!(q.len(), 36);
    for (i, c) in q.chars().enumerate() {
        if i == 8 || i == 13 || i == 18 || i == 23 {
            assert_eq!(c, '-');
        } else {
            assert!(c.is_ascii_hexdigit() && !c.is_ascii_uppercase());
        }
    }
    assert_eq!(q.chars().nth(14), Some('4'));
    let other = discover_req_payload(None);
    assert_ne!(field_str(&other, "query_id").unwrap(), q);
}

#[test]
fn discover_response_round_trip() {
    let tags = vec!["pdf".to_string(), "tool".to_string()];
    let manifest = obj(vec![("meta", obj(vec![("name", s("PDF"))]))]);
    let params = DiscoverResParams {
        query_id: "q-1",
        status: "ok",
        service_name: "PDF Converter Pro",
        service_id: "pdf-converter-001",
        http_port: 8080,
        manifest_path: "/ai_manifest",
        tags: &tags,
        priority: 10,
        manifest_data: &manifest,
    };
    let payload = discover_res_payload(&params);
    assert_eq!(payload.get("http_port").and_then(|v| v.as_u64()), Some(8080));
    let info = ServiceInfo::from_payload(&payload, "192.168.1.50");
    assert_eq!(info.query_id, "q-1");
    assert_eq!(info.status, "ok");
    assert_eq!(info.service_name, "PDF Converter Pro");
    assert_eq!(info.service_id, "pdf-converter-001");
    assert_eq!(info.http_port, 8080);
    assert_eq!(info.manifest_path, "/ai_manifest");
    assert_eq!(info.tags, tags);
    assert_eq!(info.priority, 10);
    assert_eq!(info.ip, "192.168.1.50");
    assert_eq!(info.version, "1.0");
    assert_eq!(
        info.manifest.get("meta").and_then(|m| m.get("name")).and_then(|v| v.as_str()).map(|x| x.as_str()),
        Some("PDF")
    );
    assert_eq!(info.base_url(), "http://192.168.1.50:8080");
    assert_eq!(info.manifest_url(), "http://192.168.1.50:8080/ai_manifest");
}

#[test]
fn service_info_defaults() {
    let info = ServiceInfo::from_payload(&obj(vec![]), "10.0.0.2");
    assert_eq!(info.query_id, "");
    assert_eq!(info.status, "ok");
    assert_eq!(info.service_name, "");
    assert_eq!(info.service_id, "");
    assert_eq!(info.http_port, 80);
    assert_eq!(info.manifest_path, "/ai_manifest");
    assert!(info.tags.is_empty());
    assert_eq!(info.priority, 1);
    assert_eq!(info.version, "1.0");
    assert!(matches!(info.manifest, JsonValue::Null));
}

#[test]
fn service_info_of_non_object_payload() {
    let info = ServiceInfo::from_payload(&JsonValue::Array(vec![s("x")]), "h");
    assert_eq!(info.http_port, 80);
    assert_eq!(info.manifest_path, "/ai_manifest");
}

#[test]
fn service_info_truncates_numbers_and_filters_tags() {
    let payload = obj(vec![
        ("http_port", n(70000)),
        ("priority", n(300)),
        ("tags", JsonValue::Array(vec![s("a"), n(3), s("b"), JsonValue::Null])),
        ("service_name", n(5)),
    ]);
    let info = ServiceInfo::from_payload(&payload, "h");
    assert_eq!(info.http_port, 4464);
    assert_eq!(info.priority, 44);
    assert_eq!(info.tags, vec!["a".to_string(), "b".to_string()]);
    assert_eq!(info.service_name, "");
}

#[test]
fn negative_and_float_numbers_take_defaults() {
    let payload = obj(vec![
        ("http_port", JsonValue::Number(aiecho::json::JsonNumber::NegInt(-5))),
        ("priority", JsonValue::Number(aiecho::json::JsonNumber::Float("2.5".to_string()))),
    ]);
    let info = ServiceInfo::from_payload(&payload, "h");
    assert_eq!(info.http_port, 80);
    assert_eq!(info.priority, 1);
}

#[test]
fn announce_round_trip() {
    let tags = vec!["image".to_string()];
    let p = announce_payload("img-gen-001", "Image Generator", 3000, "/ai_manifest", &tags, 5, 1699999999);
    let e = ServiceEvent::from_payload(&p, "192.168.1.7");
    assert_eq!(e.event, "online");
    assert_eq!(e.service_id, "img-gen-001");
    assert_eq!(e.service_name, "Image Generator");
    assert_eq!(e.http_port, 3000);
    assert_eq!(e.manifest_path, "/ai_manifest");
    assert_eq!(e.tags, tags);
    assert_eq!(e.priority, 5);
    assert_eq!(e.ip, "192.168.1.7");
    assert_eq!(e.timestamp, 1699999999);
    assert_eq!(e.version, "1.0");
    assert_eq!(e.base_url(), "http://192.168.1.7:3000");
    assert_eq!(e.manifest_url(), "http://192.168.1.7:3000/ai_manifest");
}

#[test]
fn goodbye_round_trip() {
    let p = goodbye_payload("pdf-proc-001", "PDF Processor", 42);
    let e = ServiceEvent::from_payload(&p, "10.1.1.1");
    assert_eq!(e.event, "offline");
    assert_eq!(e.service_id, "pdf-proc-001");
    assert_eq!(e.service_name, "PDF Processor");
    assert_eq!(e.http_port, 80);
    assert_eq!(e.manifest_path, "/ai_manifest");
    assert!(e.tags.is_empty());
    assert_eq!(e.priority, 1);
    assert_eq!(e.timestamp, 42);
    assert_eq!(e.version, "1.0");
}

#[test]
fn service_event_defaults() {
    let e = ServiceEvent::from_payload(&obj(vec![("timestamp", s("late"))]), "");
    assert_eq!(e.event, "");
    assert_eq!(e.timestamp, 0);
    assert_eq!(e.base_url(), "http://:80");
}

#[test]
fn service_event_urls() {
    let e = ServiceEvent {
        event: "online".to_string(),
        service_id: "x".to_string(),
        service_name: "X".to_string(),
        http_port: 65535,
        manifest_path: "/m".to_string(),
        tags: vec![],
        priority: 1,
        ip: "127.0.0.1".to_string(),
        timestamp: 0,
        version: "1.0".to_string(),
    };
    assert_eq!(e.base_url(), "http://127.0.0.1:65535");
    assert_eq!(e.manifest_url(), "http://127.0.0.1:65535/m");
}

#[test]
fn split_message_leaves_payload_unread() {
    match split_message(b"CMD\nxyz") {
        Ok((cmd, payload)) => {
            assert_eq!(cmd, "CMD");
            assert_eq!(payload, "xyz");
        }
        Err(_) => panic!("expected a split message"),
    }
}
