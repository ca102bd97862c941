use aiecho::config::{service_entries, ConfigError, EchoConfig, ServiceConfig};
use aiecho::discoverer::{is_echo_file_name, port_to_probe};
use aiecho::json::JsonValue;
use aiecho::protocol::{discover_req_payload, ServiceEvent, ServiceInfo, DISCOVER_REQ, DISCOVER_RES};
use aiecho::scanner::{DiscoveredService, ScanCollector, ScanEvent, ScanStep, ScannerError};
use aiecho::server::{announcement, farewell, handle_message, ServerError};

fn obj(members: Vec<(&str, JsonValue)>) -> JsonValue {
    JsonValue::Object(members.into_iter().map(|(k, v)| (k.to_string(), v)).collect())
}

fn s(x: &str) -> JsonValue {
    JsonValue::Str(x.to_string())
}

#[test]
fn service_config_new_defaults() {
    let c = ServiceConfig::new("My Service", "my-service-001", 8000);
    assert_eq!(c.service_name, "My Service");
    assert_eq!(c.service_id, "my-service-001");
    assert_eq!(c.http_port, 8000);
    assert_eq!(c.manifest_path, "/ai_manifest");
    assert!(c.tags.is_empty());
    assert_eq!(c.priority, 1);
    assert_eq!(c.udp_port, 53535);
    assert!(c.announce_on_startup);
    assert_eq!(c.announce_interval, 30);
    assert!(matches!(&c.manifest_data, JsonValue::Object(m) if m.is_empty()));
    assert_eq!(c.base_url(), "http://localhost:8000");
    assert_eq!(c.manifest_url(), "http://localhost:8000/ai_manifest");
}

#[test]
fn service_config_default() {
    let c = ServiceConfig::default();
    assert_eq!(c.service_name, "Unknown Service");
    assert_eq!(c.service_id, "unknown-001");
    assert_eq!(c.http_port, 8080);
}

#[test]
fn service_config_from_manifest() {
    let manifest = obj(vec![
        ("meta", obj(vec![("name", s("Local PDF Processor")), ("service_id", s("pdf-proc-001"))])),
        ("endpoints", obj(vec![("invoke", s("/api/v1/invoke"))])),
    ]);
    let c = ServiceConfig::from_manifest_json(manifest, 9000);
    assert_eq!(c.service_name, "Local PDF Processor");
    assert_eq!(c.service_id, "pdf-proc-001");
    assert_eq!(c.http_port, 9000);
    assert_eq!(c.manifest_path, "/api/v1/invoke");
    assert_eq!(c.priority, 1);
    assert!(c.manifest_data.get("meta").is_some());
}

#[test]
fn service_config_from_manifest_defaults() {
    let c = ServiceConfig::from_manifest_json(obj(vec![("meta", s("not an object"))]), 1);
    assert_eq!(c.service_name, "Unknown");
    assert_eq!(c.service_id, "unknown");
    assert_eq!(c.manifest_path, "/ai_manifest");
}

#[test]
fn service_config_from_echo_without_manifest() {
    let c = ServiceConfig::from_echo("/srv/pdf/.echo", None, 8080);
    assert_eq!(c.service_name, "Service on port 8080");
    assert_eq!(c.service_id, "pdf-8080");
    assert_eq!(c.manifest_path, "/ai_manifest");
    let d = ServiceConfig::from_echo("services/img/.echo", None, 81);
    assert_eq!(d.service_id, "img-81");
    let e = ServiceConfig::from_echo("/", None, 82);
    assert_eq!(e.service_id, "unknown-82");
    let f = ServiceConfig::from_echo(".echo", None, 83);
    assert_eq!(f.service_id, "unknown-83");
    let g = ServiceConfig::from_echo("/.echo", None, 84);
    assert_eq!(g.service_id, "unknown-84");
}

#[test]
fn echo_services_in_different_directories_differ() {
    let a = ServiceConfig::from_echo("/srv/pdf/.echo", None, 8080);
    let b = ServiceConfig::from_echo("/srv/img/.echo", None, 8080);
    assert_ne!(a.service_id, b.service_id);
}

#[test]
fn service_config_from_echo_with_manifest() {
    let m = obj(vec![("meta", obj(vec![("name", s("N"))]))]);
    let c = ServiceConfig::from_echo("/x/y/.echo", Some(m), 7);
    assert_eq!(c.service_name, "N");
    assert_eq!(c.service_id, "unknown");
}

#[test]
fn from_echo_dir_names() {
    let c = ServiceConfig::from_echo_dir(Some("svc"), None, 5);
    assert_eq!(c.service_id, "svc-5");
    let d = ServiceConfig::from_echo_dir(None, None, 0);
    assert_eq!(d.service_id, "unknown-0");
    assert_eq!(d.service_name, "Service on port 0");
}

#[test]
fn echo_config_default() {
    let e = EchoConfig::default();
    assert_eq!(e.port, 8080);
    assert!(e.enable);
}

#[test]
fn config_error_messages() {
    assert_eq!(ConfigError::FileNotFound("a".to_string()).message(), "File not found: a");
    assert_eq!(ConfigError::IoError("b".to_string()).message(), "IO error: b");
    assert_eq!(ConfigError::ParseError("c".to_string()).message(), "Parse error: c");
}

#[test]
fn echo_file_names() {
    assert!(is_echo_file_name(".echo"));
    assert!(!is_echo_file_name("x.echo"));
    assert!(!is_echo_file_name(".echo.bak"));
}

#[test]
fn echo_port_probing() {
    assert_eq!(port_to_probe(&Ok(EchoConfig { port: 9000, enable: true })), Some(9000));
    assert_eq!(port_to_probe(&Ok(EchoConfig { port: 9000, enable: false })), None);
    assert_eq!(port_to_probe(&Err(ConfigError::ParseError("bad".to_string()))), None);
}

fn sample_config() -> ServiceConfig {
    let mut c = ServiceConfig::new("PDF Converter Pro", "pdf-converter-001", 8080);
    c.tags = vec!["pdf".to_string(), "tool".to_string()];
    c.priority = 10;
    c
}

#[test]
fn server_answers_discovery_request() {
    let c = sample_config();
    let req = discover_req_payload(Some("uuid-1234-5678"));
    let resp = handle_message(&c, DISCOVER_REQ, &req).expect("a response");
    let info = ServiceInfo::from_payload(&resp, "192.168.1.50");
    assert_eq!(info.query_id, "uuid-1234-5678");
    assert_eq!(info.status, "ok");
    assert_eq!(info.service_name, "PDF Converter Pro");
    assert_eq!(info.service_id, "pdf-converter-001");
    assert_eq!(info.http_port, 8080);
    assert_eq!(info.tags, c.tags);
    assert_eq!(info.priority, 10);
}

#[test]
fn server_answers_request_without_query_id() {
    let c = sample_config();
    let resp = handle_message(&c, DISCOVER_REQ, &JsonValue::Null).expect("a response");
    let info = ServiceInfo::from_payload(&resp, "h");
    assert_eq!(info.query_id, "");
}

#[test]
fn server_ignores_other_messages() {
    let c = sample_config();
    let req = discover_req_payload(Some("q"));
    assert!(handle_message(&c, DISCOVER_RES, &req).is_none());
    assert!(handle_message(&c, "ai_discover_req", &req).is_none());
}

#[test]
fn server_announcements() {
    let c = sample_config();
    let on = ServiceEvent::from_payload(&announcement(&c, 100), "h");
    assert_eq!(on.event, "online");
    assert_eq!(on.service_id, "pdf-converter-001");
    assert_eq!(on.http_port, 8080);
    assert_eq!(on.priority, 10);
    assert_eq!(on.timestamp, 100);
    let off = ServiceEvent::from_payload(&farewell(&c, 200), "h");
    assert_eq!(off.event, "offline");
    assert_eq!(off.service_name, "PDF Converter Pro");
    assert_eq!(off.timestamp, 200);
}

#[test]
fn server_error_messages() {
    assert_eq!(ServerError::BindError("x".to_string()).message(), "Failed to bind to UDP port: x");
    assert_eq!(ServerError::SendError("y".to_string()).message(), "Failed to send UDP packet: y");
    assert_eq!(ServerError::NotRunning.message(), "Server not running");
}

#[test]
fn scanner_error_messages() {
    assert_eq!(ScannerError::BindError("a".to_string()).message(), "Failed to bind to UDP port: a");
    assert_eq!(ScannerError::SendError("b".to_string()).message(), "Failed to send UDP packet: b");
    assert_eq!(ScannerError::AddressError("c".to_string()).message(), "Invalid address: c");
    assert_eq!(ScannerError::HttpError("d".to_string()).message(), "HTTP error: d");
}

fn response_event(id: &str, port: u64, ip: &str) -> ScanEvent {
    ScanEvent::Message {
        cmd: DISCOVER_RES.to_string(),
        payload: obj(vec![
            ("service_id", s(id)),
            ("http_port", JsonValue::Number(aiecho::json::JsonNumber::PosInt(port))),
        ]),
        ip: ip.to_string(),
    }
}

#[test]
fn collector_keeps_only_responses() {
    let mut c = ScanCollector::new();
    assert!(matches!(c.on_event(response_event("a", 1, "10.0.0.1")), ScanStep::Continue));
    let other = ScanEvent::Message { cmd: "AI_SERVICE_ANNOUNCE".to_string(), payload: obj(vec![]), ip: "x".to_string() };
    assert!(matches!(c.on_event(other), ScanStep::Continue));
    assert!(matches!(c.on_event(ScanEvent::Unreadable), ScanStep::Continue));
    assert!(matches!(c.on_event(ScanEvent::ReceiveError), ScanStep::Continue));
    assert!(matches!(c.on_event(response_event("b", 2, "10.0.0.2")), ScanStep::Continue));
    assert_eq!(c.services.len(), 2);
    assert_eq!(c.services[0].service_info.service_id, "a");
    assert_eq!(c.services[1].ip(), "10.0.0.2");
    assert_eq!(c.services[1].port(), 2);
    assert_eq!(c.services[1].base_url(), "http://10.0.0.2:2");
    assert!(matches!(c.services[1].manifest(), JsonValue::Null));
}

#[test]
fn collector_timeout_finishes_only_with_services() {
    let mut c = ScanCollector::new();
    assert!(matches!(c.on_event(ScanEvent::Timeout), ScanStep::Continue));
    c.on_event(response_event("a", 1, "h"));
    assert!(matches!(c.on_event(ScanEvent::Timeout), ScanStep::Finish));
    assert_eq!(c.services.len(), 1);
}

#[test]
fn discovered_service_accessors() {
    let info = ServiceInfo::from_payload(&obj(vec![("http_port", JsonValue::Number(aiecho::json::JsonNumber::PosInt(8080)))]), "1.2.3.4");
    let d = DiscoveredService { service_info: info };
    assert_eq!(d.ip(), "1.2.3.4");
    assert_eq!(d.port(), 8080);
    assert_eq!(d.base_url(), "http://1.2.3.4:8080");
}

#[test]
fn scan_record_fields() {
    let mut payload_members = vec![
        ("service_name", s("PDF")),
        ("service_id", s("pdf-1")),
        ("http_port", JsonValue::Number(aiecho::json::JsonNumber::PosInt(8080))),
        ("tags", JsonValue::Array(vec![s("pdf")])),
    ];
    payload_members.push(("manifest", obj(vec![("k", s("v"))])));
    let info = ServiceInfo::from_payload(&obj(payload_members), "10.0.0.9");
    let d = DiscoveredService { service_info: info };
    let full = d.record(true, true);
    assert_eq!(full.str_field_or("service_name", ""), "PDF");
    assert_eq!(full.str_field_or("service_id", ""), "pdf-1");
    assert_eq!(full.str_field_or("ip", ""), "10.0.0.9");
    assert_eq!(full.u64_field_or("port", 0), 8080);
    assert_eq!(full.str_list_field("tags"), vec!["pdf".to_string()]);
    assert_eq!(full.str_field_or("base_url", ""), "http://10.0.0.9:8080");
    assert!(full.get("manifest").and_then(|m| m.get("k")).is_some());
    let bare = d.record(false, false);
    assert!(bare.get("base_url").is_none());
    assert!(matches!(bare.get("manifest"), Some(JsonValue::Null)));
}

#[test]
fn service_entries_single_and_multiple() {
    let single = obj(vec![("service_name", s("A"))]);
    let e = service_entries(&single);
    assert_eq!(e.len(), 1);
    assert_eq!(e[0].str_field_or("service_name", ""), "A");
    let multi = obj(vec![(
        "services",
        JsonValue::Array(vec![obj(vec![("service_name", s("B"))]), obj(vec![("service_name", s("C"))])]),
    )]);
    let e = service_entries(&multi);
    assert_eq!(e.len(), 2);
    assert_eq!(e[1].str_field_or("service_name", ""), "C");
    let odd = obj(vec![("services", s("none"))]);
    assert_eq!(service_entries(&odd).len(), 1);
}

#[test]
fn announcement_has_no_version_member() {
    let c = sample_config();
    assert!(announcement(&c, 1).get("version").is_none());
    assert!(farewell(&c, 1).get("version").is_some());
}
