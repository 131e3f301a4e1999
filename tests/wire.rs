use app_center::report::{
    AgentSettings, AppCenterLog, AppCenterLogs, ExceptionFrame, FailureInfo, SourceLocation,
};
use app_center::transport::{handler_plan, request_headers, HookAction, CONNECT_TIMEOUT_SECS, INGESTION_URL};
use serde_json::Value;

fn report(user: Option<&str>) -> AppCenterLogs {
    let settings = AgentSettings::new("secret".to_string(), "1.2.3");
    let failure = FailureInfo {
        payload_text: Some("boom".to_string()),
        location: Some(SourceLocation { file: "example.rs".to_string(), line: 42 }),
    };
    AppCenterLogs::new_payload(&settings, user.map(|u| u.to_string()), 9, &failure)
}

fn parse(text: &str) -> Value {
    serde_json::from_str(text).expect("valid JSON")
}

fn has_null(v: &Value) -> bool {
    match v {
        Value::Null => true,
        Value::Array(items) => items.iter().any(has_null),
        Value::Object(members) => members.values().any(has_null),
        _ => false,
    }
}

#[test]
fn frame_without_fields_is_empty_object() {
    let f = ExceptionFrame { method_name: None, line_number: None, file_name: None, address: None };
    assert_eq!(f.to_json(), "{}");
}

#[test]
fn frame_with_fields_uses_camel_case() {
    let f = ExceptionFrame {
        method_name: Some("main".to_string()),
        line_number: Some(12),
        file_name: Some("src/main.rs".to_string()),
        address: None,
    };
    assert_eq!(f.to_json(), r#"{"methodName":"main","lineNumber":12,"fileName":"src/main.rs"}"#);
}

#[test]
fn failure_record_json_shape() {
    let logs = report(None);
    let v = parse(&logs.to_json());
    let entry = &v["logs"][0];
    assert_eq!(entry["type"], "managedError");
    assert!(entry.get("userId").is_none());
    assert_eq!(entry["fatal"], true);
    assert_eq!(entry["processId"], 9);
    assert_eq!(entry["processName"], "");
    assert_eq!(entry["exception"]["type"], "panic");
    assert_eq!(entry["exception"]["message"], "boom at example.rs:42");
    assert!(entry["exception"]["frames"].is_array());
    assert_eq!(entry["device"]["sdkName"], "appcenter.custom");
    assert_eq!(entry["device"]["appVersion"], "1.2.3");
    assert_eq!(entry["device"]["appBuild"], "");
    let id = match &logs.logs()[0] {
        AppCenterLog::ManagedError { id, .. } => *id,
        AppCenterLog::ErrorAttachment { .. } => panic!("expected a failure record"),
    };
    assert_eq!(entry["id"], uuid::Uuid::from_u128(id).to_string());
}

#[test]
fn user_id_is_serialized_when_present() {
    let v = parse(&report(Some("alice")).to_json());
    assert_eq!(v["logs"][0]["userId"], "alice");
}

#[test]
fn binary_attachment_json() {
    let mut logs = report(None);
    let bytes = vec![0u8, 200, 17, 3, 99];
    logs.add_binary_attachement(bytes.clone(), None);
    let v = parse(&logs.to_json());
    let a = &v["logs"][1];
    assert_eq!(a["type"], "errorAttachment");
    assert_eq!(a["contentType"], "application/octet_stream");
    assert_eq!(a["data"], base64::encode(&bytes));
    assert!(a.get("fileName").is_none());
    assert_eq!(a["errorId"], v["logs"][0]["id"]);
    assert_ne!(a["id"], v["logs"][0]["id"]);
}

#[test]
fn text_attachment_json_decodes_to_hello() {
    let mut logs = report(None);
    logs.add_text_attachement("hello", Some("greeting.txt"));
    let v = parse(&logs.to_json());
    let a = &v["logs"][1];
    assert_eq!(a["contentType"], "text/plain");
    assert_eq!(a["fileName"], "greeting.txt");
    let data = base64::decode(a["data"].as_str().unwrap()).unwrap();
    assert_eq!(data, b"hello".to_vec());
}

#[test]
fn serialized_report_has_no_null() {
    let mut logs = report(None);
    logs.add_binary_attachement(vec![1, 2, 3], None);
    logs.add_text_attachement("t", None);
    let text = logs.to_json();
    assert!(!has_null(&parse(&text)));
    let mut logs = report(Some("bob"));
    logs.add_binary_attachement(vec![], Some("empty.bin"));
    assert!(!has_null(&parse(&logs.to_json())));
}

#[test]
fn strings_are_escaped() {
    let settings = AgentSettings::new("s".to_string(), "1");
    let failure = FailureInfo { payload_text: Some("say \"hi\"\n".to_string()), location: None };
    let logs = AppCenterLogs::new_payload(&settings, None, 1, &failure);
    let v = parse(&logs.to_json());
    assert_eq!(v["logs"][0]["exception"]["message"], "say \"hi\"\n");
}

#[test]
fn headers_and_endpoint() {
    let h = request_headers("abc-123");
    assert_eq!(h.len(), 3);
    assert_eq!(h[0], ("Content-Type".to_string(), "application/json".to_string()));
    assert_eq!(h[1], ("app-secret".to_string(), "abc-123".to_string()));
    assert_eq!(h[2], ("install-id".to_string(), "00000000-0000-0000-0000-000000000001".to_string()));
    assert_eq!(INGESTION_URL, "https://in.appcenter.ms/logs?Api-Version=1.0.0");
    assert_eq!(CONNECT_TIMEOUT_SECS, 4);
}

#[test]
fn previous_hook_runs_once_last() {
    let with = handler_plan(true);
    assert!(with == vec![HookAction::BuildReport, HookAction::RunCallback, HookAction::Deliver, HookAction::RunPreviousHook]);
    let without = handler_plan(false);
    assert!(without == vec![HookAction::BuildReport, HookAction::Deliver, HookAction::RunPreviousHook]);
    assert_eq!(without.iter().filter(|a| **a == HookAction::RunPreviousHook).count(), 1);
}

#[test]
fn identifiers_are_hyphenated_lower_case_hex() {
    let device = app_center::device::Device::current_device("1", &None);
    let e = AppCenterLog::ErrorAttachment {
        id: 0x0011_2233_4455_6677_8899_aabb_ccdd_eeff,
        error_id: 0xab,
        device,
        content_type: "text/plain".to_string(),
        data: vec![],
        file_name: None,
    };
    let v = parse(&e.to_json());
    assert_eq!(v["id"], "00112233-4455-6677-8899-aabbccddeeff");
    assert_eq!(v["errorId"], "00000000-0000-0000-0000-0000000000ab");
    assert_eq!(v["data"], "");
}
