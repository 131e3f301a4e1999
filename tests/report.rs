use app_center::device::{Device, Utils};
use app_center::report::{
    identifier_from, time_text, unix_time, AgentSettings, AppCenterException, AppCenterLog,
    AppCenterLogs, CapturedFrame, ExceptionFrame, FailureInfo, ResolvedSymbol, SourceLocation,
};
use app_center::text::{decimal_text, hex_text};

fn failure(payload: Option<&str>, location: Option<(&str, u32)>) -> FailureInfo {
    FailureInfo {
        payload_text: payload.map(|p| p.to_string()),
        location: location.map(|(file, line)| SourceLocation { file: file.to_string(), line }),
    }
}

fn settings() -> AgentSettings {
    AgentSettings::new("secret".to_string(), "1.2.3")
}

fn report() -> AppCenterLogs {
    AppCenterLogs::new_payload(&settings(), Some("user-7".to_string()), 4242, &failure(Some("boom"), Some(("example.rs", 42))))
}

fn failure_id(logs: &AppCenterLogs) -> u128 {
    match &logs.logs()[0] {
        AppCenterLog::ManagedError { id, .. } => *id,
        AppCenterLog::ErrorAttachment { .. } => panic!("first entry is not the failure record"),
    }
}

#[test]
fn decimal_text_writes_digits() {
    assert_eq!(decimal_text(0), "0");
    assert_eq!(decimal_text(7), "7");
    assert_eq!(decimal_text(42), "42");
    assert_eq!(decimal_text(1000), "1000");
    assert_eq!(decimal_text(u32::MAX), "4294967295");
}

#[test]
fn message_of_boom_at_example() {
    let e = AppCenterException::with_frames(&failure(Some("boom"), Some(("example.rs", 42))), Vec::new());
    assert_eq!(e.kind, "panic");
    assert_eq!(e.message, "boom at example.rs:42");
    assert!(e.frames.is_empty());
}

#[test]
fn message_starts_with_payload() {
    let e = AppCenterException::with_frames(&failure(Some("index out of range"), Some(("src/a.rs", 7))), Vec::new());
    assert!(e.message.starts_with("index out of range"));
    let e = AppCenterException::with_frames(&failure(Some("only text"), None), Vec::new());
    assert_eq!(e.message, "only text");
}

#[test]
fn message_ends_with_location() {
    let e = AppCenterException::with_frames(&failure(None, Some(("src/main.rs", 1234))), Vec::new());
    assert_eq!(e.message, " at src/main.rs:1234");
    let e = AppCenterException::with_frames(&failure(Some("x"), Some(("lib.rs", 0))), Vec::new());
    assert!(e.message.ends_with(" at lib.rs:0"));
}

#[test]
fn message_of_non_text_payload_without_location_is_empty() {
    let e = AppCenterException::with_frames(&failure(None, None), Vec::new());
    assert_eq!(e.message, "");
}

#[test]
fn exception_new_captures_frames_with_addresses() {
    let e = AppCenterException::new(&failure(Some("boom"), None));
    assert_eq!(e.message, "boom");
    assert!(!e.frames.is_empty());
    assert!(e.frames.iter().all(|f| f.address.as_deref().map_or(true, |a| a.starts_with("0x"))));
    assert!(e.frames.iter().any(|f| f.address.is_some()));
}

#[test]
fn hex_text_writes_lower_case_digits() {
    assert_eq!(hex_text(0), "0");
    assert_eq!(hex_text(10), "a");
    assert_eq!(hex_text(255), "ff");
    assert_eq!(hex_text(0x7f3a_19c0), "7f3a19c0");
}

#[test]
fn identifier_without_random_bytes_is_nil() {
    assert_eq!(identifier_from(None), 0);
    let id = identifier_from(Some([0xff; 16]));
    assert_eq!(uuid::Uuid::from_u128(id).get_version_num(), 4);
    assert_eq!(id, 0xffff_ffff_ffff_4fff_bfff_ffff_ffff_ffff);
    let id = identifier_from(Some([0; 16]));
    assert_eq!(id, 0x0000_0000_0000_4000_8000_0000_0000_0000);
}

#[test]
fn unix_time_counts_before_epoch_backwards() {
    assert_eq!(unix_time(true, 5, 250), Some((5, 250)));
    assert_eq!(unix_time(false, 5, 0), Some((-5, 0)));
    assert_eq!(unix_time(false, 5, 250_000_000), Some((-6, 750_000_000)));
    assert_eq!(unix_time(true, u64::MAX, 0), None);
}

#[test]
fn time_text_writes_rfc3339() {
    assert_eq!(time_text(Some((0, 0))), "1970-01-01T00:00:00Z");
    assert_eq!(time_text(Some((86_400 + 61, 500_000_000))), "1970-01-02T00:01:01.500Z");
    assert_eq!(time_text(Some((-1, 0))), "1969-12-31T23:59:59Z");
    assert_eq!(time_text(None), "1970-01-01T00:00:00Z");
    assert_eq!(time_text(Some((i64::MAX, 0))), "1970-01-01T00:00:00Z");
    assert_eq!(time_text(Some((-62_135_596_800, 0))), "0001-01-01T00:00:00Z");
    assert_eq!(time_text(Some((253_402_300_799, 999_999_999))), "9999-12-31T23:59:59.999999999Z");
}

#[test]
fn frames_follow_stack_in_order() {
    let sym = |n: Option<&str>, l: Option<u32>, f: Option<&str>| ResolvedSymbol {
        name: n.map(|s| s.to_string()),
        line: l,
        file: f.map(|s| s.to_string()),
    };
    let rows = vec![
        CapturedFrame {
            ip: 0x1000,
            symbols: vec![sym(Some("inner"), Some(3), Some("a.rs")), sym(Some("inlined"), None, None)],
        },
        CapturedFrame { ip: 0x2abc, symbols: vec![] },
        CapturedFrame { ip: 0x3000, symbols: vec![sym(None, None, None)] },
        CapturedFrame { ip: 0, symbols: vec![sym(Some("outer"), Some(9), Some("b.rs"))] },
    ];
    let frames = ExceptionFrame::frames_from_stack(&rows);
    assert_eq!(frames.len(), 5);
    assert_eq!(frames[0].method_name.as_deref(), Some("inner"));
    assert_eq!(frames[0].line_number, Some(3));
    assert_eq!(frames[0].file_name.as_deref(), Some("a.rs"));
    assert_eq!(frames[0].address.as_deref(), Some("0x1000"));
    assert_eq!(frames[1].method_name.as_deref(), Some("inlined"));
    assert_eq!(frames[1].line_number, None);
    assert_eq!(frames[1].address.as_deref(), Some("0x1000"));
    assert!(frames[2].method_name.is_none() && frames[2].line_number.is_none() && frames[2].file_name.is_none());
    assert_eq!(frames[2].address.as_deref(), Some("0x2abc"));
    assert!(frames[3].method_name.is_none() && frames[3].file_name.is_none());
    assert_eq!(frames[3].address.as_deref(), Some("0x3000"));
    assert_eq!(frames[4].method_name.as_deref(), Some("outer"));
    assert!(frames[4].address.is_none());
    assert!(ExceptionFrame::frames_from_stack(&Vec::new()).is_empty());
}

#[test]
fn frame_without_symbols_is_kept() {
    let rows = vec![CapturedFrame { ip: 0, symbols: vec![] }];
    let frames = ExceptionFrame::frames_from_stack(&rows);
    assert_eq!(frames.len(), 1);
    let f = &frames[0];
    assert!(f.method_name.is_none() && f.line_number.is_none() && f.file_name.is_none() && f.address.is_none());
}

#[test]
fn new_payload_holds_one_failure_record() {
    let s = settings();
    let logs = AppCenterLogs::new_payload(&s, None, 77, &failure(Some("boom"), Some(("example.rs", 42))));
    assert_eq!(logs.logs().len(), 1);
    match &logs.logs()[0] {
        AppCenterLog::ManagedError {
            user_id, app_launch_timestamp, fatal, process_id, process_name, device, exception, ..
        } => {
            assert!(user_id.is_none());
            assert_eq!(app_launch_timestamp, &s.app_launch_timestamp);
            assert!(*fatal);
            assert_eq!(*process_id, 77);
            assert_eq!(process_name, "");
            assert_eq!(device.app_version, "1.2.3");
            assert_eq!(device.app_build, "");
            assert_eq!(exception.kind, "panic");
            assert_eq!(exception.message, "boom at example.rs:42");
        }
        AppCenterLog::ErrorAttachment { .. } => panic!("expected a failure record"),
    }
}

#[test]
fn new_payload_keeps_user_id() {
    let logs = report();
    match &logs.logs()[0] {
        AppCenterLog::ManagedError { user_id, .. } => assert_eq!(user_id.as_deref(), Some("user-7")),
        AppCenterLog::ErrorAttachment { .. } => panic!("expected a failure record"),
    }
}

#[test]
fn binary_attachment_refers_to_failure() {
    let mut logs = report();
    let id = failure_id(&logs);
    logs.add_binary_attachement(vec![0, 1, 2, 255], None);
    logs.add_attachement_inner(vec![9], Some("raw.bin"), "image/png");
    assert_eq!(logs.logs().len(), 3);
    match &logs.logs()[2] {
        AppCenterLog::ErrorAttachment { error_id, content_type, file_name, .. } => {
            assert_eq!(*error_id, id);
            assert_eq!(content_type, "image/png");
            assert_eq!(file_name.as_deref(), Some("raw.bin"));
        }
        AppCenterLog::ManagedError { .. } => panic!("expected an attachment"),
    }
    match &logs.logs()[1] {
        AppCenterLog::ErrorAttachment { error_id, content_type, data, file_name, device, .. } => {
            assert_eq!(*error_id, id);
            assert_eq!(content_type, "application/octet_stream");
            assert_eq!(data, &vec![0u8, 1, 2, 255]);
            assert!(file_name.is_none());
            assert_eq!(device.app_version, "1.2.3");
        }
        AppCenterLog::ManagedError { .. } => panic!("expected an attachment"),
    }
}

#[test]
fn text_attachment_holds_utf8_bytes() {
    let mut logs = report();
    logs.add_text_attachement("hello", Some("note.txt"));
    match &logs.logs()[1] {
        AppCenterLog::ErrorAttachment { content_type, data, file_name, .. } => {
            assert_eq!(content_type, "text/plain");
            assert_eq!(data, &b"hello".to_vec());
            assert_eq!(file_name.as_deref(), Some("note.txt"));
        }
        AppCenterLog::ManagedError { .. } => panic!("expected an attachment"),
    }
}

#[test]
fn every_attachment_refers_to_failure() {
    let mut logs = report();
    let id = failure_id(&logs);
    for k in 0..5u8 {
        logs.add_binary_attachement(vec![k], None);
        logs.add_text_attachement("line", None);
    }
    assert_eq!(logs.logs().len(), 11);
    assert!(matches!(logs.logs()[0], AppCenterLog::ManagedError { .. }));
    let mut attachment_ids = Vec::new();
    for e in &logs.logs()[1..] {
        match e {
            AppCenterLog::ErrorAttachment { id: own, error_id, .. } => {
                assert_eq!(*error_id, id);
                attachment_ids.push(*own);
            }
            AppCenterLog::ManagedError { .. } => panic!("only the first entry is a failure record"),
        }
    }
    attachment_ids.sort();
    attachment_ids.dedup();
    assert_eq!(attachment_ids.len(), 10);
}

#[test]
fn two_failures_get_distinct_ids() {
    let ids: Vec<u128> = (0..2).map(|_| failure_id(&report())).collect();
    assert_ne!(ids[0], ids[1]);
}

#[test]
fn device_describes_host() {
    let d = Device::current_device("2.0", &Some("77".to_string()));
    assert_eq!(d.model, "Computer");
    assert_eq!(d.sdk_name, "appcenter.custom");
    assert_eq!(d.sdk_version, "3.2.2");
    assert_eq!(d.os_name, "Linux");
    assert_eq!(d.locale, "en_US");
    assert_eq!(d.app_version, "2.0");
    assert_eq!(d.app_build, "77");
    let copy = d.duplicate();
    assert_eq!(copy.model, d.model);
    assert_eq!(copy.os_version, d.os_version);
    assert_eq!(copy.app_build, d.app_build);
}

#[test]
fn utils_report_host_facts() {
    assert_eq!(Utils::get_model(), "Computer");
    assert_eq!(Utils::get_locale(), "en_US");
    assert_eq!(Utils::os_version_or_unknown(None), "Unknown");
    assert_eq!(Utils::os_version_or_unknown(Some("Linux 6".to_string())), "Linux 6");
    assert!(!Utils::get_os_version().is_empty());
}
