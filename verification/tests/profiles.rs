use lazy_panic::failure::{FailureInfo, Location};
use lazy_panic::formatter::{PanicFormat, Empty, Simple, JustError};
use lazy_panic::payload::{Payload, STR_TYPE_ID, UNKNOWN_TYPE_ID};

fn str_payload(s: &str) -> Payload {
    Payload {
        type_id: STR_TYPE_ID,
        display: s.as_bytes().to_vec(),
        debug: format!("{:?}", s).into_bytes(),
    }
}

fn located(file: &str, line: u32, payload: &str) -> FailureInfo {
    FailureInfo {
        location: Some(Location { file: file.as_bytes().to_vec(), line }),
        payload: str_payload(payload),
    }
}

fn unlocated(payload: &str) -> FailureInfo {
    FailureInfo { location: None, payload: str_payload(payload) }
}

#[test]
fn empty_renders_zero_bytes() {
    let out = Empty::print(&located("foo.rs", 42, "lolka"));
    assert_eq!(out.len(), 0);
    let out = Empty::print(&unlocated("anything at all"));
    assert_eq!(out.len(), 0);
}

#[test]
fn simple_renders_location_and_payload() {
    let out = Simple::print(&located("foo.rs", 42, "lolka"));
    assert_eq!(out, b"Panic:foo.rs:42 - lolka\n".to_vec());
}

#[test]
fn simple_renders_placeholder_without_location() {
    let out = Simple::print(&unlocated("lolka"));
    assert_eq!(out, b"Panic:unknown:0 - lolka\n".to_vec());
}

#[test]
fn just_error_renders_payload_only() {
    let out = JustError::print(&unlocated("oops"));
    assert_eq!(out, b"oops\n".to_vec());
    let out = JustError::print(&located("foo.rs", 42, "oops"));
    assert_eq!(out, b"oops\n".to_vec());
}

#[test]
fn simple_renders_debug_text_for_unknown_payload() {
    let info = FailureInfo {
        location: Some(Location { file: b"lib.rs".to_vec(), line: 7 }),
        payload: Payload {
            type_id: UNKNOWN_TYPE_ID,
            display: Vec::new(),
            debug: b"Any { .. }".to_vec(),
        },
    };
    let out = Simple::print(&info);
    assert_eq!(out, b"Panic:lib.rs:7 - Any { .. }\n".to_vec());
}

#[test]
fn debug_output_is_trace_then_simple() {
    let info = located("foo.rs", 42, "lolka");
    let simple = Simple::print(&info);
    let out = lazy_panic::formatter::Debug::print(&info);
    assert!(out.starts_with(b"Stack backtrace:"));
    assert!(out.ends_with(&simple));
    assert!(out.len() > simple.len());
}

#[test]
#[should_panic]
fn should_simple_panic() {
    let _ = Simple::print(&unlocated("lolka"));
    panic!("lolka");
}

#[test]
#[should_panic]
fn should_empty_panic() {
    let _ = Empty::print(&unlocated("lolka"));
    panic!("lolka");
}

#[test]
#[should_panic]
fn should_debug_panic() {
    let _ = lazy_panic::formatter::Debug::print(&unlocated("lolka"));
    panic!("lolka");
}

#[test]
#[should_panic]
fn should_just_error_panic() {
    let _ = JustError::print(&unlocated("lolka"));
    panic!("lolka");
}
