use lazy_panic::failure::{FailureInfo, Location};
use lazy_panic::formatter::{print_into, PanicFormat, Simple};
use lazy_panic::payload::{Payload, STR_TYPE_ID};
use lazy_panic::sink::Sink;

fn sample_info() -> FailureInfo {
    FailureInfo {
        location: Some(Location { file: b"foo.rs".to_vec(), line: 42 }),
        payload: Payload {
            type_id: STR_TYPE_ID,
            display: b"lolka".to_vec(),
            debug: b"\"lolka\"".to_vec(),
        },
    }
}

#[test]
fn working_sink_records_exactly_one_rendering() {
    let mut sink = Sink::new();
    print_into::<Simple, Simple, Simple, Simple>(&mut sink, &sample_info());
    assert_eq!(sink.into_bytes(), Simple::print(&sample_info()));
}

#[test]
fn unavailable_sink_swallows_every_write() {
    // Rendering into a dead stream must neither fail nor record anything.
    let mut sink = Sink::unavailable();
    print_into::<Simple, Simple, Simple, Simple>(&mut sink, &sample_info());
    assert_eq!(sink.len(), 0);
    assert_eq!(sink.into_bytes(), Vec::<u8>::new());
}

#[test]
fn unavailable_sink_reports_the_write_error() {
    let mut sink = Sink::unavailable();
    let r = sink.write_bytes(b"diagnostic");
    assert!(r.is_err());
    assert_eq!(sink.len(), 0);
}

#[test]
fn working_sink_accepts_writes_in_order() {
    let mut sink = Sink::new();
    assert!(sink.write_bytes(b"one ").is_ok());
    assert!(sink.write_bytes(b"two").is_ok());
    assert_eq!(sink.len(), 7);
    assert_eq!(sink.into_bytes(), b"one two".to_vec());
}
