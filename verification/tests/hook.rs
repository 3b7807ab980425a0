use lazy_panic::failure::FailureInfo;
use lazy_panic::formatter::{JustError, PanicFormat, Simple};
use lazy_panic::hook::{render_for, HookState, Profile};
use lazy_panic::payload::{Payload, STR_TYPE_ID};

fn sample_info() -> FailureInfo {
    FailureInfo {
        location: None,
        payload: Payload {
            type_id: STR_TYPE_ID,
            display: b"oops".to_vec(),
            debug: b"\"oops\"".to_vec(),
        },
    }
}

#[test]
fn no_handler_before_first_installation() {
    let hook = HookState::new();
    assert!(hook.handle(&sample_info()).is_none());
}

#[test]
fn installed_profile_renders_the_failure() {
    let mut hook = HookState::new();
    hook.install(Profile::Simple);
    let out = hook.handle(&sample_info());
    assert_eq!(out, Some(Simple::print(&sample_info())));
}

#[test]
fn last_installation_wins() {
    let mut hook = HookState::new();
    hook.install(Profile::Simple);
    hook.install(Profile::JustError);
    let out = hook.handle(&sample_info());
    assert_eq!(out, Some(JustError::print(&sample_info())));
    assert_eq!(out, Some(b"oops\n".to_vec()));

    hook.install(Profile::Empty);
    let out = hook.handle(&sample_info());
    assert_eq!(out, Some(Vec::new()));
}

#[test]
fn render_for_matches_each_profile() {
    let info = sample_info();
    assert_eq!(render_for(Profile::Empty, &info), Vec::<u8>::new());
    assert_eq!(render_for(Profile::Simple, &info), Simple::print(&info));
    assert_eq!(render_for(Profile::JustError, &info), b"oops\n".to_vec());
    let debug = render_for(Profile::Debug, &info);
    assert!(debug.starts_with(b"Stack backtrace:"));
    assert!(debug.ends_with(&Simple::print(&info)));
}
