use demo::bridge::{exception_message, Context, InitDecision, OpState};
use demo::error::Error;
use demo::logger::LogMethods;

fn methods() -> LogMethods {
    LogMethods { error: 1, warn: 2, info: 3, debug: 4, trace: 5 }
}

fn initialized_context(workers: usize) -> Context {
    let mut c = Context::new();
    let d = c.init(workers as i32);
    match d {
        InitDecision::Proceed { workers: w } => {
            assert_eq!(w, workers);
            let r = c.complete_init(w, Ok(methods()));
            assert!(r.is_ok());
        }
        _ => panic!("expected Proceed"),
    }
    c
}

#[test]
fn init_rejects_negative_size() {
    let mut c = Context::new();
    match c.init(-1) {
        InitDecision::Reject { message } => {
            assert_eq!(message, "`runtime_size` cannot be less than 0");
            assert!(message.contains("cannot be less than 0"));
        }
        _ => panic!("expected Reject"),
    }
    // the system is left uninitialized: a later valid request still succeeds
    assert!(!c.initialized);
    match c.init(0) {
        InitDecision::Proceed { workers } => assert!(workers >= 1),
        _ => panic!("expected Proceed"),
    }
}

#[test]
fn init_zero_means_auto_detect() {
    let c = Context::new();
    match c.init(0) {
        InitDecision::Proceed { workers } => assert!(workers >= 1),
        _ => panic!("expected Proceed"),
    }
}

#[test]
fn init_is_idempotent() {
    let mut c = initialized_context(2);
    assert!(c.initialized);
    assert_eq!(c.runtime_size, 2);
    // a second initialization, of any size, is a silent no-op
    assert!(matches!(c.init(2), InitDecision::AlreadyInitialized));
    assert!(matches!(c.init(0), InitDecision::AlreadyInitialized));
    assert!(matches!(c.init(7), InitDecision::AlreadyInitialized));
    assert_eq!(c.runtime_size, 2);
}

#[test]
fn failed_resolution_leaves_uninitialized() {
    let mut c = Context::new();
    let r = c.complete_init(
        1,
        Err(Error::Jni {
            detail: String::from("NoClassDefFoundError"),
        }),
    );
    assert_eq!(r.unwrap_err(), "Jni error: NoClassDefFoundError");
    assert!(!c.initialized);
}

#[test]
fn hello_returns_handle_and_completes_with_payload() {
    let mut c = initialized_context(2);
    let h1 = c.hello(String::from("http://example.com"));
    assert_eq!(h1, 1);
    match c.registry.get_future(h1) {
        OpState::Running { url } => assert_eq!(url, "http://example.com"),
        _ => panic!("expected Running"),
    }
    c.complete_future(h1, Ok(String::from("fetched body")));
    match c.registry.get_future(h1) {
        OpState::CompletedOk { value } => assert_eq!(value, "fetched body"),
        _ => panic!("expected CompletedOk"),
    }
}

#[test]
fn failed_fetch_completes_exceptionally_with_transport_text() {
    let mut c = initialized_context(1);
    let h = c.hello(String::from("http://no-such-host.invalid"));
    c.complete_future(
        h,
        Err(Error::Reqwest {
            detail: String::from("dns error: failed to lookup address"),
        }),
    );
    match c.registry.get_future(h) {
        OpState::CompletedErr { error } => {
            let text = error.describe();
            assert!(text.contains("Reqwest"));
            assert_eq!(text, "Reqwest error: dns error: failed to lookup address");
        }
        _ => panic!("expected CompletedErr"),
    }
}

#[test]
fn concurrent_operations_are_independent() {
    let mut c = initialized_context(2);
    let h1 = c.hello(String::from("http://example.com/a"));
    let h2 = c.hello(String::from("http://example.com/b"));
    assert_ne!(h1, h2);
    // completing h1 does not affect h2
    c.complete_future(h1, Ok(String::from("payload a")));
    match c.registry.get_future(h2) {
        OpState::Running { url } => assert_eq!(url, "http://example.com/b"),
        _ => panic!("expected h2 still Running"),
    }
    c.complete_future(h2, Ok(String::from("payload b")));
    match c.registry.get_future(h1) {
        OpState::CompletedOk { value } => assert_eq!(value, "payload a"),
        _ => panic!("expected CompletedOk for h1"),
    }
    match c.registry.get_future(h2) {
        OpState::CompletedOk { value } => assert_eq!(value, "payload b"),
        _ => panic!("expected CompletedOk for h2"),
    }
}

#[test]
fn exception_message_without_pending_exception() {
    let r = exception_message(String::from("bridge failure"), None);
    assert_eq!(r, "bridge failure");
}

#[test]
fn exception_message_appends_pending_exception() {
    let r = exception_message(
        String::from("bridge failure"),
        Some((
            String::from("java.lang.IllegalStateException"),
            String::from("registry gone"),
        )),
    );
    assert_eq!(
        r,
        "bridge failure. Java exception occurred: java.lang.IllegalStateException: registry gone"
    );
}
