use demo::error::Error;
use demo::logger::{
    format_msg, level_method_name, CallState, Level, LogMethods, LogRecord, LogStep, Logger,
};

fn methods() -> LogMethods {
    LogMethods { error: 11, warn: 12, info: 13, debug: 14, trace: 15 }
}

fn record(target: &str, level: Level) -> LogRecord {
    LogRecord {
        target: String::from(target),
        level,
        file: Some(String::from("src/lib.rs")),
        line: Some(42),
        message: String::from("hello"),
    }
}

#[test]
fn format_msg_with_full_location() {
    let r = record("app", Level::Info);
    assert_eq!(format_msg(&r), "src/lib.rs:42 - hello");
}

#[test]
fn format_msg_without_file() {
    let mut r = record("app", Level::Info);
    r.file = None;
    assert_eq!(format_msg(&r), ":42 - hello");
}

#[test]
fn format_msg_without_location() {
    let mut r = record("app", Level::Info);
    r.file = None;
    r.line = None;
    assert_eq!(format_msg(&r), " - hello");
}

#[test]
fn format_msg_line_edge_values() {
    let mut r = record("app", Level::Info);
    r.line = Some(0);
    assert_eq!(format_msg(&r), "src/lib.rs:0 - hello");
    r.line = Some(4294967295);
    assert_eq!(format_msg(&r), "src/lib.rs:4294967295 - hello");
    r.line = Some(10);
    assert_eq!(format_msg(&r), "src/lib.rs:10 - hello");
}

#[test]
fn enabled_excludes_the_recursion_prefix() {
    let filter = Logger;
    assert!(!filter.enabled("jni"));
    assert!(!filter.enabled("jni::calls"));
    assert!(!filter.enabled("jnienv"));
    assert!(filter.enabled("jn"));
    assert!(filter.enabled(""));
    assert!(filter.enabled("demo"));
    assert!(filter.enabled("app::jni"));
}

#[test]
fn find_method_selects_by_level() {
    let m = methods();
    assert_eq!(m.find_method(Level::Error), 11);
    assert_eq!(m.find_method(Level::Warn), 12);
    assert_eq!(m.find_method(Level::Info), 13);
    assert_eq!(m.find_method(Level::Debug), 14);
    assert_eq!(m.find_method(Level::Trace), 15);
}

#[test]
fn level_method_names() {
    assert_eq!(level_method_name(Level::Error), "error");
    assert_eq!(level_method_name(Level::Warn), "warn");
    assert_eq!(level_method_name(Level::Info), "info");
    assert_eq!(level_method_name(Level::Debug), "debug");
    assert_eq!(level_method_name(Level::Trace), "trace");
}

#[test]
fn logger_cache_resolves_each_name_once() {
    let mut cs = CallState::try_new(methods());
    let name = String::from("app::fetch");
    assert_eq!(cs.lookup_logger(&name), None);
    assert_eq!(cs.cache_logger(&name, 7), 7);
    assert_eq!(cs.lookup_logger(&name), Some(7));
    // a second resolution for the same name loses the race: the first stays
    assert_eq!(cs.cache_logger(&name, 99), 7);
    assert_eq!(cs.lookup_logger(&name), Some(7));
    // other names are independent
    let other = String::from("app::init");
    assert_eq!(cs.cache_logger(&other, 8), 8);
    assert_eq!(cs.lookup_logger(&other), Some(8));
    assert_eq!(cs.lookup_logger(&name), Some(7));
}

#[test]
fn excluded_source_is_never_dispatched() {
    let mut cs = CallState::try_new(methods());
    // even a cached logger for the excluded source is never used
    let name = String::from("jni::calls");
    cs.cache_logger(&name, 7);
    let r = record("jni::calls", Level::Error);
    assert!(matches!(cs.plan(&r), LogStep::Skip));
}

#[test]
fn plan_resolves_then_dispatches() {
    let mut cs = CallState::try_new(methods());
    let r = record("app", Level::Warn);
    match cs.plan(&r) {
        LogStep::Resolve { name } => assert_eq!(name, "app"),
        _ => panic!("expected Resolve before a logger is cached"),
    }
    cs.cache_logger(&String::from("app"), 21);
    match cs.plan(&r) {
        LogStep::Dispatch { logger, method, message } => {
            assert_eq!(logger, 21);
            assert_eq!(method, 12); // the warn method
            assert_eq!(message, "src/lib.rs:42 - hello");
        }
        _ => panic!("expected Dispatch once the logger is cached"),
    }
}

#[test]
fn error_describe_labels_each_variant() {
    let j = Error::Jni { detail: String::from("bad global reference") };
    assert_eq!(j.describe(), "Jni error: bad global reference");
    let q = Error::Reqwest { detail: String::from("connection refused") };
    assert_eq!(q.describe(), "Reqwest error: connection refused");
}
