use senseshift::logging::{level_to_string, LogLevel, LogVisitor};

#[test]
fn level_names() {
    assert_eq!(level_to_string(&LogLevel::Error), "ERROR");
    assert_eq!(level_to_string(&LogLevel::Warn), "WARN");
    assert_eq!(level_to_string(&LogLevel::Info), "INFO");
    assert_eq!(level_to_string(&LogLevel::Debug), "DEBUG");
    assert_eq!(level_to_string(&LogLevel::Trace), "TRACE");
}

#[test]
fn fields_make_the_message() {
    let mut v = LogVisitor::new();
    assert_eq!(v.message, "");
    v.record_field("port", "9000");
    assert_eq!(v.message, "port=9000");
    v.record_field("host", "localhost");
    assert_eq!(v.message, "port=9000 host=localhost");
    v.record_field("message", "started");
    assert_eq!(v.message, "started");
    v.record_field("target", "vrchat");
    assert_eq!(v.message, "started target=vrchat");
}
