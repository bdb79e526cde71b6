use pyroscope_cli::cause::Cause;
use pyroscope_cli::error::Error;

/// A test-only error whose display and debug texts are both exactly
/// `"unexpected token at line 4"`.
struct ParseTokenError;

impl std::fmt::Display for ParseTokenError {
    fn fmt(&self, f: &mut std::fmt::Formatter<'_>) -> std::fmt::Result {
        f.write_str("unexpected token at line 4")
    }
}

impl std::fmt::Debug for ParseTokenError {
    fn fmt(&self, f: &mut std::fmt::Formatter<'_>) -> std::fmt::Result {
        f.write_str("unexpected token at line 4")
    }
}

impl std::error::Error for ParseTokenError {}

struct NullLogger;

impl log::Log for NullLogger {
    fn enabled(&self, _metadata: &log::Metadata) -> bool {
        false
    }

    fn log(&self, _record: &log::Record) {}

    fn flush(&self) {}
}

#[test]
fn ad_hoc_renders_with_other_prefix() {
    let e = Error::new("boom");
    assert_eq!(e.render(), "Other: boom");
    assert!(e.source().is_none());
}

#[test]
fn ad_hoc_empty_message() {
    let e = Error::new("");
    assert_eq!(e.render(), "Other: ");
}

#[test]
fn compat_renders_message_and_debug_of_cause() {
    let e = Error::new_with_source("failed to load config", ParseTokenError);
    assert_eq!(e.render(), "failed to load config: unexpected token at line 4");
    assert_eq!(e.source().unwrap().render(), "unexpected token at line 4");
}

#[test]
fn compat_uses_debug_form_of_cause() {
    let ioe = std::io::Error::new(std::io::ErrorKind::Other, "disk unreachable");
    let expected = format!("while syncing: {:?}", &ioe);
    let e = Error::new_with_source("while syncing", ioe);
    assert_eq!(e.render(), expected);
}

#[test]
fn io_error_passes_through_unchanged() {
    let ioe = std::io::Error::new(std::io::ErrorKind::NotFound, "file not found");
    let expected = ioe.to_string();
    let e = Error::from_io(ioe);
    assert_eq!(e.render(), expected);
    assert_eq!(e.render(), "file not found");
}

#[test]
fn clap_error_passes_through_unchanged() {
    let ce = clap::Error::raw(clap::ErrorKind::InvalidValue, "bad value for --thing");
    let expected = ce.to_string();
    let e = Error::from_clap(ce);
    assert_eq!(e.render(), expected);
}

#[test]
fn set_logger_error_passes_through_unchanged() {
    log::set_boxed_logger(Box::new(NullLogger)).expect("first install succeeds");
    let sle = log::set_boxed_logger(Box::new(NullLogger))
        .expect_err("second install must fail");
    let expected = sle.to_string();
    let e = Error::from_set_logger(sle);
    assert_eq!(e.render(), expected);
}

#[test]
fn config_error_passes_through_unchanged() {
    let ce = config::ConfigError::Message(String::from("missing key `server.url`"));
    let expected = ce.to_string();
    let e = Error::from_config(ce);
    assert_eq!(e.render(), expected);
    assert_eq!(e.render(), "missing key `server.url`");
}

#[test]
fn pyroscope_error_passes_through_unchanged() {
    let pe = pyroscope::PyroscopeError::new("profiler is down");
    let expected = pe.to_string();
    let e = Error::from_pyroscope(pe);
    assert_eq!(e.render(), expected);
    assert_eq!(e.render(), "Other: profiler is down");
}

#[test]
fn json_error_passes_through_unchanged() {
    let je = serde_json::from_str::<serde_json::Value>("{").unwrap_err();
    let expected = je.to_string();
    let e = Error::from_json(je);
    assert_eq!(e.render(), expected);
}

#[test]
fn poison_error_renders_fixed_text() {
    let e = Error::from_poison(std::sync::PoisonError::new(41u32));
    assert_eq!(e.render(), "Other: Poison Error");
    assert!(e.source().is_none());
}

#[test]
fn poison_error_ignores_payload_type_and_content() {
    let a = Error::from_poison(std::sync::PoisonError::new(String::from("payload")));
    let b = Error::from_poison(std::sync::PoisonError::new(-7i64));
    assert_eq!(a.render(), "Other: Poison Error");
    assert_eq!(b.render(), "Other: Poison Error");
}

#[test]
fn source_round_trip_keeps_cause_text() {
    let ioe = std::io::Error::new(std::io::ErrorKind::NotFound, "file not found");
    let io_text = ioe.to_string();
    let e = Error::from_io(ioe);
    assert_eq!(e.source().unwrap().render(), io_text);

    let je = serde_json::from_str::<serde_json::Value>("]").unwrap_err();
    let json_text = je.to_string();
    let e = Error::from_json(je);
    assert_eq!(e.source().unwrap().render(), json_text);

    let ce = config::ConfigError::Message(String::from("bad port"));
    let config_text = ce.to_string();
    let e = Error::from_config(ce);
    assert_eq!(e.source().unwrap().render(), config_text);
}

#[test]
fn cause_from_error_keeps_display_text() {
    let ioe = std::io::Error::new(std::io::ErrorKind::Other, "broken pipe");
    let c = Cause::from_error(ioe);
    assert_eq!(c.render(), "broken pipe");
}

#[test]
fn matching_with_catch_all_arm() {
    let e = Error::from_poison(std::sync::PoisonError::new(0u8));
    let seen = match e {
        Error::AdHoc(m) => m,
        _ => String::from("not ad-hoc"),
    };
    assert_eq!(seen, "Poison Error");
}
