//! Tests of the configuration types, the builders, the syslog
//! facility and identity registry, and path template resolution.

use std::str::FromStr;

use sloggers::builder::SinkPlan;
use sloggers::error::ErrorKind;
use sloggers::file::{FileLoggerBuilder, FileLoggerConfig, path_template_to_path};
use sloggers::logger::LogOutcome;
use sloggers::syslog::facility::Facility;
use sloggers::syslog::registry::SyslogIdentityRegistry;
use sloggers::syslog::{SyslogBuilder, render_syslog_message};
use sloggers::terminal::{Destination, TerminalLoggerBuilder, TerminalLoggerConfig};
use sloggers::types::{
    Format, LogRecord, OverflowStrategy, ProcessID, Severity, SourceLocation, TimeZone,
};
use sloggers::LoggerConfig;

#[test]
fn test_path_template_to_path() {
    let actual = path_template_to_path(
        "foo_{timestamp}.log",
        "%Y%m%d_%H%M",
        TimeZone::Utc, // Local is difficult to test, omitting :(
        1537265991,
    );
    assert_eq!(actual, "foo_20180918_1019.log");
}

#[test]
fn test_facility_from_str() {
    assert_eq!(Facility::from_str("daemon"), Ok(Facility::Daemon));
    assert_eq!(
        Facility::from_str("foobar"),
        Err(sloggers::syslog::facility::UnknownFacilityError {
            name: "foobar".to_string()
        })
    );
    assert_eq!(
        Facility::from_str("foobar").unwrap_err().message(),
        "unrecognized syslog facility name `foobar`"
    );
}

#[test]
fn facility_names_and_codes() {
    assert_eq!(Facility::Daemon.name(), "daemon");
    assert_eq!(Facility::Local7.name(), "local7");
    assert_eq!(Facility::from_str("DAEMON"), Ok(Facility::Daemon));
    assert_eq!(Facility::from_str("Local0"), Ok(Facility::Local0));
    assert_eq!(Facility::default(), Facility::User);
    // The POSIX codes, as Linux defines them.
    assert_eq!(Facility::Kern.code(), 0);
    assert_eq!(Facility::User.code(), 8);
    assert_eq!(Facility::Daemon.code(), 24);
    assert_eq!(Facility::Local0.code(), 128);
    assert_eq!(Facility::from_code(24), Ok(Facility::Daemon));
    // A code the platform does not define is an invalid input.
    assert_eq!(Facility::from_code(7).unwrap_err().kind(), ErrorKind::Invalid);
}

#[test]
fn parsing_configuration_values() {
    assert_eq!(Severity::from_str("trace"), Ok(Severity::Trace));
    assert_eq!(Severity::from_str("critical"), Ok(Severity::Critical));
    assert_eq!(Severity::from_str("verbose").unwrap_err().kind(), ErrorKind::Invalid);
    assert_eq!(Format::from_str("full"), Ok(Format::Full));
    assert_eq!(Format::from_str("json"), Ok(Format::Json));
    assert_eq!(Format::from_str("yaml").unwrap_err().kind(), ErrorKind::Invalid);
    assert_eq!(TimeZone::from_str("utc"), Ok(TimeZone::Utc));
    assert_eq!(TimeZone::from_str("cet").unwrap_err().kind(), ErrorKind::Invalid);
    assert_eq!(SourceLocation::from_str("none"), Ok(SourceLocation::NoLocation));
    assert_eq!(
        SourceLocation::from_str("module_and_line"),
        Ok(SourceLocation::ModuleAndLine)
    );
    assert_eq!(SourceLocation::from_str("caller").unwrap_err().kind(), ErrorKind::Invalid);
    assert_eq!(ProcessID::from_str("true"), Ok(ProcessID(true)));
    assert_eq!(ProcessID::from_str("yes").unwrap_err().kind(), ErrorKind::Invalid);
    assert_eq!(OverflowStrategy::from_str("drop"), Ok(OverflowStrategy::Drop));
    assert_eq!(
        OverflowStrategy::from_str("drop_and_report"),
        Ok(OverflowStrategy::DropAndReport)
    );
    assert_eq!(OverflowStrategy::from_str("block"), Ok(OverflowStrategy::Block));
    assert_eq!(OverflowStrategy::from_str("panic").unwrap_err().kind(), ErrorKind::Invalid);
    // The parse errors name the offending input.
    assert_eq!(
        Severity::from_str("verbose").unwrap_err().message(),
        "undefined severity: verbose"
    );
}

#[test]
fn default_values() {
    assert_eq!(Severity::default(), Severity::Info);
    assert_eq!(Format::default(), Format::Full);
    assert_eq!(TimeZone::default(), TimeZone::Local);
    assert_eq!(SourceLocation::default(), SourceLocation::ModuleAndLine);
    assert_eq!(ProcessID::default(), ProcessID(false));
    assert_eq!(OverflowStrategy::default(), OverflowStrategy::DropAndReport);
    assert_eq!(Destination::default(), Destination::Stderr);
}

#[test]
fn build_twice_yields_independent_loggers() {
    // Building twice from an unmodified builder gives the same
    // configuration...
    let mut builder = TerminalLoggerBuilder::new();
    builder.level(Severity::Debug);
    builder.destination(Destination::Stdout);
    let plan_a = builder.build().unwrap();
    let plan_b = builder.build().unwrap();
    assert_eq!(plan_a.common, plan_b.common);
    match (&plan_a.sink, &plan_b.sink) {
        (
            SinkPlan::Terminal { format: fa, timezone: za, destination: da },
            SinkPlan::Terminal { format: fb, timezone: zb, destination: db },
        ) => {
            assert_eq!(fa, fb);
            assert_eq!(za, zb);
            assert_eq!(da, db);
        }
        _ => unreachable!(),
    }
    // ...but independent runtime state: separate channels...
    let mut pipe_a = plan_a.open_pipeline();
    let pipe_b = plan_b.open_pipeline();
    let rec = LogRecord {
        severity: Severity::Info,
        message: "only in a".to_string(),
        kvs: Vec::new(),
        module: "m".to_string(),
        file: "f".to_string(),
        line: 1,
    };
    assert_eq!(pipe_a.log(rec), LogOutcome::Enqueued);
    assert_eq!(pipe_a.pending(), 1);
    assert_eq!(pipe_b.pending(), 0);

    // ...and, for a file logger, separate appender state.
    let mut file_builder = FileLoggerBuilder::new("foo.log");
    file_builder.rotate_size(100);
    let plan_a = file_builder.build().unwrap();
    let plan_b = file_builder.build().unwrap();
    let (mut app_a, app_b) = match (plan_a.sink, plan_b.sink) {
        (SinkPlan::File { appender: a, .. }, SinkPlan::File { appender: b, .. }) => (a, b),
        _ => unreachable!(),
    };
    assert_eq!(app_a.path, app_b.path);
    assert_eq!(app_a.rotate_size, app_b.rotate_size);
    app_a.on_opened(0);
    app_a.on_write(42);
    assert_eq!(app_a.written_size, 42);
    assert_eq!(app_b.written_size, 0);
    assert!(!app_b.has_handle);
}

#[test]
fn terminal_config_carries_every_setting() {
    let mut config = TerminalLoggerConfig::new();
    config.level = Severity::Warning;
    config.format = Format::Compact;
    config.destination = Destination::Stdout;
    config.channel_size = 7;
    config.overflow_strategy = OverflowStrategy::Block;
    let builder = config.try_to_builder().unwrap();
    assert_eq!(builder.common.level, Severity::Warning);
    assert_eq!(builder.common.channel_size, 7);
    assert_eq!(builder.common.overflow_strategy, OverflowStrategy::Block);
    assert_eq!(builder.format, Format::Compact);
    assert_eq!(builder.destination, Destination::Stdout);
}

#[test]
fn logger_config_set_loglevel() {
    let mut config = LoggerConfig::Terminal(TerminalLoggerConfig::new());
    config.set_loglevel(Severity::Critical);
    match &config {
        LoggerConfig::Terminal(c) => assert_eq!(c.level, Severity::Critical),
        _ => unreachable!(),
    }
    let mut file_config = FileLoggerConfig::new();
    file_config.path = "app.log".to_string();
    let mut config = LoggerConfig::File(file_config);
    config.set_loglevel(Severity::Error);
    let plan = config.build_logger().unwrap();
    assert_eq!(plan.common.level, Severity::Error);
    assert!(matches!(plan.sink, SinkPlan::File { .. }));
}

#[test]
fn file_config_resolves_path_template() {
    let mut config = FileLoggerConfig::new();
    config.path = "logs/app_{timestamp}.log".to_string();
    config.timezone = TimeZone::Utc;
    let builder = config.try_to_builder().unwrap();
    let path = &builder.appender.path;
    // The token is gone, replaced by a rendered timestamp of the
    // default template's length.
    assert!(!path.contains("{timestamp}"));
    assert!(path.starts_with("logs/app_"));
    assert!(path.ends_with(".log"));
    assert_eq!(path.len(), "logs/app_".len() + "20180918_1019".len() + ".log".len());
}

#[test]
fn syslog_ident_discipline() {
    // Two sinks with distinct owned identities, constructed in turn.
    let mut registry = SyslogIdentityRegistry::new();
    let ident_a: u64 = 1;
    let ident_b: u64 = 2;
    registry.note_openlog(true, Some(ident_a));
    registry.note_openlog(true, Some(ident_b));
    // Dropping the first sink: its identity is no longer the current
    // one, so the OS connection must not be closed.
    assert!(!registry.unregister_if_current(ident_a));
    // Dropping the second: still current, so it closes, exactly once.
    assert!(registry.unregister_if_current(ident_b));
    assert_eq!(registry.current, None);
    assert!(!registry.unregister_if_current(ident_b));
}

#[test]
fn syslog_registry_ignores_borrowed_idents() {
    let mut registry = SyslogIdentityRegistry::new();
    registry.note_openlog(true, Some(7));
    // A sink with a borrowed identity registers the identity but owns
    // nothing to free: the slot is cleared rather than pointed at it.
    registry.note_openlog(true, None);
    assert!(!registry.unregister_if_current(7));
    // A sink with no identity at all leaves the slot untouched.
    registry.note_openlog(true, Some(9));
    registry.note_openlog(false, None);
    assert!(registry.unregister_if_current(9));
}

#[test]
fn syslog_builder_and_rendering() {
    let mut b = SyslogBuilder::new();
    b.facility(Facility::Local0);
    b.ident_str("sloggers-example-app");
    b.log_ndelay();
    b.log_odelay();
    b.log_pid();
    b.level(Severity::Debug);
    let plan = b.build().unwrap();
    match &plan.sink {
        SinkPlan::Syslog { facility, ident, log_pid, log_ndelay, log_odelay, .. } => {
            assert_eq!(*facility, Facility::Local0);
            assert_eq!(ident.as_deref(), Some("sloggers-example-app"));
            assert!(*log_pid);
            // The two delay flags are mutually exclusive; the last
            // call wins.
            assert!(!*log_ndelay);
            assert!(*log_odelay);
        }
        _ => unreachable!(),
    }

    // Rendering: POSIX priorities and NUL-free C-compatible text.
    let rec = LogRecord {
        severity: Severity::Critical,
        message: "disk\0 on fire".to_string(),
        kvs: vec![("key".to_string(), "value".to_string())],
        module: "m".to_string(),
        file: "f".to_string(),
        line: 1,
    };
    let (priority, text) = render_syslog_message(&sloggers::format::MsgFormatConfig::Default, &rec);
    assert_eq!(priority, 2);
    assert_eq!(text, "disk on fire [key=\"value\"]");
    assert_eq!(Severity::Trace.syslog_priority(), 7);
    assert_eq!(Severity::Info.syslog_priority(), 6);
    assert_eq!(Severity::Warning.syslog_priority(), 4);
    assert_eq!(Severity::Error.syslog_priority(), 3);
}

#[test]
fn error_kinds_and_messages() {
    let invalid = Severity::from_str("nope").unwrap_err();
    assert_eq!(invalid.kind(), ErrorKind::Invalid);
    let other = sloggers::Error::new(ErrorKind::Other, "an I/O failure".to_string());
    assert_eq!(other.kind(), ErrorKind::Other);
    assert_eq!(other.message(), "an I/O failure");
}
