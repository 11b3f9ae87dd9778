//! Commonly used types.

use vstd::prelude::*;
use vstd::string::StringExecFns;

use crate::error::{Error, ErrorKind};
use crate::strutil::str_eq;

verus! {

/// An `Invalid` error whose description is `prefix` followed by the
/// rejected input.
fn invalid_input_error(prefix: &str, input: &str) -> (r: Error)
    ensures
        r.kind == ErrorKind::Invalid,
        r.message@ == prefix@ + input@,
{
    let mut message = String::new();
    message.append(prefix);
    message.append(input);
    Error::new(ErrorKind::Invalid, message)
}

/// The severity of a log record.
///
/// Severities are ordered from `Trace` (lowest) to `Critical` (highest);
/// [`Severity::rank`] gives the position of a severity in that order.
#[derive(Debug, Clone, Copy, PartialEq, Eq, Structural)]
pub enum Severity {
    Trace,
    Debug,
    Info,
    Warning,
    Error,
    Critical,
}

/// The position of a severity in the order from `Trace` to `Critical`.
pub open spec fn spec_severity_rank(s: Severity) -> int {
    match s {
        Severity::Trace => 0,
        Severity::Debug => 1,
        Severity::Info => 2,
        Severity::Warning => 3,
        Severity::Error => 4,
        Severity::Critical => 5,
    }
}

impl Severity {
    /// The position of this severity in the order from `Trace` (0) to
    /// `Critical` (5).
    pub fn rank(self) -> (r: u8)
        ensures
            r as int == spec_severity_rank(self),
    {
        match self {
            Severity::Trace => 0,
            Severity::Debug => 1,
            Severity::Info => 2,
            Severity::Warning => 3,
            Severity::Error => 4,
            Severity::Critical => 5,
        }
    }

    /// Whether a record of severity `level` passes a filter whose
    /// threshold is `self`: it does exactly when `level` is at least as
    /// severe as the threshold.
    pub fn allows(self, level: Severity) -> (r: bool)
        ensures
            r == (spec_severity_rank(level) >= spec_severity_rank(self)),
    {
        level.rank() >= self.rank()
    }

    /// The syslog priority code of this severity, following the POSIX
    /// `<syslog.h>` priority values (`LOG_DEBUG` = 7 down to
    /// `LOG_CRIT` = 2).  `Trace` has no syslog equivalent and maps to
    /// `LOG_DEBUG`.
    pub fn syslog_priority(self) -> (r: i32)
        ensures
            r == spec_syslog_priority(self),
    {
        match self {
            Severity::Trace => 7,
            Severity::Debug => 7,
            Severity::Info => 6,
            Severity::Warning => 4,
            Severity::Error => 3,
            Severity::Critical => 2,
        }
    }
}

/// The POSIX `<syslog.h>` priority code of a severity.
pub open spec fn spec_syslog_priority(s: Severity) -> int {
    match s {
        Severity::Trace => 7,
        Severity::Debug => 7,
        Severity::Info => 6,
        Severity::Warning => 4,
        Severity::Error => 3,
        Severity::Critical => 2,
    }
}

impl Default for Severity {
    /// The default severity is `Info`.
    fn default() -> (r: Self)
        ensures
            r == Severity::Info,
    {
        Severity::Info
    }
}

/// Which severity a name denotes; `None` for an unknown name.
pub open spec fn spec_parse_severity(s: Seq<char>) -> Option<Severity> {
    if s == "trace"@ {
        Some(Severity::Trace)
    } else if s == "debug"@ {
        Some(Severity::Debug)
    } else if s == "info"@ {
        Some(Severity::Info)
    } else if s == "warning"@ {
        Some(Severity::Warning)
    } else if s == "error"@ {
        Some(Severity::Error)
    } else if s == "critical"@ {
        Some(Severity::Critical)
    } else {
        None
    }
}

impl Severity {
    /// Parses a severity name: exactly `trace`, `debug`, `info`,
    /// `warning`, `error` or `critical`; anything else is an
    /// `Invalid` error.
    pub fn from_name(s: &str) -> (r: core::result::Result<Severity, Error>)
        ensures
            spec_parse_severity(s@) is Some ==> r == Ok::<Severity, Error>(
                spec_parse_severity(s@)->0,
            ),
            spec_parse_severity(s@) is None ==> r is Err && r->Err_0.kind == ErrorKind::Invalid,
    {
        if str_eq(s, "trace") {
            Ok(Severity::Trace)
        } else if str_eq(s, "debug") {
            Ok(Severity::Debug)
        } else if str_eq(s, "info") {
            Ok(Severity::Info)
        } else if str_eq(s, "warning") {
            Ok(Severity::Warning)
        } else if str_eq(s, "error") {
            Ok(Severity::Error)
        } else if str_eq(s, "critical") {
            Ok(Severity::Critical)
        } else {
            Err(invalid_input_error("undefined severity: ", s))
        }
    }
}

impl core::str::FromStr for Severity {
    type Err = Error;

    fn from_str(s: &str) -> core::result::Result<Severity, Error> {
        Severity::from_name(s)
    }
}

/// The format of log records.
#[derive(Debug, Clone, Copy, PartialEq, Eq, Structural)]
pub enum Format {
    /// Full format.
    Full,

    /// Compact format.
    Compact,

    /// JSON format.
    Json,
}

impl Default for Format {
    /// The default format is `Full`.
    fn default() -> (r: Self)
        ensures
            r == Format::Full,
    {
        Format::Full
    }
}

/// Which record format a name denotes; `None` for an unknown name.
pub open spec fn spec_parse_format(s: Seq<char>) -> Option<Format> {
    if s == "full"@ {
        Some(Format::Full)
    } else if s == "compact"@ {
        Some(Format::Compact)
    } else if s == "json"@ {
        Some(Format::Json)
    } else {
        None
    }
}

impl Format {
    /// Parses a format name: exactly `full`, `compact` or `json`;
    /// anything else is an `Invalid` error.
    pub fn from_name(s: &str) -> (r: core::result::Result<Format, Error>)
        ensures
            spec_parse_format(s@) is Some ==> r == Ok::<Format, Error>(spec_parse_format(s@)->0),
            spec_parse_format(s@) is None ==> r is Err && r->Err_0.kind == ErrorKind::Invalid,
    {
        if str_eq(s, "full") {
            Ok(Format::Full)
        } else if str_eq(s, "compact") {
            Ok(Format::Compact)
        } else if str_eq(s, "json") {
            Ok(Format::Json)
        } else {
            Err(invalid_input_error("undefined log format: ", s))
        }
    }
}

impl core::str::FromStr for Format {
    type Err = Error;

    fn from_str(s: &str) -> core::result::Result<Format, Error> {
        Format::from_name(s)
    }
}

/// Time Zone.
#[derive(Debug, Clone, Copy, PartialEq, Eq, Structural)]
pub enum TimeZone {
    Utc,
    Local,
}

impl Default for TimeZone {
    /// The default time zone is `Local`.
    fn default() -> (r: Self)
        ensures
            r == TimeZone::Local,
    {
        TimeZone::Local
    }
}

/// Which time zone a name denotes; `None` for an unknown name.
pub open spec fn spec_parse_timezone(s: Seq<char>) -> Option<TimeZone> {
    if s == "utc"@ {
        Some(TimeZone::Utc)
    } else if s == "local"@ {
        Some(TimeZone::Local)
    } else {
        None
    }
}

impl TimeZone {
    /// Parses a time zone name: exactly `utc` or `local`; anything
    /// else is an `Invalid` error.
    pub fn from_name(s: &str) -> (r: core::result::Result<TimeZone, Error>)
        ensures
            spec_parse_timezone(s@) is Some ==> r == Ok::<TimeZone, Error>(
                spec_parse_timezone(s@)->0,
            ),
            spec_parse_timezone(s@) is None ==> r is Err && r->Err_0.kind == ErrorKind::Invalid,
    {
        if str_eq(s, "utc") {
            Ok(TimeZone::Utc)
        } else if str_eq(s, "local") {
            Ok(TimeZone::Local)
        } else {
            Err(invalid_input_error("undefined time zone: ", s))
        }
    }
}

impl core::str::FromStr for TimeZone {
    type Err = Error;

    fn from_str(s: &str) -> core::result::Result<TimeZone, Error> {
        TimeZone::from_name(s)
    }
}

/// Source Location.
#[derive(Debug, Clone, Copy, PartialEq, Eq, Structural)]
pub enum SourceLocation {
    NoLocation,
    ModuleAndLine,
    FileAndLine,
    LocalFileAndLine,
}

impl Default for SourceLocation {
    /// The default source location style is `ModuleAndLine`.
    fn default() -> (r: Self)
        ensures
            r == SourceLocation::ModuleAndLine,
    {
        SourceLocation::ModuleAndLine
    }
}

/// Process Identifier: whether log messages carry the process id.
#[derive(Debug, Clone, Copy, PartialEq, Eq, Structural)]
pub struct ProcessID(pub bool);

impl Default for ProcessID {
    /// By default the process id is not included.
    fn default() -> (r: Self)
        ensures
            r == ProcessID(false),
    {
        ProcessID(false)
    }
}

/// Which source location style a name denotes; `None` for an unknown
/// name.
pub open spec fn spec_parse_source_location(s: Seq<char>) -> Option<SourceLocation> {
    if s == "none"@ {
        Some(SourceLocation::NoLocation)
    } else if s == "module_and_line"@ {
        Some(SourceLocation::ModuleAndLine)
    } else if s == "file_and_line"@ {
        Some(SourceLocation::FileAndLine)
    } else if s == "local_file_and_line"@ {
        Some(SourceLocation::LocalFileAndLine)
    } else {
        None
    }
}

impl SourceLocation {
    /// Parses a source location style: exactly `none`,
    /// `module_and_line`, `file_and_line` or `local_file_and_line`;
    /// anything else is an `Invalid` error.
    pub fn from_name(s: &str) -> (r: core::result::Result<SourceLocation, Error>)
        ensures
            spec_parse_source_location(s@) is Some ==> r == Ok::<SourceLocation, Error>(
                spec_parse_source_location(s@)->0,
            ),
            spec_parse_source_location(s@) is None ==> r is Err && r->Err_0.kind
                == ErrorKind::Invalid,
    {
        if str_eq(s, "none") {
            Ok(SourceLocation::NoLocation)
        } else if str_eq(s, "module_and_line") {
            Ok(SourceLocation::ModuleAndLine)
        } else if str_eq(s, "file_and_line") {
            Ok(SourceLocation::FileAndLine)
        } else if str_eq(s, "local_file_and_line") {
            Ok(SourceLocation::LocalFileAndLine)
        } else {
            Err(invalid_input_error("undefined source code location: ", s))
        }
    }
}

impl core::str::FromStr for SourceLocation {
    type Err = Error;

    fn from_str(s: &str) -> core::result::Result<SourceLocation, Error> {
        SourceLocation::from_name(s)
    }
}

/// A structured log record as the caller hands it to a logger: a
/// severity, a message, the key-value pairs in the order they were
/// given (duplicate keys all appear), and the source location of the
/// log statement.
#[derive(Debug, Clone)]
pub struct LogRecord {
    /// The severity of the record.
    pub severity: Severity,
    /// The message text.
    pub message: String,
    /// Key-value pairs, in the order they were given.
    pub kvs: Vec<(String, String)>,
    /// The module that emitted the record.
    pub module: String,
    /// The source file that emitted the record.
    pub file: String,
    /// The source line that emitted the record.
    pub line: u32,
}

/// Which process identifier setting a name denotes; `None` for an
/// unknown name.
pub open spec fn spec_parse_process_id(s: Seq<char>) -> Option<ProcessID> {
    if s == "false"@ {
        Some(ProcessID(false))
    } else if s == "true"@ {
        Some(ProcessID(true))
    } else {
        None
    }
}

impl ProcessID {
    /// Parses a process identifier setting: exactly `false` or
    /// `true`; anything else is an `Invalid` error.
    pub fn from_name(s: &str) -> (r: core::result::Result<ProcessID, Error>)
        ensures
            spec_parse_process_id(s@) is Some ==> r == Ok::<ProcessID, Error>(
                spec_parse_process_id(s@)->0,
            ),
            spec_parse_process_id(s@) is None ==> r is Err && r->Err_0.kind == ErrorKind::Invalid,
    {
        if str_eq(s, "false") {
            Ok(ProcessID(false))
        } else if str_eq(s, "true") {
            Ok(ProcessID(true))
        } else {
            Err(invalid_input_error("undefined process identifier: ", s))
        }
    }
}

impl core::str::FromStr for ProcessID {
    type Err = Error;

    fn from_str(s: &str) -> core::result::Result<ProcessID, Error> {
        ProcessID::from_name(s)
    }
}

/// Overflow Strategy: what an asynchronous channel does with a new
/// record when it is already holding `capacity` records.
#[derive(Debug, Clone, Copy, PartialEq, Eq, Structural)]
pub enum OverflowStrategy {
    /// Discard the record and count it, so that the number of discarded
    /// records can later be reported.
    DropAndReport,

    /// Silently discard the record.
    Drop,

    /// Make the producer wait until there is room.
    Block,
}

impl Default for OverflowStrategy {
    /// The default strategy is `DropAndReport`.
    fn default() -> (r: Self)
        ensures
            r == OverflowStrategy::DropAndReport,
    {
        OverflowStrategy::DropAndReport
    }
}

/// Which overflow strategy a name denotes; `None` for an unknown
/// name.
pub open spec fn spec_parse_overflow_strategy(s: Seq<char>) -> Option<OverflowStrategy> {
    if s == "drop"@ {
        Some(OverflowStrategy::Drop)
    } else if s == "drop_and_report"@ {
        Some(OverflowStrategy::DropAndReport)
    } else if s == "block"@ {
        Some(OverflowStrategy::Block)
    } else {
        None
    }
}

impl OverflowStrategy {
    /// Parses an overflow strategy name: exactly `drop`,
    /// `drop_and_report` or `block`; anything else is an `Invalid`
    /// error.
    pub fn from_name(s: &str) -> (r: core::result::Result<OverflowStrategy, Error>)
        ensures
            spec_parse_overflow_strategy(s@) is Some ==> r == Ok::<OverflowStrategy, Error>(
                spec_parse_overflow_strategy(s@)->0,
            ),
            spec_parse_overflow_strategy(s@) is None ==> r is Err && r->Err_0.kind
                == ErrorKind::Invalid,
    {
        if str_eq(s, "drop") {
            Ok(OverflowStrategy::Drop)
        } else if str_eq(s, "drop_and_report") {
            Ok(OverflowStrategy::DropAndReport)
        } else if str_eq(s, "block") {
            Ok(OverflowStrategy::Block)
        } else {
            Err(invalid_input_error("invalid overflow strategy: ", s))
        }
    }
}

impl core::str::FromStr for OverflowStrategy {
    type Err = Error;

    fn from_str(s: &str) -> core::result::Result<OverflowStrategy, Error> {
        OverflowStrategy::from_name(s)
    }
}

} // verus!
