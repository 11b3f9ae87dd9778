//! Logger that sends logs to the local syslog daemon.
//!
//! POSIX does not support opening more than one connection to the
//! logging facility at a time.  It is safe to construct more than one
//! syslog logger at the same time, but some of the settings of earlier
//! ones are overwritten by those of later ones, and teardown must
//! follow the discipline of [`registry::SyslogIdentityRegistry`]: a
//! sink closes the OS connection only while its own identity is still
//! the registered one.

use vstd::prelude::*;
use vstd::string::{StrSliceExecFns, StringExecFns};

use crate::builder::{BuilderCommon, LoggerPlan, SinkPlan};
use crate::error::Error;
use crate::format::{MsgFormatConfig, spec_format_message, spec_pair_views};
use crate::types::{
    LogRecord,
    OverflowStrategy,
    Severity,
    SourceLocation,
    spec_syslog_priority,
};

pub mod facility;
pub mod registry;

pub use facility::{Facility, UnknownFacilityError};

verus! {

/// Whether a character sequence contains a NUL, which a C string
/// cannot carry.
pub open spec fn spec_has_nul(s: Seq<char>) -> bool {
    exists|i: int| 0 <= i < s.len() && s[i] == '\0'
}

/// `s` with every NUL character removed, the way a message is made
/// C-compatible before it is handed to the OS logging facility.
pub open spec fn spec_strip_nul(s: Seq<char>) -> Seq<char>
    decreases s.len(),
{
    if s.len() == 0 {
        Seq::empty()
    } else if s[0] == '\0' {
        spec_strip_nul(s.skip(1))
    } else {
        seq![s[0]] + spec_strip_nul(s.skip(1))
    }
}

/// Stripping a concatenation strips the parts.
proof fn lemma_strip_nul_add(a: Seq<char>, b: Seq<char>)
    ensures
        spec_strip_nul(a + b) == spec_strip_nul(a) + spec_strip_nul(b),
    decreases a.len(),
{
    if a.len() == 0 {
        assert(a + b =~= b);
        assert(spec_strip_nul(a) + spec_strip_nul(b) =~= spec_strip_nul(b));
    } else {
        lemma_strip_nul_add(a.skip(1), b);
        assert((a + b).skip(1) =~= a.skip(1) + b);
        if a[0] == '\0' {
            assert((a + b)[0] == '\0');
        } else {
            assert(seq![(a + b)[0]] + (spec_strip_nul(a.skip(1)) + spec_strip_nul(b))
                =~= spec_strip_nul(a) + spec_strip_nul(b));
        }
    }
}

/// What remains after stripping holds no NUL.
pub proof fn lemma_strip_nul_clean(s: Seq<char>)
    ensures
        !spec_has_nul(spec_strip_nul(s)),
    decreases s.len(),
{
    if s.len() > 0 {
        lemma_strip_nul_clean(s.skip(1));
        if s[0] != '\0' {
            let r = seq![s[0]] + spec_strip_nul(s.skip(1));
            assert forall|i: int| 0 <= i < r.len() implies r[i] != '\0' by {
                if i > 0 {
                    assert(r[i] == spec_strip_nul(s.skip(1))[i - 1]);
                }
            }
        }
    }
}

/// Copies `s` without its NUL characters.
pub fn strip_nul(s: &str) -> (r: String)
    ensures
        r@ == spec_strip_nul(s@),
{
    let slen = s.unicode_len();
    let mut out = String::new();
    let mut i: usize = 0;
    while i < slen
        invariant
            slen == s@.len(),
            i <= slen,
            out@ == spec_strip_nul(s@.take(i as int)),
        decreases slen - i,
    {
        let c = s.get_char(i);
        if c != '\0' {
            let piece = s.substring_char(i, i + 1);
            out.append(piece);
        }
        proof {
            let c0 = s@[i as int];
            assert(s@.take(i + 1) =~= s@.take(i as int) + seq![c0]);
            lemma_strip_nul_add(s@.take(i as int), seq![c0]);
            assert(seq![c0].skip(1) =~= Seq::<char>::empty());
            assert(spec_strip_nul(Seq::<char>::empty()) =~= Seq::<char>::empty());
            assert(seq![c0][0] == c0);
            if c0 != '\0' {
                assert(seq![c0] + Seq::<char>::empty() =~= seq![c0]);
                assert(spec_strip_nul(seq![c0]) =~= seq![c0]);
                assert(s@.subrange(i as int, i + 1) =~= seq![c0]);
                assert(out@ =~= spec_strip_nul(s@.take(i as int)) + seq![c0]);
            } else {
                assert(spec_strip_nul(seq![c0]) =~= Seq::<char>::empty());
                assert(out@ =~= spec_strip_nul(s@.take(i as int)));
            }
        }
        i = i + 1;
    }
    proof {
        assert(s@.take(slen as int) =~= s@);
    }
    out
}

/// Renders one record for the OS logging facility: the POSIX priority
/// of its severity, and the formatted message with its key-value pairs,
/// free of NUL characters so it can be made into a C string.
pub fn render_syslog_message(format: &MsgFormatConfig, rec: &LogRecord) -> (r: (i32, String))
    ensures
        r.0 as int == spec_syslog_priority(rec.severity),
        r.1@ == spec_strip_nul(
            spec_format_message(*format, rec.message@, spec_pair_views(rec.kvs@)),
        ),
        !spec_has_nul(r.1@),
{
    let priority = rec.severity.syslog_priority();
    let formatted = format.format_message(rec.message.as_str(), &rec.kvs);
    let text = strip_nul(formatted.as_str());
    proof {
        lemma_strip_nul_clean(formatted@);
    }
    (priority, text)
}

/// A logger builder which builds loggers that send log records to the
/// OS logging facility.
///
/// All settings have sensible defaults; most applications will want to
/// set the `facility`.  The resulting logger works asynchronously (the
/// default channel size is 1024).
#[derive(Debug)]
pub struct SyslogBuilder {
    /// The settings shared by every builder.
    pub common: BuilderCommon,
    /// The syslog facility to send logs to.
    pub facility: Facility,
    /// The process tag to register with the facility, if any.  The
    /// built sink owns its copy of it.
    pub ident: Option<String>,
    /// Whether messages carry the process id.
    pub log_pid: bool,
    /// Whether the connection is opened at once.
    pub log_ndelay: bool,
    /// Whether the connection waits for the first message.
    pub log_odelay: bool,
    /// Whether to skip waiting for child processes (historical).
    pub log_nowait: bool,
    /// Whether messages are echoed to standard error.
    pub log_perror: bool,
    /// How messages and their key-value pairs are rendered.
    pub format: MsgFormatConfig,
}

impl SyslogBuilder {
    /// Makes a new `SyslogBuilder` instance with the default settings:
    /// the `User` facility, no identity, no option flags, and the
    /// default message format.
    pub fn new() -> (r: SyslogBuilder)
        ensures
            r.common == crate::builder::spec_default_common(),
            r.facility == Facility::User,
            r.ident is None,
            !r.log_pid,
            !r.log_ndelay,
            !r.log_odelay,
            !r.log_nowait,
            !r.log_perror,
            r.format == MsgFormatConfig::Default,
    {
        SyslogBuilder {
            common: BuilderCommon::default(),
            facility: Facility::User,
            ident: None,
            log_pid: false,
            log_ndelay: false,
            log_odelay: false,
            log_nowait: false,
            log_perror: false,
            format: MsgFormatConfig::Default,
        }
    }

    /// Sets the syslog facility to send logs to.  By default, this is
    /// [`Facility::User`].
    pub fn facility(&mut self, facility: Facility) -> (r: &mut Self)
        ensures
            *r == (SyslogBuilder { facility, ..*old(self) }),
            *final(self) == *final(r),
    {
        self.facility = facility;
        self
    }

    /// Sets the name of this program, for inclusion with log messages.
    /// (POSIX calls this the "tag".)  The string must hold no NUL
    /// characters, because it becomes a C string.
    ///
    /// If a name is not given, the default depends on the libc in use:
    /// most use the process name, some use no name at all.
    pub fn ident_str(&mut self, ident: &str) -> (r: &mut Self)
        requires
            !spec_has_nul(ident@),
        ensures
            r.ident is Some && r.ident->0@ == ident@,
            *r == (SyslogBuilder { ident: r.ident, ..*old(self) }),
            *final(self) == *final(r),
    {
        self.ident = Some(ident.to_owned());
        self
    }

    /// Include the process ID in log messages.
    pub fn log_pid(&mut self) -> (r: &mut Self)
        ensures
            *r == (SyslogBuilder { log_pid: true, ..*old(self) }),
            *final(self) == *final(r),
    {
        self.log_pid = true;
        self
    }

    /// Immediately open a connection to the syslog server, instead of
    /// waiting until the first log message is sent.  `log_ndelay` and
    /// `log_odelay` are mutually exclusive; which one is the default
    /// depends on the platform.
    pub fn log_ndelay(&mut self) -> (r: &mut Self)
        ensures
            *r == (SyslogBuilder { log_ndelay: true, log_odelay: false, ..*old(self) }),
            *final(self) == *final(r),
    {
        self.log_ndelay = true;
        self.log_odelay = false;
        self
    }

    /// *Don't* immediately open a connection to the syslog server: wait
    /// until the first log message is sent.  `log_ndelay` and
    /// `log_odelay` are mutually exclusive; which one is the default
    /// depends on the platform.
    pub fn log_odelay(&mut self) -> (r: &mut Self)
        ensures
            *r == (SyslogBuilder { log_ndelay: false, log_odelay: true, ..*old(self) }),
            *final(self) == *final(r),
    {
        self.log_ndelay = false;
        self.log_odelay = true;
        self
    }

    /// If a child process is created to send a log message, don't wait
    /// for it.  Kept for completeness: POSIX defines it, and no modern
    /// system does that anyway.
    pub fn log_nowait(&mut self) -> (r: &mut Self)
        ensures
            *r == (SyslogBuilder { log_nowait: true, ..*old(self) }),
            *final(self) == *final(r),
    {
        self.log_nowait = true;
        self
    }

    /// Also emit log messages on standard error.  Note that the OS
    /// `syslog` function writes to standard error without taking the
    /// lock that the process's other writers use, so output may
    /// interleave.
    pub fn log_perror(&mut self) -> (r: &mut Self)
        ensures
            *r == (SyslogBuilder { log_perror: true, ..*old(self) }),
            *final(self) == *final(r),
    {
        self.log_perror = true;
        self
    }

    /// Sets how messages and their key-value pairs are rendered.
    pub fn format(&mut self, format: MsgFormatConfig) -> (r: &mut Self)
        ensures
            *r == (SyslogBuilder { format, ..*old(self) }),
            *final(self) == *final(r),
    {
        self.format = format;
        self
    }

    /// Sets the source code location type this logger will use.
    pub fn source_location(&mut self, source_location: SourceLocation) -> (r: &mut Self)
        ensures
            *r == (SyslogBuilder {
                common: BuilderCommon { source_location, ..old(self).common },
                ..*old(self)
            }),
            *final(self) == *final(r),
    {
        self.common.source_location = source_location;
        self
    }

    /// Sets the overflow strategy for the logger.
    pub fn overflow_strategy(&mut self, overflow_strategy: OverflowStrategy) -> (r: &mut Self)
        ensures
            *r == (SyslogBuilder {
                common: BuilderCommon { overflow_strategy, ..old(self).common },
                ..*old(self)
            }),
            *final(self) == *final(r),
    {
        self.common.overflow_strategy = overflow_strategy;
        self
    }

    /// Sets the log level of this logger.
    pub fn level(&mut self, severity: Severity) -> (r: &mut Self)
        ensures
            *r == (SyslogBuilder {
                common: BuilderCommon { level: severity, ..old(self).common },
                ..*old(self)
            }),
            *final(self) == *final(r),
    {
        self.common.level = severity;
        self
    }

    /// Sets the size of the asynchronous channel of this logger.
    pub fn channel_size(&mut self, channel_size: usize) -> (r: &mut Self)
        ensures
            *r == (SyslogBuilder {
                common: BuilderCommon { channel_size, ..old(self).common },
                ..*old(self)
            }),
            *final(self) == *final(r),
    {
        self.common.channel_size = channel_size;
        self
    }

    /// Whether a plan is exactly the one this builder describes.
    pub open spec fn spec_plan_matches(&self, plan: LoggerPlan) -> bool {
        &&& plan.common == self.common
        &&& plan.sink is Syslog
        &&& plan.sink->Syslog_facility == self.facility
        &&& match (plan.sink->Syslog_ident, self.ident) {
            (Some(a), Some(b)) => a@ == b@,
            (None, None) => true,
            _ => false,
        }
        &&& plan.sink->Syslog_log_pid == self.log_pid
        &&& plan.sink->Syslog_log_ndelay == self.log_ndelay
        &&& plan.sink->Syslog_log_odelay == self.log_odelay
        &&& plan.sink->Syslog_log_nowait == self.log_nowait
        &&& plan.sink->Syslog_log_perror == self.log_perror
        &&& plan.sink->Syslog_format == self.format
    }

    /// Builds the plan of a syslog logger.  Building never fails, and
    /// the plan is determined by the builder's settings alone.
    pub fn build(&self) -> (r: Result<LoggerPlan, Error>)
        ensures
            r is Ok,
            self.spec_plan_matches(r->Ok_0),
    {
        let ident = match &self.ident {
            Some(s) => Some(s.clone()),
            None => None,
        };
        Ok(
            LoggerPlan {
                common: self.common,
                sink: SinkPlan::Syslog {
                    facility: self.facility,
                    ident,
                    log_pid: self.log_pid,
                    log_ndelay: self.log_ndelay,
                    log_odelay: self.log_odelay,
                    log_nowait: self.log_nowait,
                    log_perror: self.log_perror,
                    format: self.format,
                },
            },
        )
    }
}

impl Default for SyslogBuilder {
    /// The same settings as [`SyslogBuilder::new`].
    fn default() -> (r: Self)
        ensures
            r.common == crate::builder::spec_default_common(),
            r.facility == Facility::User,
            r.ident is None,
            !r.log_pid,
            !r.log_ndelay,
            !r.log_odelay,
            !r.log_nowait,
            !r.log_perror,
            r.format == MsgFormatConfig::Default,
    {
        SyslogBuilder::new()
    }
}

/// The configuration of `SyslogBuilder`.
#[derive(Debug)]
pub struct SyslogConfig {
    /// Log level.
    pub level: Severity,

    /// Source code location style.
    pub source_location: SourceLocation,

    /// Asynchronous channel size.
    pub channel_size: usize,

    /// Whether to drop logs on overflow.
    pub overflow_strategy: OverflowStrategy,

    /// The syslog facility to send logs to.
    pub facility: Facility,

    /// The process tag to register with the facility, if any.  It must
    /// hold no NUL characters.
    pub ident: Option<String>,

    /// How messages and their key-value pairs are rendered.
    pub format: MsgFormatConfig,

    /// Whether messages carry the process id.
    pub log_pid: bool,

    /// Whether the connection is opened at once.
    pub log_ndelay: bool,

    /// Whether the connection waits for the first message.
    pub log_odelay: bool,

    /// Whether messages are echoed to standard error.
    pub log_perror: bool,
}

impl SyslogConfig {
    /// Creates a new `SyslogConfig` with default settings.
    pub fn new() -> (r: Self)
        ensures
            r.level == Severity::Info,
            r.source_location == SourceLocation::ModuleAndLine,
            r.channel_size == 1024,
            r.overflow_strategy == OverflowStrategy::DropAndReport,
            r.facility == Facility::User,
            r.ident is None,
            r.format == MsgFormatConfig::Default,
            !r.log_pid,
            !r.log_ndelay,
            !r.log_odelay,
            !r.log_perror,
    {
        SyslogConfig {
            level: Severity::Info,
            source_location: SourceLocation::ModuleAndLine,
            channel_size: 1024,
            overflow_strategy: OverflowStrategy::DropAndReport,
            facility: Facility::User,
            ident: None,
            format: MsgFormatConfig::Default,
            log_pid: false,
            log_ndelay: false,
            log_odelay: false,
            log_perror: false,
        }
    }

    /// Makes a logger builder with this configuration.  It never fails,
    /// and every setting carries over.
    pub fn try_to_builder(&self) -> (r: Result<SyslogBuilder, Error>)
        ensures
            r is Ok,
            r->Ok_0.common == (BuilderCommon {
                source_location: self.source_location,
                overflow_strategy: self.overflow_strategy,
                level: self.level,
                channel_size: self.channel_size,
            }),
            r->Ok_0.facility == self.facility,
            match (r->Ok_0.ident, self.ident) {
                (Some(a), Some(b)) => a@ == b@,
                (None, None) => true,
                _ => false,
            },
            r->Ok_0.format == self.format,
            r->Ok_0.log_pid == self.log_pid,
            r->Ok_0.log_ndelay == self.log_ndelay,
            r->Ok_0.log_odelay == self.log_odelay,
            !r->Ok_0.log_nowait,
            r->Ok_0.log_perror == self.log_perror,
    {
        let ident = match &self.ident {
            Some(s) => Some(s.clone()),
            None => None,
        };
        Ok(
            SyslogBuilder {
                common: BuilderCommon {
                    source_location: self.source_location,
                    overflow_strategy: self.overflow_strategy,
                    level: self.level,
                    channel_size: self.channel_size,
                },
                facility: self.facility,
                ident,
                log_pid: self.log_pid,
                log_ndelay: self.log_ndelay,
                log_odelay: self.log_odelay,
                log_nowait: false,
                log_perror: self.log_perror,
                format: self.format,
            },
        )
    }
}

impl Default for SyslogConfig {
    /// The same settings as [`SyslogConfig::new`].
    fn default() -> (r: Self)
        ensures
            r.level == Severity::Info,
            r.facility == Facility::User,
            r.ident is None,
    {
        SyslogConfig::new()
    }
}

} // verus!
