//! Finished logger descriptions and the settings every builder shares.
//!
//! A builder's `build` produces a [`LoggerPlan`]: the complete, immutable
//! description of one logger — its severity threshold, channel, and
//! sink.  The plan is a plain value; the shell around the crate turns
//! it into running threads and open handles, so two plans built from
//! one builder share configuration but never runtime state.

use vstd::prelude::*;

use crate::file::FileAppender;
use crate::format::MsgFormatConfig;
use crate::logger::Logger;
use crate::syslog::facility::Facility;
use crate::terminal::Destination;
use crate::types::{Format, OverflowStrategy, Severity, SourceLocation, TimeZone};

verus! {

/// The settings common to every kind of logger builder.
#[derive(Debug, Clone, Copy, PartialEq, Eq, Structural)]
pub struct BuilderCommon {
    /// The source code location style.
    pub source_location: SourceLocation,
    /// What the channel does when it is full.
    pub overflow_strategy: OverflowStrategy,
    /// The severity threshold.
    pub level: Severity,
    /// The capacity of the asynchronous channel.
    pub channel_size: usize,
}

impl Default for BuilderCommon {
    /// The defaults: module-and-line locations, drop-and-report
    /// overflow, `Info` threshold, and a channel of 1024 records.
    fn default() -> (r: Self)
        ensures
            r == spec_default_common(),
    {
        BuilderCommon {
            source_location: SourceLocation::ModuleAndLine,
            overflow_strategy: OverflowStrategy::DropAndReport,
            level: Severity::Info,
            channel_size: 1024,
        }
    }
}

/// The default common settings.
pub open spec fn spec_default_common() -> BuilderCommon {
    BuilderCommon {
        source_location: SourceLocation::ModuleAndLine,
        overflow_strategy: OverflowStrategy::DropAndReport,
        level: Severity::Info,
        channel_size: 1024,
    }
}

/// The sink of a finished logger.
#[derive(Debug)]
pub enum SinkPlan {
    /// Write to the terminal.
    Terminal {
        /// The record format.
        format: Format,
        /// The time zone of the timestamps.
        timezone: TimeZone,
        /// Standard output or standard error.
        destination: Destination,
    },

    /// Append to a file, with rotation.
    File {
        /// The record format.
        format: Format,
        /// The time zone of the timestamps.
        timezone: TimeZone,
        /// The appender that owns the file and its rotation.
        appender: FileAppender,
    },

    /// Discard every record.
    Null,

    /// Send to the OS logging facility.
    Syslog {
        /// The syslog facility.
        facility: Facility,
        /// The process tag registered with the facility, if any.
        ident: Option<String>,
        /// Whether messages carry the process id.
        log_pid: bool,
        /// Whether the connection is opened at once.
        log_ndelay: bool,
        /// Whether the connection waits for the first message.
        log_odelay: bool,
        /// Whether to skip waiting for child processes (historical).
        log_nowait: bool,
        /// Whether messages are echoed to standard error.
        log_perror: bool,
        /// How messages and their key-value pairs are rendered.
        format: MsgFormatConfig,
    },
}

/// The complete, immutable description of one logger.
#[derive(Debug)]
pub struct LoggerPlan {
    /// The settings of the delivery pipeline.
    pub common: BuilderCommon,
    /// The sink the consumer writes to.
    pub sink: SinkPlan,
}

impl LoggerPlan {
    /// Opens the delivery pipeline of this plan: a fresh severity
    /// filter and channel.  Every call gives an independent pipeline,
    /// so loggers started from one plan share no runtime state.
    pub fn open_pipeline(&self) -> (r: Logger)
        ensures
            r.wf(),
            r.spec_threshold() == self.common.level,
            r.spec_channel().spec_queue().len() == 0,
            r.spec_channel().spec_capacity() == self.common.channel_size as int,
            r.spec_channel().spec_strategy() == self.common.overflow_strategy,
    {
        Logger::new(self.common.level, self.common.channel_size, self.common.overflow_strategy)
    }
}

/// Logger builder: one of the four sink-specific builders.
#[derive(Debug)]
pub enum LoggerBuilder {
    /// File logger.
    File(crate::file::FileLoggerBuilder),

    /// Null logger.
    Null(crate::null::NullLoggerBuilder),

    /// Syslog logger.
    Syslog(crate::syslog::SyslogBuilder),

    /// Terminal logger.
    Terminal(crate::terminal::TerminalLoggerBuilder),
}

impl LoggerBuilder {
    /// Builds the plan of the wrapped builder.
    pub fn build(&self) -> (r: Result<LoggerPlan, crate::error::Error>)
        ensures
            r is Ok,
            match *self {
                LoggerBuilder::File(ref b) => b.spec_plan_matches(r->Ok_0),
                LoggerBuilder::Null(ref b) => b.spec_plan_matches(r->Ok_0),
                LoggerBuilder::Syslog(ref b) => b.spec_plan_matches(r->Ok_0),
                LoggerBuilder::Terminal(ref b) => b.spec_plan_matches(r->Ok_0),
            },
    {
        match self {
            LoggerBuilder::File(b) => b.build(),
            LoggerBuilder::Null(b) => b.build(),
            LoggerBuilder::Syslog(b) => b.build(),
            LoggerBuilder::Terminal(b) => b.build(),
        }
    }
}

} // verus!
