//! Configuration of a logger builder: the tagged union over the four
//! sink kinds.

use vstd::prelude::*;

use crate::builder::{LoggerBuilder, LoggerPlan};
use crate::error::Error;
use crate::file::FileLoggerConfig;
use crate::null::NullLoggerConfig;
use crate::syslog::SyslogConfig;
use crate::terminal::TerminalLoggerConfig;
use crate::types::Severity;

verus! {

/// The configuration of `LoggerBuilder`: one of the four sink kinds
/// with its settings.
#[derive(Debug)]
pub enum LoggerConfig {
    /// A file logger.
    File(FileLoggerConfig),

    /// A logger that discards everything.
    Null(NullLoggerConfig),

    /// A syslog logger.
    Syslog(SyslogConfig),

    /// A terminal logger.
    Terminal(TerminalLoggerConfig),
}

impl LoggerConfig {
    /// Sets the log level of this logger.  Nothing else changes; the
    /// null logger has no level to set.
    pub fn set_loglevel(&mut self, level: Severity)
        ensures
            *final(self) == (match *old(self) {
                LoggerConfig::File(c) => LoggerConfig::File(FileLoggerConfig { level, ..c }),
                LoggerConfig::Null(c) => LoggerConfig::Null(c),
                LoggerConfig::Syslog(c) => LoggerConfig::Syslog(SyslogConfig { level, ..c }),
                LoggerConfig::Terminal(c) => LoggerConfig::Terminal(
                    TerminalLoggerConfig { level, ..c },
                ),
            }),
    {
        match self {
            LoggerConfig::File(c) => {
                c.level = level;
            },
            LoggerConfig::Null(_) => {},
            LoggerConfig::Syslog(c) => {
                c.level = level;
            },
            LoggerConfig::Terminal(c) => {
                c.level = level;
            },
        }
    }

    /// Makes a logger builder with this configuration.  It never
    /// fails, and the builder is of the same sink kind, with the
    /// configuration's pipeline settings.
    pub fn try_to_builder(&self) -> (r: Result<LoggerBuilder, Error>)
        ensures
            r is Ok,
            match *self {
                LoggerConfig::File(ref c) => {
                    &&& r->Ok_0 is File
                    &&& r->Ok_0->File_0.common.level == c.level
                    &&& r->Ok_0->File_0.common.channel_size == c.channel_size
                    &&& r->Ok_0->File_0.common.overflow_strategy == c.overflow_strategy
                    &&& r->Ok_0->File_0.common.source_location == c.source_location
                },
                LoggerConfig::Null(_) => r->Ok_0 is Null,
                LoggerConfig::Syslog(ref c) => {
                    &&& r->Ok_0 is Syslog
                    &&& r->Ok_0->Syslog_0.common.level == c.level
                    &&& r->Ok_0->Syslog_0.common.channel_size == c.channel_size
                    &&& r->Ok_0->Syslog_0.common.overflow_strategy == c.overflow_strategy
                    &&& r->Ok_0->Syslog_0.common.source_location == c.source_location
                    &&& r->Ok_0->Syslog_0.facility == c.facility
                },
                LoggerConfig::Terminal(ref c) => {
                    &&& r->Ok_0 is Terminal
                    &&& r->Ok_0->Terminal_0.common.level == c.level
                    &&& r->Ok_0->Terminal_0.common.channel_size == c.channel_size
                    &&& r->Ok_0->Terminal_0.common.overflow_strategy == c.overflow_strategy
                    &&& r->Ok_0->Terminal_0.common.source_location == c.source_location
                    &&& r->Ok_0->Terminal_0.destination == c.destination
                },
            },
    {
        match self {
            LoggerConfig::File(c) => {
                match c.try_to_builder() {
                    Ok(b) => Ok(LoggerBuilder::File(b)),
                    Err(e) => Err(e),
                }
            },
            LoggerConfig::Null(c) => {
                match c.try_to_builder() {
                    Ok(b) => Ok(LoggerBuilder::Null(b)),
                    Err(e) => Err(e),
                }
            },
            LoggerConfig::Syslog(c) => {
                match c.try_to_builder() {
                    Ok(b) => Ok(LoggerBuilder::Syslog(b)),
                    Err(e) => Err(e),
                }
            },
            LoggerConfig::Terminal(c) => {
                match c.try_to_builder() {
                    Ok(b) => Ok(LoggerBuilder::Terminal(b)),
                    Err(e) => Err(e),
                }
            },
        }
    }

    /// Builds the plan of a logger with this configuration: the
    /// builder is made and built in one step.  It never fails, and the
    /// plan's sink is of the configured kind.
    pub fn build_logger(&self) -> (r: Result<LoggerPlan, Error>)
        ensures
            r is Ok,
            match *self {
                LoggerConfig::File(ref c) => {
                    &&& r->Ok_0.sink is File
                    &&& r->Ok_0.common.level == c.level
                    &&& r->Ok_0.common.channel_size == c.channel_size
                    &&& r->Ok_0.common.overflow_strategy == c.overflow_strategy
                },
                LoggerConfig::Null(_) => r->Ok_0.sink is Null,
                LoggerConfig::Syslog(ref c) => {
                    &&& r->Ok_0.sink is Syslog
                    &&& r->Ok_0.common.level == c.level
                    &&& r->Ok_0.common.channel_size == c.channel_size
                    &&& r->Ok_0.common.overflow_strategy == c.overflow_strategy
                },
                LoggerConfig::Terminal(ref c) => {
                    &&& r->Ok_0.sink is Terminal
                    &&& r->Ok_0.common.level == c.level
                    &&& r->Ok_0.common.channel_size == c.channel_size
                    &&& r->Ok_0.common.overflow_strategy == c.overflow_strategy
                },
            },
    {
        let builder = match self.try_to_builder() {
            Ok(b) => b,
            Err(e) => {
                return Err(e);
            },
        };
        builder.build()
    }
}

impl Default for LoggerConfig {
    /// The default configuration is a terminal logger with its
    /// defaults.
    fn default() -> (r: Self)
        ensures
            r is Terminal,
            r->Terminal_0 == crate::terminal::spec_default_terminal_config(),
    {
        LoggerConfig::Terminal(TerminalLoggerConfig::new())
    }
}

} // verus!
