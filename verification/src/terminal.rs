//! Terminal logger.

use vstd::prelude::*;

use crate::builder::{BuilderCommon, LoggerPlan, SinkPlan, spec_default_common};
use crate::error::Error;
use crate::types::{Format, OverflowStrategy, Severity, SourceLocation, TimeZone};

verus! {

/// The destination to which log records will be outputted.
#[derive(Debug, Clone, Copy, PartialEq, Eq, Structural)]
pub enum Destination {
    /// Standard output.
    Stdout,

    /// Standard error.
    Stderr,
}

impl Default for Destination {
    /// The default destination is standard error.
    fn default() -> (r: Self)
        ensures
            r == Destination::Stderr,
    {
        Destination::Stderr
    }
}

/// A logger builder which builds loggers that output log records to the
/// terminal.
///
/// The resulting logger works asynchronously (the default channel size
/// is 1024).
#[derive(Debug, Clone, Copy, PartialEq, Eq, Structural)]
pub struct TerminalLoggerBuilder {
    /// The settings shared by every builder.
    pub common: BuilderCommon,
    /// The record format.
    pub format: Format,
    /// The time zone of the timestamps.
    pub timezone: TimeZone,
    /// Standard output or standard error.
    pub destination: Destination,
}

impl TerminalLoggerBuilder {
    /// Makes a new `TerminalLoggerBuilder` instance with the default
    /// settings.
    pub fn new() -> (r: Self)
        ensures
            r == spec_default_terminal_builder(),
    {
        TerminalLoggerBuilder {
            common: BuilderCommon::default(),
            format: Format::Full,
            timezone: TimeZone::Local,
            destination: Destination::Stderr,
        }
    }

    /// Sets the format of log records.
    pub fn format(&mut self, format: Format) -> (r: &mut Self)
        ensures
            *r == (TerminalLoggerBuilder { format, ..*old(self) }),
            *final(self) == *final(r),
    {
        self.format = format;
        self
    }

    /// Sets the source code location type this logger will use.
    pub fn source_location(&mut self, source_location: SourceLocation) -> (r: &mut Self)
        ensures
            *r == (TerminalLoggerBuilder {
                common: BuilderCommon { source_location, ..old(self).common },
                ..*old(self)
            }),
            *final(self) == *final(r),
    {
        self.common.source_location = source_location;
        self
    }

    /// Sets the overflow strategy for the logger.
    pub fn overflow_strategy(&mut self, overflow_strategy: OverflowStrategy) -> (r: &mut Self)
        ensures
            *r == (TerminalLoggerBuilder {
                common: BuilderCommon { overflow_strategy, ..old(self).common },
                ..*old(self)
            }),
            *final(self) == *final(r),
    {
        self.common.overflow_strategy = overflow_strategy;
        self
    }

    /// Sets the time zone which this logger will use.
    pub fn timezone(&mut self, timezone: TimeZone) -> (r: &mut Self)
        ensures
            *r == (TerminalLoggerBuilder { timezone, ..*old(self) }),
            *final(self) == *final(r),
    {
        self.timezone = timezone;
        self
    }

    /// Sets the destination to which log records will be outputted.
    pub fn destination(&mut self, destination: Destination) -> (r: &mut Self)
        ensures
            *r == (TerminalLoggerBuilder { destination, ..*old(self) }),
            *final(self) == *final(r),
    {
        self.destination = destination;
        self
    }

    /// Sets the log level of this logger.
    pub fn level(&mut self, severity: Severity) -> (r: &mut Self)
        ensures
            *r == (TerminalLoggerBuilder {
                common: BuilderCommon { level: severity, ..old(self).common },
                ..*old(self)
            }),
            *final(self) == *final(r),
    {
        self.common.level = severity;
        self
    }

    /// Sets the size of the asynchronous channel of this logger.
    pub fn channel_size(&mut self, channel_size: usize) -> (r: &mut Self)
        ensures
            *r == (TerminalLoggerBuilder {
                common: BuilderCommon { channel_size, ..old(self).common },
                ..*old(self)
            }),
            *final(self) == *final(r),
    {
        self.common.channel_size = channel_size;
        self
    }

    /// Selects the full record format.
    pub fn full(&mut self) -> (r: &mut Self)
        ensures
            *r == (TerminalLoggerBuilder { format: Format::Full, ..*old(self) }),
            *final(self) == *final(r),
    {
        self.format(Format::Full)
    }

    /// Selects the compact record format.
    pub fn compact(&mut self) -> (r: &mut Self)
        ensures
            *r == (TerminalLoggerBuilder { format: Format::Compact, ..*old(self) }),
            *final(self) == *final(r),
    {
        self.format(Format::Compact)
    }

    /// Timestamps are rendered in UTC.
    pub fn utc_time(&mut self) -> (r: &mut Self)
        ensures
            *r == (TerminalLoggerBuilder { timezone: TimeZone::Utc, ..*old(self) }),
            *final(self) == *final(r),
    {
        self.timezone(TimeZone::Utc)
    }

    /// Timestamps are rendered in the local time zone.
    pub fn local_time(&mut self) -> (r: &mut Self)
        ensures
            *r == (TerminalLoggerBuilder { timezone: TimeZone::Local, ..*old(self) }),
            *final(self) == *final(r),
    {
        self.timezone(TimeZone::Local)
    }

    /// Log records go to standard output.
    pub fn stdout(&mut self) -> (r: &mut Self)
        ensures
            *r == (TerminalLoggerBuilder { destination: Destination::Stdout, ..*old(self) }),
            *final(self) == *final(r),
    {
        self.destination(Destination::Stdout)
    }

    /// Log records go to standard error.
    pub fn stderr(&mut self) -> (r: &mut Self)
        ensures
            *r == (TerminalLoggerBuilder { destination: Destination::Stderr, ..*old(self) }),
            *final(self) == *final(r),
    {
        self.destination(Destination::Stderr)
    }

    /// Whether a plan is exactly the one this builder describes.
    pub open spec fn spec_plan_matches(&self, plan: LoggerPlan) -> bool {
        &&& plan.common == self.common
        &&& plan.sink == (SinkPlan::Terminal {
            format: self.format,
            timezone: self.timezone,
            destination: self.destination,
        })
    }

    /// Builds the plan of a terminal logger.  Building never fails, and
    /// the plan is determined by the builder's settings alone: building
    /// twice from an unmodified builder gives two loggers with the same
    /// configuration and independent runtime state.
    pub fn build(&self) -> (r: Result<LoggerPlan, Error>)
        ensures
            r is Ok,
            self.spec_plan_matches(r->Ok_0),
    {
        Ok(
            LoggerPlan {
                common: self.common,
                sink: SinkPlan::Terminal {
                    format: self.format,
                    timezone: self.timezone,
                    destination: self.destination,
                },
            },
        )
    }
}

impl Default for TerminalLoggerBuilder {
    /// The same settings as [`TerminalLoggerBuilder::new`].
    fn default() -> (r: Self)
        ensures
            r == spec_default_terminal_builder(),
    {
        TerminalLoggerBuilder::new()
    }
}

/// A fresh terminal logger builder: full format, local time, standard
/// error, and the common defaults.
pub open spec fn spec_default_terminal_builder() -> TerminalLoggerBuilder {
    TerminalLoggerBuilder {
        common: spec_default_common(),
        format: Format::Full,
        timezone: TimeZone::Local,
        destination: Destination::Stderr,
    }
}

/// The configuration of `TerminalLoggerBuilder`.
#[derive(Debug, Clone, Copy, PartialEq, Eq, Structural)]
pub struct TerminalLoggerConfig {
    /// Log level.
    pub level: Severity,

    /// Log record format.
    pub format: Format,

    /// Source code location style.
    pub source_location: SourceLocation,

    /// Time Zone.
    pub timezone: TimeZone,

    /// Output destination.
    pub destination: Destination,

    /// Asynchronous channel size.
    pub channel_size: usize,

    /// Whether to drop logs on overflow.
    pub overflow_strategy: OverflowStrategy,
}

impl TerminalLoggerConfig {
    /// Creates a new `TerminalLoggerConfig` with default settings.
    pub fn new() -> (r: Self)
        ensures
            r == spec_default_terminal_config(),
    {
        TerminalLoggerConfig {
            level: Severity::Info,
            format: Format::Full,
            source_location: SourceLocation::ModuleAndLine,
            timezone: TimeZone::Local,
            destination: Destination::Stderr,
            channel_size: 1024,
            overflow_strategy: OverflowStrategy::DropAndReport,
        }
    }

    /// Makes a logger builder with this configuration.  It never
    /// fails, and every setting carries over.
    pub fn try_to_builder(&self) -> (r: Result<TerminalLoggerBuilder, Error>)
        ensures
            r is Ok,
            r->Ok_0 == (TerminalLoggerBuilder {
                common: BuilderCommon {
                    source_location: self.source_location,
                    overflow_strategy: self.overflow_strategy,
                    level: self.level,
                    channel_size: self.channel_size,
                },
                format: self.format,
                timezone: self.timezone,
                destination: self.destination,
            }),
    {
        Ok(
            TerminalLoggerBuilder {
                common: BuilderCommon {
                    source_location: self.source_location,
                    overflow_strategy: self.overflow_strategy,
                    level: self.level,
                    channel_size: self.channel_size,
                },
                format: self.format,
                timezone: self.timezone,
                destination: self.destination,
            },
        )
    }
}

impl Default for TerminalLoggerConfig {
    /// The same settings as [`TerminalLoggerConfig::new`].
    fn default() -> (r: Self)
        ensures
            r == spec_default_terminal_config(),
    {
        TerminalLoggerConfig::new()
    }
}

/// A fresh terminal logger configuration with every field at its
/// default.
pub open spec fn spec_default_terminal_config() -> TerminalLoggerConfig {
    TerminalLoggerConfig {
        level: Severity::Info,
        format: Format::Full,
        source_location: SourceLocation::ModuleAndLine,
        timezone: TimeZone::Local,
        destination: Destination::Stderr,
        channel_size: 1024,
        overflow_strategy: OverflowStrategy::DropAndReport,
    }
}

} // verus!
