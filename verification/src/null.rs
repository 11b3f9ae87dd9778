//! Null logger.

use vstd::prelude::*;

use crate::builder::{BuilderCommon, LoggerPlan, SinkPlan, spec_default_common};
use crate::error::Error;

verus! {

/// Null logger builder.
///
/// This will create a logger which discards all log records.
#[derive(Debug, Clone, Copy, PartialEq, Eq, Structural)]
pub struct NullLoggerBuilder;

impl NullLoggerBuilder {
    /// Makes a new `NullLoggerBuilder` instance.
    pub fn new() -> (r: NullLoggerBuilder)
        ensures
            r == NullLoggerBuilder,
    {
        NullLoggerBuilder
    }

    /// Whether a plan is the one this builder describes: the default
    /// pipeline over the discarding sink.
    pub open spec fn spec_plan_matches(&self, plan: LoggerPlan) -> bool {
        &&& plan.common == spec_default_common()
        &&& plan.sink == SinkPlan::Null
    }

    /// Builds the plan of a logger that discards every record.  It
    /// never fails.
    pub fn build(&self) -> (r: Result<LoggerPlan, Error>)
        ensures
            r is Ok,
            self.spec_plan_matches(r->Ok_0),
    {
        Ok(LoggerPlan { common: BuilderCommon::default(), sink: SinkPlan::Null })
    }
}

/// The configuration of `NullLoggerBuilder`.
#[derive(Debug, Clone, Copy, PartialEq, Eq, Structural)]
pub struct NullLoggerConfig {}

impl NullLoggerConfig {
    /// Makes the null logger builder; there is nothing to configure,
    /// and it never fails.
    pub fn try_to_builder(&self) -> (r: Result<NullLoggerBuilder, Error>)
        ensures
            r is Ok,
            r->Ok_0 == NullLoggerBuilder,
    {
        Ok(NullLoggerBuilder)
    }
}

} // verus!
