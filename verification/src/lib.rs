//! Construction of structured loggers from declarative configuration.
//!
//! The crate models the pieces of a logging pipeline that carry real
//! logic: the severity filter, the bounded asynchronous delivery channel
//! with its overflow policy, the file appender's rotation and reopen
//! state machine, the sink builders, and the process-wide syslog
//! identity registry.  Each piece is an ordinary value whose behaviour
//! is stated in contracts; the thin I/O shell around them lives outside
//! this crate.

use vstd::prelude::*;

pub use builder::LoggerBuilder;
pub use config::LoggerConfig;
pub use error::{Error, ErrorKind};

pub mod builder;
pub mod channel;
pub mod config;
pub mod error;
pub mod file;
pub mod format;
pub mod logger;
pub mod misc;
pub mod null;
pub mod rotation;
pub mod strutil;
pub mod syslog;
pub mod terminal;
pub mod types;

verus! {

/// A specialized `Result` type for this crate.
pub type Result<T> = core::result::Result<T, crate::error::Error>;

} // verus!
