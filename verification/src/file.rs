//! File logger: the appender that owns the log file, counts the bytes
//! written to it, reopens it when it disappears, and rotates it when it
//! grows past a threshold.
//!
//! The appender here is the state of that engine.  The shell around the
//! crate owns the actual file handle and performs the renames; every
//! decision — whether to probe the file system, whether to reopen, how
//! to account for written bytes, when to rotate, and which renames and
//! deletions a rotation performs, in which order — is taken by the
//! functions below.  [`FileAppender::rotation_plan`] hands the shell
//! the exact list of operations of one rotation; what that list does to
//! a directory is stated and proved in [`crate::rotation`].

use std::fmt::Write as FmtWrite;

use vstd::prelude::*;
use vstd::string::{StrSliceExecFns, StringExecFns};

use crate::builder::{BuilderCommon, LoggerPlan, SinkPlan, spec_default_common};
use crate::error::Error;
use crate::strutil::{
    replace_all,
    spec_dec_digits,
    spec_digit_char,
    spec_replace_all,
    u64_to_dec_string,
};
use crate::types::{Format, OverflowStrategy, Severity, SourceLocation, TimeZone};

verus! {

/// The name of the `i`-th rotated sibling of the log file at `path`:
/// `path.i`, with `.gz` appended when rotated files are compressed.
pub open spec fn spec_rotated_name(path: Seq<char>, i: nat, gz: bool) -> Seq<char> {
    if gz {
        path + "."@ + spec_dec_digits(i) + ".gz"@
    } else {
        path + "."@ + spec_dec_digits(i)
    }
}

/// One file-system operation of a rotation.  Each is conditional on its
/// source existing, because any of the rotated files may be missing.
#[derive(Debug, Clone, PartialEq, Eq)]
pub enum FileOp {
    /// Rename `from` to `to`, replacing `to`, if `from` exists; do
    /// nothing if it does not.
    RenameIfExists {
        /// The file to rename.
        from: String,
        /// Its new name.
        to: String,
    },

    /// Delete `target` if it exists; do nothing if it does not.
    DeleteIfExists {
        /// The file to delete.
        target: String,
    },
}

/// The background compression job of one rotation: gzip `plain` into
/// `temp`, rename `temp` to `dest`, then delete `plain`.
#[derive(Debug, Clone, PartialEq, Eq)]
pub struct CompressJob {
    /// The plaintext file the rotation left behind.
    pub plain: String,
    /// The temporary name the compressed data is written under.
    pub temp: String,
    /// The final name of the compressed file.
    pub dest: String,
}

/// The state of one file sink: the target path, the bookkeeping for
/// lazy reopening, and the rotation configuration.
///
/// `written_size` reflects bytes written to the currently open handle
/// only: it is set to the on-disk length whenever the handle is
/// (re)opened, and to zero after a rotation.
#[derive(Debug)]
pub struct FileAppender {
    /// The path of the live log file.
    pub path: String,
    /// Whether the shell currently holds an open handle.
    pub has_handle: bool,
    /// Whether opening truncates the file instead of appending.
    pub truncate: bool,
    /// Bytes written to the currently open handle.
    pub written_size: u64,
    /// The size at or above which a flush rotates the file.
    pub rotate_size: u64,
    /// How many rotated files are kept.
    pub rotate_keep: usize,
    /// Whether rotated files are gzip-compressed.
    pub rotate_compress: bool,
    /// Whether a background compression job is still running.
    pub compression_running: bool,
    /// The next moment (in milliseconds) at which the file's existence
    /// is checked again.
    pub next_reopen_check_ms: u64,
    /// How long (in milliseconds) the appender assumes the file still
    /// exists between checks.
    pub reopen_check_interval_ms: u64,
    /// Whether new log files are restricted to their owner.
    pub restrict_permissions: bool,
}

impl FileAppender {
    /// Makes an appender for the file at `path` with the defaults: no
    /// truncation, rotation practically disabled (`u64::MAX`), eight
    /// rotated files kept, no compression, an existence check at most
    /// once a second, and no permission restriction.
    pub fn new(path: &str) -> (r: FileAppender)
        ensures
            r.path@ == path@,
            !r.has_handle,
            !r.truncate,
            r.written_size == 0,
            r.rotate_size == u64::MAX,
            r.rotate_keep == 8,
            !r.rotate_compress,
            !r.compression_running,
            r.next_reopen_check_ms == 0,
            r.reopen_check_interval_ms == 1000,
            !r.restrict_permissions,
    {
        FileAppender {
            path: path.to_owned(),
            has_handle: false,
            truncate: false,
            written_size: 0,
            rotate_size: u64::MAX,
            rotate_keep: 8,
            rotate_compress: false,
            compression_running: false,
            next_reopen_check_ms: 0,
            reopen_check_interval_ms: 1000,
            restrict_permissions: false,
        }
    }

    /// A copy of this appender with the same configuration but fresh
    /// runtime state: no handle, nothing written, no compression job,
    /// and an existence check due at once.  Each built logger gets its
    /// own such copy, so loggers built from one builder share
    /// configuration but never a file handle.
    pub fn fresh(&self) -> (r: FileAppender)
        ensures
            r.path@ == self.path@,
            !r.has_handle,
            r.truncate == self.truncate,
            r.written_size == 0,
            r.rotate_size == self.rotate_size,
            r.rotate_keep == self.rotate_keep,
            r.rotate_compress == self.rotate_compress,
            !r.compression_running,
            r.next_reopen_check_ms == 0,
            r.reopen_check_interval_ms == self.reopen_check_interval_ms,
            r.restrict_permissions == self.restrict_permissions,
    {
        FileAppender {
            path: self.path.clone(),
            has_handle: false,
            truncate: self.truncate,
            written_size: 0,
            rotate_size: self.rotate_size,
            rotate_keep: self.rotate_keep,
            rotate_compress: self.rotate_compress,
            compression_running: false,
            next_reopen_check_ms: 0,
            reopen_check_interval_ms: self.reopen_check_interval_ms,
            restrict_permissions: self.restrict_permissions,
        }
    }

    /// Whether the throttled existence check is due.  Between checks
    /// the appender assumes the file still exists, so that it does not
    /// have to ask the file system on every write.
    pub fn reopen_check_due(&self, now_ms: u64) -> (r: bool)
        ensures
            r == (now_ms >= self.next_reopen_check_ms),
    {
        now_ms >= self.next_reopen_check_ms
    }

    /// Notes that the existence check was performed now: the next one
    /// is due one interval from now.
    pub fn note_reopen_check(&mut self, now_ms: u64)
        ensures
            final(self).next_reopen_check_ms as int == if now_ms + old(
                self,
            ).reopen_check_interval_ms <= u64::MAX {
                now_ms + old(self).reopen_check_interval_ms
            } else {
                u64::MAX as int
            },
            *final(self) == (FileAppender {
                next_reopen_check_ms: final(self).next_reopen_check_ms,
                ..*old(self)
            }),
    {
        self.next_reopen_check_ms = now_ms.saturating_add(self.reopen_check_interval_ms);
    }

    /// Whether the file must be (re)opened: there is no handle, or the
    /// path turned out not to exist.
    pub fn needs_reopen(&self, path_exists: bool) -> (r: bool)
        ensures
            r == (!self.has_handle || !path_exists),
    {
        !self.has_handle || !path_exists
    }

    /// Notes that the file was (re)opened and its on-disk length is
    /// `disk_len`: the byte count starts from what the file already
    /// holds, so rotation thresholds honour pre-existing content.
    pub fn on_opened(&mut self, disk_len: u64)
        ensures
            *final(self) == (FileAppender {
                has_handle: true,
                written_size: disk_len,
                ..*old(self)
            }),
    {
        self.has_handle = true;
        self.written_size = disk_len;
    }

    /// Notes that the handle was dropped (before reopening, or because
    /// rotation closed it).
    pub fn on_handle_closed(&mut self)
        ensures
            *final(self) == (FileAppender { has_handle: false, ..*old(self) }),
    {
        self.has_handle = false;
    }

    /// Accounts for `n` bytes written to the open handle.  Writing
    /// never rotates by itself: nothing changes here but the byte
    /// count.
    pub fn on_write(&mut self, n: u64)
        requires
            old(self).has_handle,
        ensures
            *final(self) == (FileAppender {
                written_size: final(self).written_size,
                ..*old(self)
            }),
            final(self).written_size as int == if old(self).written_size + n <= u64::MAX {
                old(self).written_size + n
            } else {
                u64::MAX as int
            },
    {
        self.written_size = self.written_size.saturating_add(n);
    }

    /// Whether a flush must rotate: exactly when the bytes written so
    /// far have reached the rotation threshold.
    pub fn should_rotate(&self) -> (r: bool)
        ensures
            r == (self.written_size >= self.rotate_size),
    {
        self.written_size >= self.rotate_size
    }

    /// Whether rotation is blocked because the previous compression
    /// job has not finished: at most one such job runs at a time, and a
    /// rotation that finds one running is skipped for this cycle.
    pub fn rotation_blocked(&self) -> (r: bool)
        ensures
            r == self.compression_running,
    {
        self.compression_running
    }

    /// Notes that the background compression job finished.
    pub fn on_compression_finished(&mut self)
        ensures
            *final(self) == (FileAppender { compression_running: false, ..*old(self) }),
    {
        self.compression_running = false;
    }

    /// Notes that a background compression job was started.
    pub fn on_compression_started(&mut self)
        ensures
            *final(self) == (FileAppender { compression_running: true, ..*old(self) }),
    {
        self.compression_running = true;
    }

    /// Notes that the rotation's renames were performed: the byte
    /// count starts over, and the next write reopens the live file
    /// after an immediate existence check.
    pub fn on_rotated(&mut self, now_ms: u64)
        ensures
            *final(self) == (FileAppender {
                has_handle: false,
                written_size: 0,
                next_reopen_check_ms: now_ms,
                ..*old(self)
            }),
    {
        self.has_handle = false;
        self.written_size = 0;
        self.next_reopen_check_ms = now_ms;
    }

    /// The name of the `i`-th rotated sibling of the log file:
    /// `path.i`, with `.gz` appended when rotated files are
    /// compressed.
    pub fn rotated_path(&self, i: u64) -> (r: String)
        ensures
            r@ == spec_rotated_name(self.path@, i as nat, self.rotate_compress),
    {
        let mut name = self.path.clone();
        name.append(".");
        let digits = u64_to_dec_string(i);
        name.append(digits.as_str());
        if self.rotate_compress {
            name.append(".gz");
        }
        name
    }
}

/// What the `j`-th operation of a rotation plan for `path` with
/// retention `keep` must be: first the shift of the rotated files, from
/// the oldest down (`path.keep` to `path.(keep+1)`, …, `path.1` to
/// `path.2`), then the move of the live file to `path.1` (always
/// plaintext: under compression the background job turns it into
/// `path.1.gz`), then the deletion of `path.(keep+1)`, which has fallen
/// off retention.
pub open spec fn spec_rotation_op(
    op: FileOp,
    path: Seq<char>,
    keep: nat,
    gz: bool,
    j: int,
) -> bool {
    if 0 <= j < keep {
        &&& op is RenameIfExists
        &&& op->RenameIfExists_from@ == spec_rotated_name(path, (keep - j) as nat, gz)
        &&& op->RenameIfExists_to@ == spec_rotated_name(path, (keep - j + 1) as nat, gz)
    } else if j == keep {
        &&& op is RenameIfExists
        &&& op->RenameIfExists_from@ == path
        &&& op->RenameIfExists_to@ == spec_rotated_name(path, 1, false)
    } else if j == keep + 1 {
        &&& op is DeleteIfExists
        &&& op->DeleteIfExists_target@ == spec_rotated_name(path, (keep + 1) as nat, gz)
    } else {
        false
    }
}

/// A complete rotation plan: `keep` shift renames, the live-file move,
/// and the deletion of the file beyond retention.
pub open spec fn spec_is_rotation_plan(
    ops: Seq<FileOp>,
    path: Seq<char>,
    keep: nat,
    gz: bool,
) -> bool {
    &&& ops.len() == keep + 2
    &&& forall|j: int| 0 <= j < ops.len() ==> spec_rotation_op(#[trigger] ops[j], path, keep, gz, j)
}

impl FileAppender {
    /// The operations of one rotation, in the order the shell must
    /// perform them, and the background compression job to start after
    /// them, if rotated files are compressed and the live file existed
    /// to be moved.
    pub fn rotation_plan(&self) -> (r: (Vec<FileOp>, Option<CompressJob>))
        requires
            self.rotate_keep < usize::MAX,
        ensures
            spec_is_rotation_plan(r.0@, self.path@, self.rotate_keep as nat, self.rotate_compress),
            self.rotate_compress <==> r.1 is Some,
            r.1 is Some ==> {
                &&& r.1->0.plain@ == spec_rotated_name(self.path@, 1, false)
                &&& r.1->0.temp@ == spec_rotated_name(self.path@, 1, true) + ".temp"@
                &&& r.1->0.dest@ == spec_rotated_name(self.path@, 1, true)
            },
    {
        let keep = self.rotate_keep;
        let mut ops: Vec<FileOp> = Vec::new();
        let mut i: usize = keep;
        while i >= 1
            invariant
                keep == self.rotate_keep,
                keep < usize::MAX,
                i <= keep,
                ops@.len() == keep - i,
                forall|j: int|
                    0 <= j < ops@.len() ==> spec_rotation_op(
                        #[trigger] ops@[j],
                        self.path@,
                        keep as nat,
                        self.rotate_compress,
                        j,
                    ),
            decreases i,
        {
            let from = self.rotated_path(i as u64);
            let to = self.rotated_path((i + 1) as u64);
            ops.push(FileOp::RenameIfExists { from, to });
            i = i - 1;
        }
        let live_to = self.plain_first_rotated_path();
        ops.push(FileOp::RenameIfExists { from: self.path.clone(), to: live_to });
        let delete_target = self.rotated_path((keep + 1) as u64);
        ops.push(FileOp::DeleteIfExists { target: delete_target });
        let job = if self.rotate_compress {
            let plain = self.plain_first_rotated_path();
            let mut temp = self.gz_first_rotated_path();
            temp.append(".temp");
            let dest = self.gz_first_rotated_path();
            Some(CompressJob { plain, temp, dest })
        } else {
            None
        };
        (ops, job)
    }

    /// The plaintext name `path.1` that the live file is moved to.
    fn plain_first_rotated_path(&self) -> (r: String)
        ensures
            r@ == spec_rotated_name(self.path@, 1, false),
    {
        proof {
            reveal_strlit("1");
        }
        let mut name = self.path.clone();
        name.append(".");
        name.append("1");
        proof {
            assert(spec_dec_digits(1) =~= seq![spec_digit_char(1)]);
            assert(name@ =~= spec_rotated_name(self.path@, 1, false));
        }
        name
    }

    /// The compressed name `path.1.gz` that the background job
    /// produces.
    fn gz_first_rotated_path(&self) -> (r: String)
        ensures
            r@ == spec_rotated_name(self.path@, 1, true),
    {
        proof {
            reveal_strlit("1");
        }
        let mut name = self.path.clone();
        name.append(".");
        name.append("1");
        name.append(".gz");
        proof {
            assert(spec_dec_digits(1) =~= seq![spec_digit_char(1)]);
            assert(name@ =~= spec_rotated_name(self.path@, 1, true));
        }
        name
    }
}

/// What chrono renders a UTC timestamp to under an strftime-style
/// template: a function of the template and the timestamp alone.
pub uninterp spec fn strftime_utc_of(template: Seq<char>, epoch_seconds: i64) -> Seq<char>;

/// Relies on chrono's strftime-style formatting of a UTC timestamp,
/// whose result depends on the template and the timestamp alone.  A
/// template chrono cannot render gives whatever was rendered up to the
/// offending specifier.
#[verifier::external_body]
fn format_timestamp_utc(template: &str, epoch_seconds: i64) -> (r: String)
    ensures
        r@ == strftime_utc_of(template@, epoch_seconds),
{
    let dt = chrono::DateTime::<chrono::Utc>::from_timestamp(epoch_seconds, 0)
        .unwrap_or_default();
    let mut out = String::new();
    let _ = write!(out, "{}", dt.format(template));
    out
}

/// Relies on chrono's strftime-style formatting of a timestamp in the
/// machine's local time zone; nothing is promised of the result, which
/// depends on the environment.
#[verifier::external_body]
fn format_timestamp_local(template: &str, epoch_seconds: i64) -> String {
    let utc = chrono::DateTime::<chrono::Utc>::from_timestamp(epoch_seconds, 0)
        .unwrap_or_default();
    let dt = chrono::DateTime::<chrono::Local>::from(utc);
    let mut out = String::new();
    let _ = write!(out, "{}", dt.format(template));
    out
}

/// Relies on chrono for the current time, as seconds since the epoch;
/// nothing is promised of the result.
#[verifier::external_body]
fn current_epoch_seconds() -> i64 {
    chrono::Utc::now().timestamp()
}

/// Resolves a log file path template: every occurrence of the token
/// `{timestamp}` is replaced by the given moment, rendered under the
/// strftime-style `timestamp_template` in the given time zone.
pub fn path_template_to_path(
    path_template: &str,
    timestamp_template: &str,
    timezone: TimeZone,
    epoch_seconds: i64,
) -> (r: String)
    ensures
        timezone == TimeZone::Utc ==> r@ == spec_replace_all(
            path_template@,
            "{timestamp}"@,
            strftime_utc_of(timestamp_template@, epoch_seconds),
        ),
        timezone == TimeZone::Local ==> exists|stamp: Seq<char>|
            r@ == spec_replace_all(path_template@, "{timestamp}"@, stamp),
{
    let stamp = match timezone {
        TimeZone::Utc => format_timestamp_utc(timestamp_template, epoch_seconds),
        TimeZone::Local => format_timestamp_local(timestamp_template, epoch_seconds),
    };
    proof {
        reveal_strlit("{timestamp}");
    }
    replace_all(path_template, "{timestamp}", stamp.as_str())
}

/// A logger builder which builds loggers that write log records to the
/// specified file.
///
/// The resulting logger works asynchronously (the default channel size
/// is 1024).
#[derive(Debug)]
pub struct FileLoggerBuilder {
    /// The settings shared by every builder.
    pub common: BuilderCommon,
    /// The record format.
    pub format: Format,
    /// The time zone of the timestamps.
    pub timezone: TimeZone,
    /// The appender that owns the file and its rotation.
    pub appender: FileAppender,
}

impl FileLoggerBuilder {
    /// Makes a new `FileLoggerBuilder` instance for a logger that uses
    /// `path` as the output destination of the log records.
    pub fn new(path: &str) -> (r: Self)
        ensures
            r.common == spec_default_common(),
            r.format == Format::Full,
            r.timezone == TimeZone::Local,
            r.appender.path@ == path@,
            !r.appender.has_handle,
            !r.appender.truncate,
            r.appender.written_size == 0,
            r.appender.rotate_size == u64::MAX,
            r.appender.rotate_keep == 8,
            !r.appender.rotate_compress,
            !r.appender.compression_running,
            r.appender.reopen_check_interval_ms == 1000,
            !r.appender.restrict_permissions,
    {
        FileLoggerBuilder {
            common: BuilderCommon::default(),
            format: Format::Full,
            timezone: TimeZone::Local,
            appender: FileAppender::new(path),
        }
    }

    /// Sets the format of log records.
    pub fn format(&mut self, format: Format) -> (r: &mut Self)
        ensures
            *r == (FileLoggerBuilder { format, ..*old(self) }),
            *final(self) == *final(r),
    {
        self.format = format;
        self
    }

    /// Sets the source code location type this logger will use.
    pub fn source_location(&mut self, source_location: SourceLocation) -> (r: &mut Self)
        ensures
            *r == (FileLoggerBuilder {
                common: BuilderCommon { source_location, ..old(self).common },
                ..*old(self)
            }),
            *final(self) == *final(r),
    {
        self.common.source_location = source_location;
        self
    }

    /// Sets the overflow strategy for the logger.
    pub fn overflow_strategy(&mut self, overflow_strategy: OverflowStrategy) -> (r: &mut Self)
        ensures
            *r == (FileLoggerBuilder {
                common: BuilderCommon { overflow_strategy, ..old(self).common },
                ..*old(self)
            }),
            *final(self) == *final(r),
    {
        self.common.overflow_strategy = overflow_strategy;
        self
    }

    /// Sets the time zone which this logger will use.
    pub fn timezone(&mut self, timezone: TimeZone) -> (r: &mut Self)
        ensures
            *r == (FileLoggerBuilder { timezone, ..*old(self) }),
            *final(self) == *final(r),
    {
        self.timezone = timezone;
        self
    }

    /// Sets the log level of this logger.
    pub fn level(&mut self, severity: Severity) -> (r: &mut Self)
        ensures
            *r == (FileLoggerBuilder {
                common: BuilderCommon { level: severity, ..old(self).common },
                ..*old(self)
            }),
            *final(self) == *final(r),
    {
        self.common.level = severity;
        self
    }

    /// Sets the size of the asynchronous channel of this logger.
    pub fn channel_size(&mut self, channel_size: usize) -> (r: &mut Self)
        ensures
            *r == (FileLoggerBuilder {
                common: BuilderCommon { channel_size, ..old(self).common },
                ..*old(self)
            }),
            *final(self) == *final(r),
    {
        self.common.channel_size = channel_size;
        self
    }

    /// By default, the logger just appends log messages to the file.
    /// If this method is called, it truncates the file to zero length
    /// when opening.
    pub fn truncate(&mut self) -> (r: &mut Self)
        ensures
            *r == (FileLoggerBuilder {
                appender: FileAppender { truncate: true, ..old(self).appender },
                ..*old(self)
            }),
            *final(self) == *final(r),
    {
        self.appender.truncate = true;
        self
    }

    /// Sets the threshold used for determining whether to rotate the
    /// current log file: once the bytes written to it reach this value,
    /// the next flush rotates it.  The default is `u64::MAX`, which in
    /// practice never rotates.
    pub fn rotate_size(&mut self, size: u64) -> (r: &mut Self)
        ensures
            *r == (FileLoggerBuilder {
                appender: FileAppender { rotate_size: size, ..old(self).appender },
                ..*old(self)
            }),
            *final(self) == *final(r),
    {
        self.appender.rotate_size = size;
        self
    }

    /// Sets the maximum number of rotated log files to keep.  Once
    /// there are more, the oldest is deleted.  The default is `8`.
    pub fn rotate_keep(&mut self, count: usize) -> (r: &mut Self)
        ensures
            *r == (FileLoggerBuilder {
                appender: FileAppender { rotate_keep: count, ..old(self).appender },
                ..*old(self)
            }),
            *final(self) == *final(r),
    {
        self.appender.rotate_keep = count;
        self
    }

    /// Sets whether rotated files are compressed with gzip, with the
    /// suffix `.gz` appended to their names.  The default is `false`.
    pub fn rotate_compress(&mut self, compress: bool) -> (r: &mut Self)
        ensures
            *r == (FileLoggerBuilder {
                appender: FileAppender { rotate_compress: compress, ..old(self).appender },
                ..*old(self)
            }),
            *final(self) == *final(r),
    {
        self.appender.rotate_compress = compress;
        self
    }

    /// Sets whether new log files are restricted to their owner (mode
    /// `600` on Unix systems).  The default is `false`.
    pub fn restrict_permissions(&mut self, restrict: bool) -> (r: &mut Self)
        ensures
            *r == (FileLoggerBuilder {
                appender: FileAppender {
                    restrict_permissions: restrict,
                    ..old(self).appender
                },
                ..*old(self)
            }),
            *final(self) == *final(r),
    {
        self.appender.restrict_permissions = restrict;
        self
    }

    /// Whether a plan is exactly the one this builder describes: the
    /// builder's pipeline settings and format over a fresh copy of its
    /// appender.
    pub open spec fn spec_plan_matches(&self, plan: LoggerPlan) -> bool {
        &&& plan.common == self.common
        &&& plan.sink is File
        &&& plan.sink->File_format == self.format
        &&& plan.sink->File_timezone == self.timezone
        &&& plan.sink->File_appender.path@ == self.appender.path@
        &&& !plan.sink->File_appender.has_handle
        &&& plan.sink->File_appender.truncate == self.appender.truncate
        &&& plan.sink->File_appender.written_size == 0
        &&& plan.sink->File_appender.rotate_size == self.appender.rotate_size
        &&& plan.sink->File_appender.rotate_keep == self.appender.rotate_keep
        &&& plan.sink->File_appender.rotate_compress == self.appender.rotate_compress
        &&& !plan.sink->File_appender.compression_running
        &&& plan.sink->File_appender.reopen_check_interval_ms
            == self.appender.reopen_check_interval_ms
        &&& plan.sink->File_appender.restrict_permissions
            == self.appender.restrict_permissions
    }

    /// Builds the plan of a file logger.  Building never fails, and the
    /// plan is determined by the builder's settings alone: each build
    /// gets a fresh copy of the appender, so loggers built from one
    /// builder share configuration but never a file handle.
    pub fn build(&self) -> (r: Result<LoggerPlan, Error>)
        ensures
            r is Ok,
            self.spec_plan_matches(r->Ok_0),
    {
        Ok(
            LoggerPlan {
                common: self.common,
                sink: SinkPlan::File {
                    format: self.format,
                    timezone: self.timezone,
                    appender: self.appender.fresh(),
                },
            },
        )
    }
}

/// The default size of the asynchronous channel.
pub fn default_channel_size() -> (r: usize)
    ensures
        r == 1024,
{
    1024
}

/// The default rotation threshold: so large that rotation never
/// triggers in practice.
pub fn default_rotate_size() -> (r: u64)
    ensures
        r == u64::MAX,
{
    u64::MAX
}

/// The default number of rotated log files to keep.
pub fn default_rotate_keep() -> (r: usize)
    ensures
        r == 8,
{
    8
}

/// The default strftime-style template for the timestamp in a path
/// template, such as `20180918_1127`.
pub fn default_timestamp_template() -> (r: String)
    ensures
        r@ == "%Y%m%d_%H%M"@,
{
    let mut out = String::new();
    out.append("%Y%m%d_%H%M");
    out
}

/// The configuration of `FileLoggerBuilder`.
#[derive(Debug)]
pub struct FileLoggerConfig {
    /// Log level.
    pub level: Severity,

    /// Log record format.
    pub format: Format,

    /// Source code location style.
    pub source_location: SourceLocation,

    /// Time Zone.
    pub timezone: TimeZone,

    /// Strftime-style format for the timestamp in the path; see
    /// [`default_timestamp_template`].
    pub timestamp_template: String,

    /// Log file path template: used as it is, except that every
    /// occurrence of `{timestamp}` is replaced by the current
    /// timestamp, rendered under `timestamp_template` in the
    /// configured time zone.
    pub path: String,

    /// Asynchronous channel size.
    pub channel_size: usize,

    /// Whether to truncate the file when opening it.
    pub truncate: bool,

    /// Log file rotation size; see
    /// [`FileLoggerBuilder::rotate_size`].
    pub rotate_size: u64,

    /// Maximum number of rotated log files to keep; see
    /// [`FileLoggerBuilder::rotate_keep`].
    pub rotate_keep: usize,

    /// Whether rotated files are compressed; see
    /// [`FileLoggerBuilder::rotate_compress`].
    pub rotate_compress: bool,

    /// Whether to drop logs on overflow; the default is
    /// `drop_and_report`.
    pub overflow_strategy: OverflowStrategy,

    /// Whether to restrict the permissions of log files; see
    /// [`FileLoggerBuilder::restrict_permissions`].
    pub restrict_permissions: bool,
}

impl FileLoggerConfig {
    /// Creates a new `FileLoggerConfig` with default settings and an
    /// empty path.
    pub fn new() -> (r: Self)
        ensures
            r.level == Severity::Info,
            r.format == Format::Full,
            r.source_location == SourceLocation::ModuleAndLine,
            r.timezone == TimeZone::Local,
            r.timestamp_template@ == "%Y%m%d_%H%M"@,
            r.path@.len() == 0,
            r.channel_size == 1024,
            !r.truncate,
            r.rotate_size == u64::MAX,
            r.rotate_keep == 8,
            !r.rotate_compress,
            r.overflow_strategy == OverflowStrategy::DropAndReport,
            !r.restrict_permissions,
    {
        FileLoggerConfig {
            level: Severity::Info,
            format: Format::Full,
            source_location: SourceLocation::ModuleAndLine,
            timezone: TimeZone::Local,
            timestamp_template: default_timestamp_template(),
            path: String::new(),
            channel_size: default_channel_size(),
            truncate: false,
            rotate_size: default_rotate_size(),
            rotate_keep: default_rotate_keep(),
            rotate_compress: false,
            overflow_strategy: OverflowStrategy::DropAndReport,
            restrict_permissions: false,
        }
    }

    /// Makes a logger builder with this configuration.  It never
    /// fails; every setting carries over, and the builder's path is
    /// this configuration's path template with the `{timestamp}` token
    /// resolved at the current moment.
    pub fn try_to_builder(&self) -> (r: Result<FileLoggerBuilder, Error>)
        ensures
            r is Ok,
            r->Ok_0.common == (BuilderCommon {
                source_location: self.source_location,
                overflow_strategy: self.overflow_strategy,
                level: self.level,
                channel_size: self.channel_size,
            }),
            r->Ok_0.format == self.format,
            r->Ok_0.timezone == self.timezone,
            exists|stamp: Seq<char>|
                r->Ok_0.appender.path@ == spec_replace_all(self.path@, "{timestamp}"@, stamp),
            r->Ok_0.appender.truncate == self.truncate,
            r->Ok_0.appender.rotate_size == self.rotate_size,
            r->Ok_0.appender.rotate_keep == self.rotate_keep,
            r->Ok_0.appender.rotate_compress == self.rotate_compress,
            r->Ok_0.appender.restrict_permissions == self.restrict_permissions,
            !r->Ok_0.appender.has_handle,
            r->Ok_0.appender.written_size == 0,
    {
        let now = current_epoch_seconds();
        let path = path_template_to_path(
            self.path.as_str(),
            self.timestamp_template.as_str(),
            self.timezone,
            now,
        );
        let mut builder = FileLoggerBuilder::new(path.as_str());
        builder.level(self.level);
        builder.format(self.format);
        builder.source_location(self.source_location);
        builder.timezone(self.timezone);
        builder.overflow_strategy(self.overflow_strategy);
        builder.channel_size(self.channel_size);
        builder.rotate_size(self.rotate_size);
        builder.rotate_keep(self.rotate_keep);
        builder.rotate_compress(self.rotate_compress);
        builder.restrict_permissions(self.restrict_permissions);
        if self.truncate {
            builder.truncate();
        }
        Ok(builder)
    }
}

impl Default for FileLoggerConfig {
    /// The same settings as [`FileLoggerConfig::new`].
    fn default() -> (r: Self)
        ensures
            r.level == Severity::Info,
            r.path@.len() == 0,
            r.rotate_size == u64::MAX,
            r.rotate_keep == 8,
    {
        FileLoggerConfig::new()
    }
}

} // verus!
