//! Rendering of a record's source location.

use vstd::prelude::*;
use vstd::string::{StrSliceExecFns, StringExecFns};

use crate::strutil::{spec_dec_digits, u64_to_dec_string};
use crate::types::LogRecord;

verus! {

/// The `module:line` form of a record's source location.
pub open spec fn spec_module_and_line(rec: LogRecord) -> Seq<char> {
    rec.module@ + ":"@ + spec_dec_digits(rec.line as nat)
}

/// The `file:line` form of a record's source location.
pub open spec fn spec_file_and_line(rec: LogRecord) -> Seq<char> {
    rec.file@ + ":"@ + spec_dec_digits(rec.line as nat)
}

/// Whether a path is relative: it does not start at the root.
pub open spec fn spec_is_relative_path(p: Seq<char>) -> bool {
    !(p.len() > 0 && p[0] == '/')
}

/// Renders a record's source location as `module:line`.
pub fn module_and_line(record: &LogRecord) -> (r: String)
    ensures
        r@ == spec_module_and_line(*record),
{
    let mut out = record.module.clone();
    out.append(":");
    let line = u64_to_dec_string(record.line as u64);
    out.append(line.as_str());
    out
}

/// Renders a record's source location as `file:line`.
pub fn file_and_line(record: &LogRecord) -> (r: String)
    ensures
        r@ == spec_file_and_line(*record),
{
    let mut out = record.file.clone();
    out.append(":");
    let line = u64_to_dec_string(record.line as u64);
    out.append(line.as_str());
    out
}

/// Renders a record's source location as `file:line` when the file is
/// a relative path (so it carries no machine-specific prefix), and as
/// `module:line` otherwise.
pub fn local_file_and_line(record: &LogRecord) -> (r: String)
    ensures
        spec_is_relative_path(record.file@) ==> r@ == spec_file_and_line(*record),
        !spec_is_relative_path(record.file@) ==> r@ == spec_module_and_line(*record),
{
    let relative = if record.file.as_str().unicode_len() == 0 {
        true
    } else {
        record.file.as_str().get_char(0) != '/'
    };
    if relative {
        file_and_line(record)
    } else {
        module_and_line(record)
    }
}

} // verus!
