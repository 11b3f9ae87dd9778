//! Tests of the file appender: the reopen throttle, the rotation
//! trigger, and the rotation chain, run against a simulated directory.

use std::collections::HashMap;

use sloggers::builder::SinkPlan;
use sloggers::file::{CompressJob, FileAppender, FileLoggerBuilder, FileOp};

/// A directory simulated as a map from file names to contents.
type Dir = HashMap<String, Vec<u8>>;

fn apply_ops(dir: &mut Dir, ops: Vec<FileOp>) {
    for op in ops {
        match op {
            FileOp::RenameIfExists { from, to } => {
                if let Some(content) = dir.remove(&from) {
                    dir.insert(to, content);
                }
            }
            FileOp::DeleteIfExists { target } => {
                dir.remove(&target);
            }
        }
    }
}

/// Runs the finished compression job the way the background worker
/// does: gzip `plain` into `temp`, rename `temp` to `dest`, delete
/// `plain`.  The simulation marks compression instead of running gzip.
fn run_compress_job(dir: &mut Dir, job: &CompressJob) {
    let plain = dir.get(&job.plain).expect("the plaintext rotation product exists").clone();
    let mut compressed = b"gz:".to_vec();
    compressed.extend_from_slice(&plain);
    dir.insert(job.temp.clone(), compressed);
    let temp = dir.remove(&job.temp).unwrap();
    dir.insert(job.dest.clone(), temp);
    dir.remove(&job.plain);
}

/// One record through the consumer's write-then-flush cycle: reopen if
/// needed under the throttle, append, account, and rotate when the
/// threshold is reached.  Returns the compression job to run, if the
/// rotation started one.
fn write_record(
    app: &mut FileAppender,
    dir: &mut Dir,
    detached: &mut Vec<u8>,
    data: &[u8],
    now_ms: u64,
) -> Option<CompressJob> {
    // Reopen-if-needed, with the throttled existence check.
    let path_exists = if app.reopen_check_due(now_ms) {
        app.note_reopen_check(now_ms);
        dir.contains_key(&app.path)
    } else {
        true
    };
    if app.needs_reopen(path_exists) {
        let file = dir.entry(app.path.clone()).or_insert_with(Vec::new);
        if app.truncate {
            file.clear();
        }
        let disk_len = file.len() as u64;
        app.on_opened(disk_len);
        detached.clear();
    }
    // The write: into the live file when the handle still points at
    // it, into the detached handle when the file was deleted under us
    // within the throttle interval.
    match dir.get_mut(&app.path) {
        Some(file) if app.has_handle => file.extend_from_slice(data),
        _ => detached.extend_from_slice(data),
    }
    app.on_write(data.len() as u64);
    // The flush: rotation exactly when the threshold is reached, and
    // only one compression job at a time.
    let mut job = None;
    if app.should_rotate() && !app.rotation_blocked() {
        let (ops, new_job) = app.rotation_plan();
        apply_ops(dir, ops);
        app.on_rotated(now_ms);
        if new_job.is_some() {
            app.on_compression_started();
        }
        job = new_job;
        // The rotation reopens the live file at once.
        let path_exists = if app.reopen_check_due(now_ms) {
            app.note_reopen_check(now_ms);
            dir.contains_key(&app.path)
        } else {
            true
        };
        if app.needs_reopen(path_exists) {
            let file = dir.entry(app.path.clone()).or_insert_with(Vec::new);
            let disk_len = file.len() as u64;
            app.on_opened(disk_len);
        }
    }
    job
}

fn appender(builder: &FileLoggerBuilder) -> FileAppender {
    match builder.build().unwrap().sink {
        SinkPlan::File { appender, .. } => appender,
        _ => unreachable!(),
    }
}

#[test]
fn file_rotation_works() {
    let mut b = FileLoggerBuilder::new("foo.log");
    b.rotate_size(128);
    b.rotate_keep(2);
    let mut app = appender(&b);
    let mut dir: Dir = HashMap::new();
    let mut detached = Vec::new();

    let hello = [b"hello ".repeat(11), b"\n".to_vec()].concat(); // 67 bytes
    let world = [b"world ".repeat(11), b"\n".to_vec()].concat(); // 67 bytes
    let vec0 = vec![b'0'; 150];
    let vec1 = vec![b'1'; 150];

    write_record(&mut app, &mut dir, &mut detached, &hello, 0);
    assert!(dir.contains_key("foo.log"));
    assert!(!dir.contains_key("foo.log.1"));

    // The second record takes the live file past 128 bytes, so the
    // flush rotates: the live file's content moves to `foo.log.1`.
    write_record(&mut app, &mut dir, &mut detached, &world, 0);
    assert!(dir.contains_key("foo.log"));
    assert!(dir.contains_key("foo.log.1"));
    assert!(!dir.contains_key("foo.log.2"));
    assert_eq!(dir["foo.log.1"], [hello.clone(), world.clone()].concat());
    assert_eq!(dir["foo.log"], b"");

    write_record(&mut app, &mut dir, &mut detached, &vec0, 0);
    assert!(dir.contains_key("foo.log"));
    assert!(dir.contains_key("foo.log.1"));
    assert!(dir.contains_key("foo.log.2"));
    assert!(!dir.contains_key("foo.log.3"));
    assert_eq!(dir["foo.log.2"], [hello, world].concat());
    assert_eq!(dir["foo.log.1"], vec0.clone());

    // A fourth oversized record rotates again; with `rotate_keep` 2
    // the oldest content falls off and `foo.log.3` never exists.
    write_record(&mut app, &mut dir, &mut detached, &vec1, 0);
    assert!(dir.contains_key("foo.log"));
    assert!(dir.contains_key("foo.log.1"));
    assert!(dir.contains_key("foo.log.2"));
    assert!(!dir.contains_key("foo.log.3"));
    assert_eq!(dir["foo.log.2"], vec0);
    assert_eq!(dir["foo.log.1"], vec1);
}

#[test]
fn file_gzip_rotation_works() {
    let mut b = FileLoggerBuilder::new("foo.log");
    b.rotate_size(128);
    b.rotate_keep(2);
    b.rotate_compress(true);
    let mut app = appender(&b);
    let mut dir: Dir = HashMap::new();
    let mut detached = Vec::new();

    let hello = [b"hello ".repeat(11), b"\n".to_vec()].concat();
    let world = [b"world ".repeat(11), b"\n".to_vec()].concat();
    let vec0 = vec![b'0'; 150];
    let vec1 = vec![b'1'; 150];

    write_record(&mut app, &mut dir, &mut detached, &hello, 0);
    assert!(dir.contains_key("foo.log"));
    assert!(!dir.contains_key("foo.log.1"));

    let job = write_record(&mut app, &mut dir, &mut detached, &world, 0)
        .expect("the rotation starts a compression job");
    run_compress_job(&mut dir, &job);
    app.on_compression_finished();
    assert!(dir.contains_key("foo.log"));
    assert!(dir.contains_key("foo.log.1.gz"));
    assert!(!dir.contains_key("foo.log.1"));
    assert!(!dir.contains_key("foo.log.2.gz"));

    let job = write_record(&mut app, &mut dir, &mut detached, &vec0, 0)
        .expect("the rotation starts a compression job");
    run_compress_job(&mut dir, &job);
    app.on_compression_finished();
    assert!(dir.contains_key("foo.log"));
    assert!(dir.contains_key("foo.log.1.gz"));
    assert!(dir.contains_key("foo.log.2.gz"));
    assert!(!dir.contains_key("foo.log.3.gz"));

    let job = write_record(&mut app, &mut dir, &mut detached, &vec1, 0)
        .expect("the rotation starts a compression job");
    run_compress_job(&mut dir, &job);
    app.on_compression_finished();
    assert!(dir.contains_key("foo.log"));
    assert!(dir.contains_key("foo.log.1.gz"));
    assert!(dir.contains_key("foo.log.2.gz"));
    assert!(!dir.contains_key("foo.log.3.gz"));
    assert_eq!(dir["foo.log.1.gz"], [b"gz:".to_vec(), vec1].concat());
    assert_eq!(dir["foo.log.2.gz"], [b"gz:".to_vec(), vec0].concat());
}

#[test]
fn rotation_skipped_while_compression_runs() {
    let mut b = FileLoggerBuilder::new("foo.log");
    b.rotate_size(10);
    b.rotate_keep(2);
    b.rotate_compress(true);
    let mut app = appender(&b);
    let mut dir: Dir = HashMap::new();
    let mut detached = Vec::new();

    let job = write_record(&mut app, &mut dir, &mut detached, b"0123456789", 0)
        .expect("the first oversized record rotates");
    // The job has not finished: the next oversized record must skip
    // its rotation cycle rather than start a second job.
    assert!(write_record(&mut app, &mut dir, &mut detached, b"0123456789", 0).is_none());
    assert!(app.rotation_blocked());
    run_compress_job(&mut dir, &job);
    app.on_compression_finished();
    // With the job done, the following flush may rotate again.
    assert!(write_record(&mut app, &mut dir, &mut detached, b"x", 0).is_some());
}

#[test]
fn test_reopen_if_needed() {
    let b = FileLoggerBuilder::new("foo.log");
    let mut app = appender(&b);
    let mut dir: Dir = HashMap::new();
    let mut detached = Vec::new();

    write_record(&mut app, &mut dir, &mut detached, b"Goodbye", 0);
    assert!(dir.contains_key("foo.log"));

    // The file is deleted externally.
    dir.remove("foo.log");
    assert!(!dir.contains_key("foo.log"));

    // Within the throttle interval the appender assumes the file
    // still exists: the write lands in the stale, detached handle and
    // the file is not recreated on disk.
    write_record(&mut app, &mut dir, &mut detached, b"cruel", 100);
    assert!(!dir.contains_key("foo.log"));
    assert_eq!(detached, b"cruel");

    // After the interval the next write checks, reopens, and recreates
    // the file at the original path.
    write_record(&mut app, &mut dir, &mut detached, b"world", 1100);
    assert!(dir.contains_key("foo.log"));
    assert_eq!(dir["foo.log"], b"world");
}

#[test]
fn rotation_triggers_exactly_at_threshold() {
    let mut b = FileLoggerBuilder::new("a.log");
    b.rotate_size(128);
    let mut app = appender(&b);
    app.on_opened(0);
    app.on_write(127);
    assert!(!app.should_rotate());
    app.on_write(1);
    assert!(app.should_rotate());
}

#[test]
fn written_size_starts_from_on_disk_length() {
    let mut b = FileLoggerBuilder::new("a.log");
    b.rotate_size(100);
    let mut app = appender(&b);
    // Reopening a file that already holds 90 bytes honours them
    // against the threshold.
    app.on_opened(90);
    assert!(!app.should_rotate());
    app.on_write(10);
    assert!(app.should_rotate());
}

#[test]
fn rotated_path_names() {
    let b = FileLoggerBuilder::new("/var/log/app.log");
    let app = appender(&b);
    assert_eq!(app.rotated_path(1), "/var/log/app.log.1");
    assert_eq!(app.rotated_path(10), "/var/log/app.log.10");

    let mut b = FileLoggerBuilder::new("/var/log/app.log");
    b.rotate_compress(true);
    let app = appender(&b);
    assert_eq!(app.rotated_path(1), "/var/log/app.log.1.gz");
    let (ops, job) = app.rotation_plan();
    assert_eq!(ops.len(), 8 + 2);
    let job = job.expect("compression is enabled");
    assert_eq!(job.plain, "/var/log/app.log.1");
    assert_eq!(job.temp, "/var/log/app.log.1.gz.temp");
    assert_eq!(job.dest, "/var/log/app.log.1.gz");
}

#[test]
fn byte_count_saturates_at_the_largest_size() {
    let b = FileLoggerBuilder::new("a.log");
    let mut app = appender(&b);
    app.on_opened(u64::MAX - 1);
    app.on_write(5);
    assert_eq!(app.written_size, u64::MAX);
    // The default threshold is also the largest size, so even the
    // saturated count rotates only once it is reached.
    assert!(app.should_rotate());
}

#[test]
fn retention_zero_keeps_no_rotated_files() {
    let mut b = FileLoggerBuilder::new("foo.log");
    b.rotate_size(1);
    b.rotate_keep(0);
    let mut app = appender(&b);
    let mut dir: Dir = HashMap::new();
    let mut detached = Vec::new();
    write_record(&mut app, &mut dir, &mut detached, b"aa", 0);
    // With nothing kept, the rotated file is deleted in the same
    // cycle: only the fresh live file remains.
    assert!(dir.contains_key("foo.log"));
    assert!(!dir.contains_key("foo.log.1"));
    assert_eq!(dir.len(), 1);
}
