//! What a rotation plan does to a directory.
//!
//! A directory is modelled as a map from file names to file contents.
//! [`spec_apply_ops`] is the meaning of a list of [`FileOp`]s over such
//! a map, and [`lemma_rotation_chain`] is the rotation-chain law: after
//! the plan of [`crate::file::FileAppender::rotation_plan`] runs,
//! `path.1` holds what the live file held, every rotated file has moved
//! up one index, the file beyond the retention count is gone, and so is
//! the live file.

use vstd::prelude::*;

use crate::file::{FileOp, spec_is_rotation_plan, spec_rotated_name, spec_rotation_op};
use crate::strutil::{
    lemma_dec_digits_injective,
    lemma_dec_digits_len,
    spec_dec_digits,
    spec_digit_char,
};

verus! {

/// What one operation does to a directory: a conditional rename moves
/// the contents of `from` to `to` (replacing `to`) when `from` exists;
/// a conditional delete removes its target.
pub open spec fn spec_apply_op(
    dir: Map<Seq<char>, Seq<u8>>,
    op: FileOp,
) -> Map<Seq<char>, Seq<u8>> {
    match op {
        FileOp::RenameIfExists { from, to } => {
            if dir.dom().contains(from@) {
                dir.remove(from@).insert(to@, dir[from@])
            } else {
                dir
            }
        },
        FileOp::DeleteIfExists { target } => dir.remove(target@),
    }
}

/// What a list of operations, performed in order, does to a directory.
pub open spec fn spec_apply_ops(
    dir: Map<Seq<char>, Seq<u8>>,
    ops: Seq<FileOp>,
) -> Map<Seq<char>, Seq<u8>>
    decreases ops.len(),
{
    if ops.len() == 0 {
        dir
    } else {
        spec_apply_ops(spec_apply_op(dir, ops[0]), ops.skip(1))
    }
}

/// Whether an operation reads or writes the file named `key`.
pub open spec fn op_touches(op: FileOp, key: Seq<char>) -> bool {
    match op {
        FileOp::RenameIfExists { from, to } => from@ == key || to@ == key,
        FileOp::DeleteIfExists { target } => target@ == key,
    }
}

/// Applying a list of operations is applying a prefix, then the rest.
proof fn lemma_apply_ops_split(dir: Map<Seq<char>, Seq<u8>>, ops: Seq<FileOp>, n: int)
    requires
        0 <= n <= ops.len(),
    ensures
        spec_apply_ops(dir, ops) == spec_apply_ops(
            spec_apply_ops(dir, ops.take(n)),
            ops.skip(n),
        ),
    decreases n,
{
    if n == 0 {
        assert(ops.take(0) =~= Seq::<FileOp>::empty());
        assert(ops.skip(0) =~= ops);
    } else {
        let d1 = spec_apply_op(dir, ops[0]);
        lemma_apply_ops_split(d1, ops.skip(1), n - 1);
        assert(ops.take(n)[0] == ops[0]);
        assert(ops.take(n).skip(1) =~= ops.skip(1).take(n - 1));
        assert(ops.skip(n) =~= ops.skip(1).skip(n - 1));
    }
}

/// A file that no operation in the list touches keeps its existence and
/// its contents.
proof fn lemma_untouched(dir: Map<Seq<char>, Seq<u8>>, ops: Seq<FileOp>, key: Seq<char>)
    requires
        forall|j: int| 0 <= j < ops.len() ==> !op_touches(#[trigger] ops[j], key),
    ensures
        spec_apply_ops(dir, ops).dom().contains(key) == dir.dom().contains(key),
        dir.dom().contains(key) ==> spec_apply_ops(dir, ops)[key] == dir[key],
    decreases ops.len(),
{
    if ops.len() > 0 {
        let d1 = spec_apply_op(dir, ops[0]);
        assert(!op_touches(ops[0], key));
        assert(d1.dom().contains(key) == dir.dom().contains(key));
        assert(dir.dom().contains(key) ==> d1[key] == dir[key]);
        assert(forall|j: int|
            0 <= j < ops.skip(1).len() ==> !op_touches(#[trigger] ops.skip(1)[j], key));
        lemma_untouched(d1, ops.skip(1), key);
    }
}

/// Rotated names with the same suffix and distinct indices are
/// distinct.
proof fn lemma_rotated_name_injective(path: Seq<char>, i: nat, j: nat, gz: bool)
    requires
        spec_rotated_name(path, i, gz) == spec_rotated_name(path, j, gz),
    ensures
        i == j,
{
    reveal_strlit(".");
    reveal_strlit(".gz");
    let di = spec_dec_digits(i);
    let dj = spec_dec_digits(j);
    let a = spec_rotated_name(path, i, gz);
    let b = spec_rotated_name(path, j, gz);
    let p = path.len() as int;
    let sfx: int = if gz {
        3
    } else {
        0
    };
    assert(a.len() == p + 1 + di.len() + sfx);
    assert(b.len() == p + 1 + dj.len() + sfx);
    assert(di.len() == dj.len());
    assert forall|k: int| 0 <= k < di.len() implies di[k] == dj[k] by {
        assert(a[p + 1 + k] == di[k]);
        assert(b[p + 1 + k] == dj[k]);
    }
    assert(di =~= dj);
    lemma_dec_digits_injective(i, j);
}

/// A rotated name is never the live file's own name: it is longer.
proof fn lemma_rotated_name_ne_path(path: Seq<char>, i: nat, gz: bool)
    ensures
        spec_rotated_name(path, i, gz) != path,
{
    reveal_strlit(".");
    reveal_strlit(".gz");
    lemma_dec_digits_len(i);
    assert(spec_rotated_name(path, i, gz).len() > path.len());
}

/// The last character of a decimal representation is a digit.
proof fn lemma_dec_digits_last(n: nat)
    ensures
        48 <= spec_dec_digits(n).last() as int <= 57,
{
    lemma_dec_digits_len(n);
    if n < 10 {
        assert(spec_dec_digits(n).last() == spec_digit_char(n));
        assert((48 + n) as u8 as char as int == 48 + n);
    } else {
        assert(spec_dec_digits(n).last() == spec_digit_char(n % 10));
        assert((48 + n % 10) as u8 as char as int == 48 + n % 10);
    }
}

/// A compressed rotated name is never a plain one: it ends in `z`, not
/// in a digit.
proof fn lemma_rotated_name_gz_ne_plain(path: Seq<char>, i: nat, j: nat)
    ensures
        spec_rotated_name(path, i, true) != spec_rotated_name(path, j, false),
{
    let a = spec_rotated_name(path, i, true);
    let b = spec_rotated_name(path, j, false);
    lemma_dec_digits_len(i);
    lemma_dec_digits_len(j);
    reveal_strlit(".gz");
    assert(a.last() == 'z');
    assert(b.last() == spec_dec_digits(j).last());
    lemma_dec_digits_last(j);
    assert('z' as int == 122);
    if a == b {
        assert(a.last() == b.last());
        assert(false);
    }
}

/// The rotation-chain law.  Applying a rotation plan for `path` with
/// retention count `keep` to any directory yields a directory in which:
///
/// - `path.1` holds what the live file held (under compression this is
///   the plaintext that the background job then turns into
///   `path.1.gz`);
/// - every rotated file `path.k` (`k < keep`) has moved up to
///   `path.(k+1)`;
/// - the file beyond retention, `path.(keep+1)`, is gone;
/// - the live file itself is gone (a fresh one is opened afterwards).
pub proof fn lemma_rotation_chain(
    dir: Map<Seq<char>, Seq<u8>>,
    ops: Seq<FileOp>,
    path: Seq<char>,
    keep: nat,
    gz: bool,
)
    requires
        spec_is_rotation_plan(ops, path, keep, gz),
        keep >= 1,
    ensures
        dir.dom().contains(path) ==> spec_apply_ops(dir, ops).dom().contains(
            spec_rotated_name(path, 1, false),
        ) && spec_apply_ops(dir, ops)[spec_rotated_name(path, 1, false)] == dir[path],
        forall|k: int|
            1 <= k < keep && dir.dom().contains(
                #[trigger] spec_rotated_name(path, k as nat, gz),
            ) ==> spec_apply_ops(dir, ops).dom().contains(
                spec_rotated_name(path, (k + 1) as nat, gz),
            ) && spec_apply_ops(dir, ops)[spec_rotated_name(path, (k + 1) as nat, gz)]
                == dir[spec_rotated_name(path, k as nat, gz)],
        !spec_apply_ops(dir, ops).dom().contains(spec_rotated_name(path, (keep + 1) as nat, gz)),
        !spec_apply_ops(dir, ops).dom().contains(path),
{
    let dir2 = spec_apply_ops(dir, ops);
    lemma_live_file_moved(dir, ops, path, keep, gz);
    assert forall|k: int|
        1 <= k < keep && dir.dom().contains(
            #[trigger] spec_rotated_name(path, k as nat, gz),
        ) implies dir2.dom().contains(spec_rotated_name(path, (k + 1) as nat, gz))
        && dir2[spec_rotated_name(path, (k + 1) as nat, gz)] == dir[spec_rotated_name(
        path,
        k as nat,
        gz,
    )] by {
        lemma_chain_link(dir, ops, path, keep, gz, k);
    }
    lemma_oldest_deleted(dir, ops, path, keep, gz);
}

/// After the plan, `path.1` holds what the live file held, and the
/// live file is gone.
proof fn lemma_live_file_moved(
    dir: Map<Seq<char>, Seq<u8>>,
    ops: Seq<FileOp>,
    path: Seq<char>,
    keep: nat,
    gz: bool,
)
    requires
        spec_is_rotation_plan(ops, path, keep, gz),
        keep >= 1,
    ensures
        dir.dom().contains(path) ==> spec_apply_ops(dir, ops).dom().contains(
            spec_rotated_name(path, 1, false),
        ) && spec_apply_ops(dir, ops)[spec_rotated_name(path, 1, false)] == dir[path],
        !spec_apply_ops(dir, ops).dom().contains(path),
{
    let name1 = spec_rotated_name(path, 1, false);
    let shift = ops.take(keep as int);
    // The shift renames never touch the live file.
    assert forall|j: int| 0 <= j < shift.len() implies !op_touches(#[trigger] shift[j], path) by {
        assert(spec_rotation_op(ops[j], path, keep, gz, j));
        lemma_rotated_name_ne_path(path, (keep - j) as nat, gz);
        lemma_rotated_name_ne_path(path, (keep - j + 1) as nat, gz);
    }
    lemma_apply_ops_split(dir, ops, keep as int);
    let dir_a = spec_apply_ops(dir, shift);
    lemma_untouched(dir, shift, path);
    // The move: the live file, if present, goes to `path.1`.
    let tail = ops.skip(keep as int);
    assert(spec_rotation_op(ops[keep as int], path, keep, gz, keep as int));
    assert(tail[0] == ops[keep as int]);
    let dir_b = spec_apply_op(dir_a, tail[0]);
    assert(spec_apply_ops(dir_a, tail) == spec_apply_ops(dir_b, tail.skip(1)));
    lemma_rotated_name_ne_path(path, 1, false);
    // The trailing delete touches neither `path.1` nor the live file.
    assert(spec_rotation_op(ops[keep as int + 1], path, keep, gz, keep as int + 1));
    let del = tail.skip(1);
    assert(del.len() == 1);
    assert(del[0] == ops[keep as int + 1]);
    assert forall|j: int| 0 <= j < del.len() implies !op_touches(#[trigger] del[j], path) by {
        lemma_rotated_name_ne_path(path, (keep + 1) as nat, gz);
    }
    lemma_untouched(dir_b, del, path);
    assert forall|j: int| 0 <= j < del.len() implies !op_touches(#[trigger] del[j], name1) by {
        if gz {
            lemma_rotated_name_gz_ne_plain(path, (keep + 1) as nat, 1);
        } else {
            if spec_rotated_name(path, (keep + 1) as nat, gz) == name1 {
                lemma_rotated_name_injective(path, (keep + 1) as nat, 1, false);
            }
        }
    }
    lemma_untouched(dir_b, del, name1);
}

/// After the plan, `path.(k+1)` holds what `path.k` held, for
/// `1 <= k < keep`.
proof fn lemma_chain_link(
    dir: Map<Seq<char>, Seq<u8>>,
    ops: Seq<FileOp>,
    path: Seq<char>,
    keep: nat,
    gz: bool,
    k: int,
)
    requires
        spec_is_rotation_plan(ops, path, keep, gz),
        keep >= 1,
        1 <= k < keep,
        dir.dom().contains(spec_rotated_name(path, k as nat, gz)),
    ensures
        spec_apply_ops(dir, ops).dom().contains(spec_rotated_name(path, (k + 1) as nat, gz)),
        spec_apply_ops(dir, ops)[spec_rotated_name(path, (k + 1) as nat, gz)] == dir[
            spec_rotated_name(path, k as nat, gz)],
{
    let nk = spec_rotated_name(path, k as nat, gz);
    let nk1 = spec_rotated_name(path, (k + 1) as nat, gz);
    let j2 = keep - k;
    // Before the op that renames `path.k`, nothing touches `path.k`.
    let prefix = ops.take(j2);
    assert forall|j: int| 0 <= j < prefix.len() implies !op_touches(#[trigger] prefix[j], nk) by {
        assert(spec_rotation_op(ops[j], path, keep, gz, j));
        if spec_rotated_name(path, (keep - j) as nat, gz) == nk {
            lemma_rotated_name_injective(path, (keep - j) as nat, k as nat, gz);
        }
        if spec_rotated_name(path, (keep - j + 1) as nat, gz) == nk {
            lemma_rotated_name_injective(path, (keep - j + 1) as nat, k as nat, gz);
        }
    }
    lemma_apply_ops_split(dir, ops, j2);
    let dir_a = spec_apply_ops(dir, prefix);
    lemma_untouched(dir, prefix, nk);
    // The op at `j2` renames `path.k` to `path.(k+1)`.
    let tail = ops.skip(j2);
    assert(spec_rotation_op(ops[j2], path, keep, gz, j2));
    assert(tail[0] == ops[j2]);
    let dir_b = spec_apply_op(dir_a, tail[0]);
    assert(spec_apply_ops(dir_a, tail) == spec_apply_ops(dir_b, tail.skip(1)));
    assert(dir_b.dom().contains(nk1));
    assert(dir_b[nk1] == dir[nk]);
    // Nothing after `j2` touches `path.(k+1)`.
    let rest = tail.skip(1);
    assert(rest =~= ops.skip(j2 + 1));
    assert forall|j: int| 0 <= j < rest.len() implies !op_touches(#[trigger] rest[j], nk1) by {
        let jj = j + j2 + 1;
        assert(rest[j] == ops[jj]);
        assert(spec_rotation_op(ops[jj], path, keep, gz, jj));
        if jj < keep {
            if spec_rotated_name(path, (keep - jj) as nat, gz) == nk1 {
                lemma_rotated_name_injective(path, (keep - jj) as nat, (k + 1) as nat, gz);
            }
            if spec_rotated_name(path, (keep - jj + 1) as nat, gz) == nk1 {
                lemma_rotated_name_injective(path, (keep - jj + 1) as nat, (k + 1) as nat, gz);
            }
        } else if jj == keep {
            lemma_rotated_name_ne_path(path, (k + 1) as nat, gz);
            if gz {
                lemma_rotated_name_gz_ne_plain(path, (k + 1) as nat, 1);
            } else {
                if spec_rotated_name(path, 1, false) == nk1 {
                    lemma_rotated_name_injective(path, 1, (k + 1) as nat, false);
                }
            }
        } else {
            if spec_rotated_name(path, (keep + 1) as nat, gz) == nk1 {
                lemma_rotated_name_injective(path, (keep + 1) as nat, (k + 1) as nat, gz);
            }
        }
    }
    lemma_untouched(dir_b, rest, nk1);
}

/// After the plan, the file beyond retention is gone.
proof fn lemma_oldest_deleted(
    dir: Map<Seq<char>, Seq<u8>>,
    ops: Seq<FileOp>,
    path: Seq<char>,
    keep: nat,
    gz: bool,
)
    requires
        spec_is_rotation_plan(ops, path, keep, gz),
    ensures
        !spec_apply_ops(dir, ops).dom().contains(spec_rotated_name(path, (keep + 1) as nat, gz)),
{
    let last = keep as int + 1;
    lemma_apply_ops_split(dir, ops, last);
    let dir_a = spec_apply_ops(dir, ops.take(last));
    let tail = ops.skip(last);
    assert(tail.len() == 1);
    assert(tail[0] == ops[last]);
    assert(spec_rotation_op(ops[last], path, keep, gz, last));
    let dir_b = spec_apply_op(dir_a, tail[0]);
    assert(spec_apply_ops(dir_b, tail.skip(1)) == dir_b);
}

} // verus!
