//! Replacing a file so that a reader never sees it half written.
//!
//! A file is replaced in two steps: the new contents go to a temporary
//! path beside the target, then the temporary path is renamed onto the
//! target. The functions here only say which operations are to be made;
//! the caller makes them. A model of the disk states what they achieve.

use vstd::prelude::*;
use vstd::string::*;

verus! {

/// What is appended to a target path to get its temporary path.
pub const TEMP_SUFFIX: &'static str = ".tmp";

/// One operation on files, for the caller to perform.
#[derive(Clone, Debug, PartialEq, Eq)]
pub enum FileOp {
    /// Copy the file at `from` to `temp`.
    CopyToTemp { from: String, temp: String },
    /// Make `temp` a hard link to `from`, or a copy of it where hard links
    /// cannot be made.
    LinkToTemp { from: String, temp: String },
    /// Rename `from` to `to`, in place of whatever `to` named.
    Rename { from: String, to: String },
}

/// The view of a [`FileOp`].
pub enum FileOpView {
    CopyToTemp { from: Seq<char>, temp: Seq<char> },
    LinkToTemp { from: Seq<char>, temp: Seq<char> },
    Rename { from: Seq<char>, to: Seq<char> },
}

impl View for FileOp {
    type V = FileOpView;

    open spec fn view(&self) -> FileOpView {
        match self {
            FileOp::CopyToTemp { from, temp } => FileOpView::CopyToTemp {
                from: from@,
                temp: temp@,
            },
            FileOp::LinkToTemp { from, temp } => FileOpView::LinkToTemp {
                from: from@,
                temp: temp@,
            },
            FileOp::Rename { from, to } => FileOpView::Rename { from: from@, to: to@ },
        }
    }
}

impl DeepView for FileOp {
    type V = FileOpView;

    open spec fn deep_view(&self) -> FileOpView {
        self@
    }
}

/// How the new contents reach the temporary path.
#[derive(Clone, Copy, Debug, PartialEq, Eq, Structural)]
pub enum Staging {
    Copy,
    Link,
}

/// A model of the disk: the contents of each path that names a file.
pub type Disk = Map<Seq<char>, Seq<u8>>;

/// The disk after `op`. An operation whose source does not exist fails and
/// changes nothing.
pub open spec fn apply_op(disk: Disk, op: FileOpView) -> Disk {
    match op {
        FileOpView::CopyToTemp { from, temp } => if disk.dom().contains(from) {
            disk.insert(temp, disk[from])
        } else {
            disk
        },
        FileOpView::LinkToTemp { from, temp } => if disk.dom().contains(from) {
            disk.insert(temp, disk[from])
        } else {
            disk
        },
        FileOpView::Rename { from, to } => if disk.dom().contains(from) {
            disk.remove(from).insert(to, disk[from])
        } else {
            disk
        },
    }
}

/// The disk after `ops`, made one after the other.
pub open spec fn apply_ops(disk: Disk, ops: Seq<FileOpView>) -> Disk
    decreases ops.len(),
{
    if ops.len() == 0 {
        disk
    } else {
        apply_op(apply_ops(disk, ops.drop_last()), ops.last())
    }
}

/// The temporary path for `target`.
pub open spec fn spec_temp_path(target: Seq<char>) -> Seq<char> {
    target + TEMP_SUFFIX@
}

/// The two operations that replace `target` by the contents of `source`.
pub open spec fn spec_replace_ops(staging: Staging, source: Seq<char>, target: Seq<char>) -> Seq<
    FileOpView,
> {
    seq![
        match staging {
            Staging::Copy => FileOpView::CopyToTemp { from: source, temp: spec_temp_path(target) },
            Staging::Link => FileOpView::LinkToTemp { from: source, temp: spec_temp_path(target) },
        },
        FileOpView::Rename { from: spec_temp_path(target), to: target },
    ]
}

/// The operations that replace each of `targets`, in order, by the contents
/// of `source`.
pub open spec fn spec_replace_all(staging: Staging, source: Seq<char>, targets: Seq<Seq<char>>) -> Seq<
    FileOpView,
>
    decreases targets.len(),
{
    if targets.len() == 0 {
        Seq::empty()
    } else {
        spec_replace_all(staging, source, targets.drop_last()) + spec_replace_ops(
            staging,
            source,
            targets.last(),
        )
    }
}

/// The temporary path for `target`.
pub fn temp_path(target: &str) -> (temp: String)
    ensures
        temp@ == spec_temp_path(target@),
{
    String::from_str(target).concat(TEMP_SUFFIX)
}

/// The two operations that replace `target` by the contents of `source`:
/// stage to the temporary path, then rename onto the target.
pub fn replace_ops(staging: Staging, source: &str, target: &str) -> (ops: Vec<FileOp>)
    ensures
        ops.deep_view() == spec_replace_ops(staging, source@, target@),
{
    let stage = match staging {
        Staging::Copy => FileOp::CopyToTemp {
            from: String::from_str(source),
            temp: temp_path(target),
        },
        Staging::Link => FileOp::LinkToTemp {
            from: String::from_str(source),
            temp: temp_path(target),
        },
    };
    let rename = FileOp::Rename { from: temp_path(target), to: String::from_str(target) };
    let mut ops: Vec<FileOp> = Vec::new();
    ops.push(stage);
    ops.push(rename);
    assert(ops.deep_view() =~= spec_replace_ops(staging, source@, target@));
    ops
}

/// The operations that replace each of `targets`, in order, by the contents
/// of `source`.
pub fn replace_all_ops(staging: Staging, source: &str, targets: &Vec<String>) -> (ops: Vec<FileOp>)
    ensures
        ops.deep_view() == spec_replace_all(staging, source@, targets.deep_view()),
{
    let mut ops: Vec<FileOp> = Vec::new();
    let mut i: usize = 0;
    assert(targets.deep_view().take(0) =~= Seq::empty());
    assert(ops.deep_view() =~= Seq::empty());
    while i < targets.len()
        invariant
            i <= targets.len(),
            ops.deep_view() == spec_replace_all(
                staging,
                source@,
                targets.deep_view().take(i as int),
            ),
        decreases targets.len() - i,
    {
        let ghost before = ops.deep_view();
        let mut pair = replace_ops(staging, source, targets[i].as_str());
        let ghost added = pair.deep_view();
        let ghost made = pair@;
        assert(made.len() == added.len() && added.len() == 2);
        assert(made[0]@ == added[0] && made[1]@ == added[1]);
        proof {
            let upto = targets.deep_view().take(i + 1);
            assert(upto.drop_last() =~= targets.deep_view().take(i as int));
            assert(upto.last() == targets[i as int]@);
        }
        let rename = pair.pop().unwrap();
        let stage = pair.pop().unwrap();
        assert(stage@ == added[0] && rename@ == added[1]);
        ops.push(stage);
        ops.push(rename);
        assert(ops.deep_view() =~= before + added);
        i += 1;
    }
    assert(targets.deep_view().take(targets.len() as int) =~= targets.deep_view());
    ops
}

/// A temporary path differs from its target.
proof fn lemma_temp_differs(target: Seq<char>)
    ensures
        spec_temp_path(target) != target,
{
    reveal_strlit(".tmp");
    assert(spec_temp_path(target).len() == target.len() + 4);
}

/// Replacing a file is atomic for whoever reads the target.
///
/// If the work stops after the first of the two operations, every path
/// but the temporary one names what it named before, the target among
/// them. After both operations the target holds the contents of the
/// source, and nothing else has changed but that the temporary path is
/// gone.
pub proof fn law_replace_is_atomic(
    disk: Disk,
    staging: Staging,
    source: Seq<char>,
    target: Seq<char>,
)
    requires
        disk.dom().contains(source),
    ensures
        spec_temp_path(target) != target,
        forall|path: Seq<char>|
            path != spec_temp_path(target) ==> (apply_op(
                disk,
                spec_replace_ops(staging, source, target)[0],
            ).dom().contains(path) <==> disk.dom().contains(path)) && apply_op(
                disk,
                spec_replace_ops(staging, source, target)[0],
            )[path] == disk[path],
        apply_ops(disk, spec_replace_ops(staging, source, target)) == disk.remove(
            spec_temp_path(target),
        ).insert(target, disk[source]),
{
    lemma_temp_differs(target);
    let ops = spec_replace_ops(staging, source, target);
    let temp = spec_temp_path(target);
    let staged = apply_op(disk, ops[0]);
    assert(staged == disk.insert(temp, disk[source]));
    assert(ops.drop_last() =~= seq![ops[0]]);
    assert(ops.drop_last().drop_last() =~= Seq::<FileOpView>::empty());
    reveal_with_fuel(apply_ops, 3);
    assert(apply_ops(disk, ops.drop_last()) == staged);
    assert(apply_ops(disk, ops) == apply_op(staged, ops[1]));
    assert(apply_op(staged, ops[1]) =~= disk.remove(temp).insert(target, disk[source]));
}

/// Operations made in two runs achieve what they achieve in one.
proof fn lemma_apply_joined(disk: Disk, first: Seq<FileOpView>, then: Seq<FileOpView>)
    ensures
        apply_ops(disk, first + then) == apply_ops(apply_ops(disk, first), then),
    decreases then.len(),
{
    if then.len() == 0 {
        assert(first + then =~= first);
    } else {
        assert((first + then).drop_last() =~= first + then.drop_last());
        assert((first + then).last() == then.last());
        lemma_apply_joined(disk, first, then.drop_last());
    }
}

/// Whether the source is none of the targets and none of their temporary
/// paths, and no temporary path is a target.
pub open spec fn paths_apart(source: Seq<char>, targets: Seq<Seq<char>>) -> bool {
    &&& forall|i: int|
        0 <= i < targets.len() ==> #[trigger] targets[i] != source && spec_temp_path(targets[i])
            != source
    &&& forall|i: int, j: int|
        0 <= i < targets.len() && 0 <= j < targets.len() ==> spec_temp_path(#[trigger] targets[i])
            != #[trigger] targets[j]
}

/// Whether `path` is a target or the temporary path of one.
pub open spec fn is_touched(path: Seq<char>, targets: Seq<Seq<char>>) -> bool {
    exists|i: int|
        0 <= i < targets.len() && (path == #[trigger] targets[i] || path == spec_temp_path(
            targets[i],
        ))
}

/// Replacing several files by one source reaches each of them.
///
/// Where the source exists and the paths are apart, every target holds
/// the contents of the source afterwards, the source is as it was, and so
/// is every path that is neither a target nor a temporary path. This is
/// what linking the tool names to the binary achieves.
pub proof fn law_replace_all_reaches_every_target(
    disk: Disk,
    staging: Staging,
    source: Seq<char>,
    targets: Seq<Seq<char>>,
)
    requires
        disk.dom().contains(source),
        paths_apart(source, targets),
    ensures
        forall|i: int|
            0 <= i < targets.len() ==> apply_ops(
                disk,
                spec_replace_all(staging, source, targets),
            ).dom().contains(#[trigger] targets[i]) && apply_ops(
                disk,
                spec_replace_all(staging, source, targets),
            )[targets[i]] == disk[source],
        apply_ops(disk, spec_replace_all(staging, source, targets)).dom().contains(source),
        apply_ops(disk, spec_replace_all(staging, source, targets))[source] == disk[source],
        forall|path: Seq<char>|
            !is_touched(path, targets) ==> (apply_ops(
                disk,
                spec_replace_all(staging, source, targets),
            ).dom().contains(path) <==> disk.dom().contains(path)) && apply_ops(
                disk,
                spec_replace_all(staging, source, targets),
            )[path] == disk[path],
    decreases targets.len(),
{
    if targets.len() > 0 {
        let earlier = targets.drop_last();
        let last = targets.last();
        let temp = spec_temp_path(last);
        let before = apply_ops(disk, spec_replace_all(staging, source, earlier));
        let after = apply_ops(disk, spec_replace_all(staging, source, targets));
        assert(paths_apart(source, earlier)) by {
            assert forall|i: int| 0 <= i < earlier.len() implies earlier[i] == targets[i] by {}
        }
        law_replace_all_reaches_every_target(disk, staging, source, earlier);
        lemma_apply_joined(
            disk,
            spec_replace_all(staging, source, earlier),
            spec_replace_ops(staging, source, last),
        );
        law_replace_is_atomic(before, staging, source, last);
        assert(after == before.remove(temp).insert(last, before[source]));
        assert(targets[targets.len() - 1] == last);
        assert(last != source && temp != source);
        assert forall|i: int| 0 <= i < targets.len() implies after.dom().contains(
            #[trigger] targets[i],
        ) && after[targets[i]] == disk[source] by {
            if i < targets.len() - 1 {
                assert(earlier[i] == targets[i]);
                assert(spec_temp_path(targets[targets.len() - 1]) != targets[i]);
            }
        }
        assert forall|path: Seq<char>| !is_touched(path, targets) implies (after.dom().contains(
            path,
        ) <==> disk.dom().contains(path)) && after[path] == disk[path] by {
            assert(path != last && path != temp);
            if is_touched(path, earlier) {
                let i = choose|i: int|
                    0 <= i < earlier.len() && (path == #[trigger] earlier[i] || path
                        == spec_temp_path(earlier[i]));
                assert(earlier[i] == targets[i]);
            }
        }
    }
}

} // verus!
