//! Membership of the managed binary directory in `PATH`.
//!
//! There are two ways to register a directory. Where `PATH` is kept as a
//! list of entries, the directory becomes an entry. Where a shell reads a
//! profile, a line that puts the directory in front of `PATH` becomes a
//! line of the profile. Either way registration looks first and adds only
//! what is missing, so doing it again changes nothing.

use vstd::prelude::*;
use vstd::string::*;
use crate::text::same_text;

verus! {

/// `PATH` after `dir` has been registered: unchanged when `dir` is an
/// entry already, else with `dir` in front.
pub open spec fn with_path_entry(path: Seq<Seq<char>>, dir: Seq<char>) -> Seq<Seq<char>> {
    if path.contains(dir) {
        path
    } else {
        seq![dir] + path
    }
}

/// Registering a directory twice in a row gives the same `PATH` as
/// registering it once, and the directory is then an entry of it.
pub proof fn law_register_path_idempotent(path: Seq<Seq<char>>, dir: Seq<char>)
    ensures
        with_path_entry(path, dir).contains(dir),
        with_path_entry(with_path_entry(path, dir), dir) == with_path_entry(path, dir),
        forall|other: Seq<char>|
            with_path_entry(path, dir).contains(other) <==> path.contains(other) || other == dir,
{
    let once = with_path_entry(path, dir);
    if !path.contains(dir) {
        assert(once[0] == dir);
    }
    assert forall|other: Seq<char>| once.contains(other) <==> path.contains(other) || other
        == dir by {
        if path.contains(other) && !path.contains(dir) {
            let i = choose|i: int| 0 <= i < path.len() && path[i] == other;
            assert(once[i + 1] == other);
        }
    }
}

/// The line of a shell profile that puts `dir` in front of `PATH`.
pub open spec fn spec_export_line(dir: Seq<char>) -> Seq<char> {
    "export PATH=\""@ + dir + ":$PATH\""@
}

/// A profile after `dir` has been registered in it: unchanged when the
/// line for `dir` is a line of it already, else with that line at its end.
pub open spec fn with_profile_line(lines: Seq<Seq<char>>, dir: Seq<char>) -> Seq<Seq<char>> {
    if lines.contains(spec_export_line(dir)) {
        lines
    } else {
        lines.push(spec_export_line(dir))
    }
}

/// Registering a directory in a profile twice in a row gives the same
/// profile as registering it once: the line is there, once more than
/// before at most, and every other line is where it was.
pub proof fn law_register_in_profile_idempotent(lines: Seq<Seq<char>>, dir: Seq<char>)
    ensures
        with_profile_line(lines, dir).contains(spec_export_line(dir)),
        with_profile_line(with_profile_line(lines, dir), dir) == with_profile_line(lines, dir),
        with_profile_line(lines, dir).take(lines.len() as int) == lines,
{
    let once = with_profile_line(lines, dir);
    if !lines.contains(spec_export_line(dir)) {
        assert(once[lines.len() as int] == spec_export_line(dir));
    }
    assert(once.take(lines.len() as int) =~= lines);
}

/// The line of a shell profile that puts `dir` in front of `PATH`.
pub fn export_line(dir: &str) -> (line: String)
    ensures
        line@ == spec_export_line(dir@),
{
    let line = String::from_str("export PATH=\"");
    let line = line.concat(dir);
    line.concat(":$PATH\"")
}

/// Registers `dir` in the lines of a shell profile. Returns whether a
/// line had to be added.
pub fn register_in_profile(lines: &mut Vec<String>, dir: &str) -> (changed: bool)
    ensures
        final(lines).deep_view() == with_profile_line(old(lines).deep_view(), dir@),
        changed == !old(lines).deep_view().contains(spec_export_line(dir@)),
{
    let line = export_line(dir);
    if path_contains(lines, line.as_str()) {
        false
    } else {
        lines.push(line);
        assert(lines.deep_view() =~= old(lines).deep_view().push(spec_export_line(dir@)));
        true
    }
}

/// Whether `dir` is an entry of `path`.
pub fn path_contains(path: &Vec<String>, dir: &str) -> (found: bool)
    ensures
        found == path.deep_view().contains(dir@),
{
    let mut i: usize = 0;
    while i < path.len()
        invariant
            i <= path.len(),
            forall|j: int| 0 <= j < i ==> path.deep_view()[j] != dir@,
        decreases path.len() - i,
    {
        if same_text(path[i].as_str(), dir) {
            assert(path.deep_view()[i as int] == dir@);
            return true;
        }
        i += 1;
    }
    false
}

/// Registers `dir` on `path`. Returns whether `path` had to be changed.
pub fn register_path(path: &mut Vec<String>, dir: &str) -> (changed: bool)
    ensures
        final(path).deep_view() == with_path_entry(old(path).deep_view(), dir@),
        changed == !old(path).deep_view().contains(dir@),
{
    if path_contains(path, dir) {
        false
    } else {
        path.insert(0, String::from_str(dir));
        assert(path.deep_view() =~= seq![dir@] + old(path).deep_view());
        true
    }
}

} // verus!
