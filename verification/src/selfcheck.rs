//! Checks the consistency of the toolchains directory and reports what a
//! user should clean up. Nothing is repaired here: a finding is advice.
//!
//! Only the directories among the children of the toolchains directory
//! are toolchains. A file there is passed over, whatever its name.

use vstd::prelude::*;
use vstd::string::*;
use crate::errors::{Error, ErrorView};
use crate::text::to_chars;
use crate::toolchain::{spec_parse, PartialToolchainDesc};

verus! {

/// One direct child of the toolchains directory, as the caller listed it.
#[derive(Clone, Debug, PartialEq, Eq)]
pub struct ToolchainDir {
    /// The full path of the child, for messages.
    pub path: String,
    /// Its last component.
    pub file_name: String,
    /// Whether the child is a directory. Only a directory is a toolchain.
    pub is_dir: bool,
}

/// The last position of `c` in `s`, or -1 when `s` does not hold `c`.
pub open spec fn last_index_of(s: Seq<char>, c: char) -> int
    decreases s.len(),
{
    if s.len() == 0 {
        -1
    } else if s.last() == c {
        s.len() - 1
    } else {
        last_index_of(s.drop_last(), c)
    }
}

/// Whether `name` is a file name at all: not empty and neither of the two
/// directory links.
pub open spec fn is_file_name(name: Seq<char>) -> bool {
    name.len() > 0 && name != seq!['.'] && name != seq!['.', '.']
}

/// The file name without its extension: the part before the last dot. A
/// name without a dot, or with its only dot in front, is its own stem.
pub open spec fn spec_file_stem(name: Seq<char>) -> Option<Seq<char>> {
    if !is_file_name(name) {
        None
    } else if last_index_of(name, '.') > 0 {
        Some(name.subrange(0, last_index_of(name, '.')))
    } else {
        Some(name)
    }
}

/// Whether a directory of this name was made under the old naming scheme:
/// its stem is a distribution-qualified name without architecture or
/// operating system. A stem that does not parse is a custom toolchain.
pub open spec fn is_old_name(file_name: Seq<char>) -> bool {
    match spec_file_stem(file_name) {
        Some(stem) => match spec_parse(stem) {
            Some(desc) => desc.is_legacy(),
            None => false,
        },
        None => false,
    }
}

/// The problem and the remedy reported for the directory at `path`.
pub open spec fn finding_for(path: Seq<char>) -> (Seq<char>, Seq<char>) {
    ("the toolchain directory at "@ + path + " uses an old naming scheme"@, "delete it"@)
}

/// Selects the children that get a finding: the directories with a name
/// of the old scheme.
pub open spec fn old_name_pred() -> spec_fn(ToolchainDir) -> bool {
    |dir: ToolchainDir| dir.is_dir && is_old_name(dir.file_name@)
}

/// Maps a directory to its finding.
pub open spec fn to_finding() -> spec_fn(ToolchainDir) -> (Seq<char>, Seq<char>) {
    |dir: ToolchainDir| finding_for(dir.path@)
}

/// The findings for a listing: one for each directory with an old name, in
/// the order of the listing.
pub open spec fn findings(dirs: Seq<ToolchainDir>) -> Seq<(Seq<char>, Seq<char>)> {
    dirs.filter(old_name_pred()).map_values(to_finding())
}

/// The search for the last dot may stop at the first one met from the end.
proof fn lemma_last_index_in_prefix(s: Seq<char>, c: char, i: int)
    requires
        0 <= i <= s.len(),
        forall|j: int| i <= j < s.len() ==> s[j] != c,
    ensures
        last_index_of(s, c) == last_index_of(s.take(i), c),
    decreases s.len() - i,
{
    if i == s.len() {
        assert(s.take(i) =~= s);
    } else {
        assert(s.drop_last().take(i) =~= s.take(i));
        lemma_last_index_in_prefix(s.drop_last(), c, i);
    }
}

/// The file name without its extension; `None` when `name` is no file name.
pub fn file_stem(name: &str) -> (stem: Option<String>)
    ensures
        stem.deep_view() == spec_file_stem(name@),
{
    let chars = to_chars(name);
    let n = chars.len();
    if n == 0 || (n == 1 && chars[0] == '.') || (n == 2 && chars[0] == '.' && chars[1] == '.') {
        assert(n == 1 ==> (name@ == seq!['.'] <==> name@[0] == '.')) by {
            if n == 1 && name@[0] == '.' {
                assert(name@ =~= seq!['.']);
            }
        }
        assert(n == 2 ==> (name@ == seq!['.', '.'] <==> name@[0] == '.' && name@[1] == '.')) by {
            if n == 2 && name@[0] == '.' && name@[1] == '.' {
                assert(name@ =~= seq!['.', '.']);
            }
        }
        return None;
    }
    assert(is_file_name(name@)) by {
        if name@ == seq!['.'] {
            assert(name@[0] == '.');
        }
        if name@ == seq!['.', '.'] {
            assert(name@[0] == '.' && name@[1] == '.');
        }
    }
    let mut i: usize = n;
    while i > 0 && chars[i - 1] != '.'
        invariant
            n == chars@.len(),
            i <= n,
            forall|j: int| i <= j < n ==> chars@[j] != '.',
        decreases i,
    {
        i -= 1;
    }
    proof {
        lemma_last_index_in_prefix(chars@, '.', i as int);
        if i > 0 {
            assert(chars@.take(i as int).last() == '.');
        }
    }
    if i > 1 {
        Some(String::from_str(name.substring_char(0, i - 1)))
    } else {
        Some(String::from_str(name))
    }
}

/// Whether a directory of this name was made under the old naming scheme.
pub fn has_old_name(file_name: &str) -> (old: bool)
    ensures
        old == is_old_name(file_name@),
{
    match file_stem(file_name) {
        Some(stem) => match PartialToolchainDesc::from_str(stem.as_str()) {
            Some(desc) => desc.is_legacy(),
            None => false,
        },
        None => false,
    }
}

/// What came of listing the toolchains directory: its direct children, or
/// the report of a failure. A child that could not be read has its own
/// report in place of the directory.
pub type Listing = Result<Vec<Result<ToolchainDir, String>>, String>;

/// The position of the first child that could not be read, or the number
/// of children when all were read.
pub open spec fn failure_index(children: Seq<Result<ToolchainDir, String>>) -> int
    decreases children.len(),
{
    if children.len() == 0 || children[0] is Err {
        0
    } else {
        1 + failure_index(children.skip(1))
    }
}

/// Takes a child that was read for the directory it is.
pub open spec fn read_dir_of() -> spec_fn(Result<ToolchainDir, String>) -> ToolchainDir {
    |child: Result<ToolchainDir, String>| child->Ok_0
}

/// What a scan of `listing` gives: the findings for its children where
/// all of it could be read, else the report of the first failure.
pub open spec fn scan_outcome(listing: Listing) -> Result<Seq<(Seq<char>, Seq<char>)>, Seq<char>> {
    match listing {
        Err(report) => Err(report@),
        Ok(children) => {
            let at = failure_index(children@);
            if 0 <= at < children@.len() {
                Err(children@[at]->Err_0@)
            } else {
                Ok(findings(children@.map_values(read_dir_of())))
            }
        },
    }
}

/// Where the first failure stands.
proof fn lemma_failure_index(children: Seq<Result<ToolchainDir, String>>, at: int)
    requires
        0 <= at <= children.len(),
        forall|j: int| 0 <= j < at ==> (#[trigger] children[j]) is Ok,
        at < children.len() ==> children[at] is Err,
    ensures
        failure_index(children) == at,
    decreases at,
{
    if at > 0 {
        assert(children[0] is Ok);
        assert forall|j: int| 0 <= j < at - 1 implies (#[trigger] children.skip(1)[j]) is Ok by {
            assert(children.skip(1)[j] == children[j + 1]);
        }
        lemma_failure_index(children.skip(1), at - 1);
    }
}

/// Reports each toolchain directory that still has a name of the old
/// scheme, without architecture or operating system. Directories of custom
/// toolchains, names that cannot be read as a toolchain, and children that
/// are no directories are passed over.
pub fn check_old_toolchain_names(dirs: &Vec<ToolchainDir>) -> (notices: Vec<(String, String)>)
    ensures
        notices.deep_view() == findings(dirs@),
{
    let mut notices: Vec<(String, String)> = Vec::new();
    let mut i: usize = 0;
    assert(dirs@.take(0).filter(old_name_pred()) =~= Seq::empty());
    assert(notices.deep_view() =~= findings(dirs@.take(0)));
    while i < dirs.len()
        invariant
            i <= dirs.len(),
            notices.deep_view() == findings(dirs@.take(i as int)),
        decreases dirs.len() - i,
    {
        let dir = &dirs[i];
        let ghost before = dirs@.take(i as int);
        let ghost seen = notices.deep_view();
        proof {
            assert(dirs@.take(i + 1).drop_last() =~= before);
            assert(dirs@.take(i + 1).last() == *dir);
            reveal_with_fuel(Seq::filter, 2);
        }
        if dir.is_dir && has_old_name(dir.file_name.as_str()) {
            let prob = String::from_str("the toolchain directory at ");
            let prob = prob.concat(dir.path.as_str());
            let prob = prob.concat(" uses an old naming scheme");
            let soln = String::from_str("delete it");
            notices.push((prob, soln));
            proof {
                assert(dirs@.take(i + 1).filter(old_name_pred()) == before.filter(
                    old_name_pred(),
                ).push(*dir));
                assert(notices.deep_view() =~= seen.push(finding_for(dir.path@)));
                assert(findings(dirs@.take(i + 1)) =~= seen.push(finding_for(dir.path@)));
            }
        } else {
            assert(dirs@.take(i + 1).filter(old_name_pred()) == before.filter(old_name_pred()));
        }
        i += 1;
    }
    assert(dirs@.take(dirs.len() as int) =~= dirs@);
    notices
}

/// Runs every self-check on a listing of the toolchains directory and
/// returns the findings, each a pair of a problem and its suggested remedy.
///
/// A name that cannot be read as a toolchain is no reason to fail: it is
/// passed over. A listing that failed, as a whole or at one of the
/// children, gives the report of the first failure as `Io`.
pub fn run(listing: &Listing) -> (notices: Result<Vec<(String, String)>, Error>)
    ensures
        match notices {
            Ok(notices) => scan_outcome(*listing) == Ok::<
                Seq<(Seq<char>, Seq<char>)>,
                Seq<char>,
            >(notices.deep_view()),
            Err(e) => scan_outcome(*listing) is Err && e@ == ErrorView::Io(
                scan_outcome(*listing)->Err_0,
            ),
        },
{
    let children = match listing {
        Ok(children) => children,
        Err(report) => {
            return Err(Error::Io(report.clone()));
        },
    };
    let mut dirs: Vec<ToolchainDir> = Vec::new();
    let mut i: usize = 0;
    while i < children.len()
        invariant
            *listing == Ok::<Vec<Result<ToolchainDir, String>>, String>(*children),
            i <= children.len(),
            forall|j: int| 0 <= j < i ==> (#[trigger] children@[j]) is Ok,
            dirs@ == children@.take(i as int).map_values(read_dir_of()),
        decreases children.len() - i,
    {
        match &children[i] {
            Ok(dir) => {
                let ghost before = dirs@;
                dirs.push(
                    ToolchainDir {
                        path: dir.path.clone(),
                        file_name: dir.file_name.clone(),
                        is_dir: dir.is_dir,
                    },
                );
                assert(dirs@ =~= children@.take(i + 1).map_values(read_dir_of())) by {
                    assert(dirs@.last() == *dir);
                    assert(children@.take(i + 1)[i as int] == children@[i as int]);
                    assert forall|j: int| 0 <= j < i implies dirs@[j] == children@.take(
                        i + 1,
                    ).map_values(read_dir_of())[j] by {
                        assert(before[j] == children@.take(i as int).map_values(read_dir_of())[j]);
                    }
                }
            },
            Err(report) => {
                let report = report.clone();
                proof {
                    lemma_failure_index(children@, i as int);
                    assert(children@[i as int]->Err_0 == report);
                }
                return Err(Error::Io(report));
            },
        }
        i += 1;
    }
    proof {
        lemma_failure_index(children@, children@.len() as int);
        assert(children@.take(children.len() as int) =~= children@);
    }
    Ok(check_old_toolchain_names(&dirs))
}

} // verus!
