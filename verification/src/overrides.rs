//! Per-directory overrides: which toolchain applies when working from a
//! given directory.
//!
//! The store maps a directory to a toolchain name. A directory has at most
//! one entry, and a lookup asks for that very directory: parents are not
//! searched. The store in memory is a copy of what the settings file held
//! when it was loaded; the caller writes it back after each change.
//!
//! The settings file has a line `<directory>;<toolchain>` for each entry.
//! Both fields are written with the codes of [`crate::escape`], so that any
//! directory and any toolchain name can be written and is read back as it
//! was.

use vstd::prelude::*;
use vstd::string::*;
use crate::errors::{Error, ErrorView};
use crate::escape::{
    escape,
    escape_text,
    law_unescape_escape,
    lemma_escape_fits_a_field,
    unescape,
    unescape_text,
};
use crate::text::{same_text, to_chars};
use crate::toolchain::{is_custom, spec_is_custom};

verus! {

/// What the external installer did for a distribution toolchain.
#[derive(Clone, Copy, Debug, PartialEq, Eq, Structural)]
pub enum InstallStatus {
    /// The toolchain was not there and has been installed.
    Installed,
    /// The toolchain was there and has been brought up to date.
    Updated,
    /// The toolchain was there and current.
    Unchanged,
}

/// The entries of a store: pairs of a directory and a toolchain name.
pub type Entries = Seq<(Seq<char>, Seq<char>)>;

/// Whether no directory occurs twice.
pub open spec fn keys_unique(entries: Entries) -> bool {
    forall|i: int, j: int|
        0 <= i < j < entries.len() ==> (#[trigger] entries[i]).0 != (#[trigger] entries[j]).0
}

/// Whether `entries` holds an entry for `dir`.
pub open spec fn has_dir(entries: Entries, dir: Seq<char>) -> bool {
    exists|i: int| 0 <= i < entries.len() && (#[trigger] entries[i]).0 == dir
}

/// The position of an entry for `dir`.
pub open spec fn dir_index(entries: Entries, dir: Seq<char>) -> int {
    choose|i: int| 0 <= i < entries.len() && (#[trigger] entries[i]).0 == dir
}

/// The toolchain that `dir` is pinned to, if it is.
pub open spec fn lookup(entries: Entries, dir: Seq<char>) -> Option<Seq<char>> {
    if has_dir(entries, dir) {
        Some(entries[dir_index(entries, dir)].1)
    } else {
        None
    }
}

/// The entries after `dir` has been pinned to `toolchain`: an entry for
/// `dir` is replaced where it stands, a new one goes to the end.
pub open spec fn with_override(entries: Entries, dir: Seq<char>, toolchain: Seq<char>) -> Entries {
    if has_dir(entries, dir) {
        entries.update(dir_index(entries, dir), (dir, toolchain))
    } else {
        entries.push((dir, toolchain))
    }
}

/// Whether `entries` holds `(dir, toolchain)` and no other entry for `dir`.
pub open spec fn has_exactly(entries: Entries, dir: Seq<char>, toolchain: Seq<char>) -> bool {
    exists|i: int|
        0 <= i < entries.len() && #[trigger] entries[i] == (dir, toolchain) && forall|j: int|
            0 <= j < entries.len() && (#[trigger] entries[j]).0 == dir ==> j == i
}

/// Pinning keeps directories unique, leaves exactly one entry for the
/// pinned directory, with the new toolchain, and touches no other
/// directory's entry.
pub proof fn lemma_with_override(entries: Entries, dir: Seq<char>, toolchain: Seq<char>)
    requires
        keys_unique(entries),
    ensures
        keys_unique(with_override(entries, dir, toolchain)),
        has_exactly(with_override(entries, dir, toolchain), dir, toolchain),
        lookup(with_override(entries, dir, toolchain), dir) == Some(toolchain),
        forall|other: Seq<char>|
            other != dir ==> lookup(with_override(entries, dir, toolchain), other) == lookup(
                entries,
                other,
            ),
        with_override(entries, dir, toolchain).len() == if has_dir(entries, dir) {
            entries.len()
        } else {
            entries.len() + 1
        },
{
    let after = with_override(entries, dir, toolchain);
    let at = if has_dir(entries, dir) {
        dir_index(entries, dir)
    } else {
        entries.len() as int
    };
    assert(0 <= at < after.len());
    assert(after[at] == (dir, toolchain));
    assert forall|j: int| 0 <= j < after.len() && j != at implies after[j] == entries[j]
        && after[j].0 != dir by {
        if has_dir(entries, dir) {
            if j < at {
                assert(entries[j].0 != entries[at].0);
            } else {
                assert(entries[at].0 != entries[j].0);
            }
        }
    }
    assert(keys_unique(after)) by {
        assert forall|i: int, j: int| 0 <= i < j < after.len() implies after[i].0 != after[j].0 by {
            if i != at && j != at {
                assert(entries[i].0 != entries[j].0);
            }
        }
    }
    assert(has_dir(after, dir));
    lemma_lookup_at(after, dir, at);
    assert forall|other: Seq<char>| other != dir implies lookup(after, other) == lookup(
        entries,
        other,
    ) by {
        if has_dir(entries, other) {
            let k = dir_index(entries, other);
            assert(k != at);
            assert(after[k] == entries[k]);
            lemma_lookup_at(after, other, k);
        } else if has_dir(after, other) {
            let k = dir_index(after, other);
            assert(k != at);
            assert(entries[k].0 == other);
        }
    }
}

/// With unique directories, an entry found for `dir` is the one that
/// `lookup` answers with.
proof fn lemma_lookup_at(entries: Entries, dir: Seq<char>, at: int)
    requires
        keys_unique(entries),
        0 <= at < entries.len(),
        entries[at].0 == dir,
    ensures
        has_dir(entries, dir),
        dir_index(entries, dir) == at,
        lookup(entries, dir) == Some(entries[at].1),
{
    let k = dir_index(entries, dir);
    if k < at {
        assert(entries[k].0 != entries[at].0);
    } else if at < k {
        assert(entries[at].0 != entries[k].0);
    }
}

/// Pinning a directory and listing the store shows exactly one entry for
/// that directory, with the pinned toolchain. Pinning it again replaces
/// the entry: there is still exactly one, now with the second toolchain,
/// and the store has not grown.
pub proof fn law_set_then_list(
    entries: Entries,
    dir: Seq<char>,
    first: Seq<char>,
    second: Seq<char>,
)
    requires
        keys_unique(entries),
    ensures
        has_exactly(with_override(entries, dir, first), dir, first),
        has_exactly(
            with_override(with_override(entries, dir, first), dir, second),
            dir,
            second,
        ),
        with_override(with_override(entries, dir, first), dir, second).len() == with_override(
            entries,
            dir,
            first,
        ).len(),
{
    lemma_with_override(entries, dir, first);
    lemma_with_override(with_override(entries, dir, first), dir, second);
}

/// The first position of `c` in `s`, or the length of `s` when `s` does
/// not hold `c`.
pub open spec fn index_of(s: Seq<char>, c: char) -> int
    decreases s.len(),
{
    if s.len() == 0 || s[0] == c {
        0
    } else {
        1 + index_of(s.skip(1), c)
    }
}

/// The entry written on one line of the settings file: the directory is
/// what the text up to the first semicolon reads as, the toolchain what
/// the text after it reads as. A line without a semicolon holds no entry.
pub open spec fn parse_line(line: Seq<char>) -> Option<(Seq<char>, Seq<char>)> {
    let at = index_of(line, ';');
    if 0 <= at < line.len() {
        Some((unescape(line.take(at)), unescape(line.skip(at + 1))))
    } else {
        None
    }
}

/// `entries` after the lines of `text` have been read onto them, first
/// line first. Where a directory comes twice, the later line counts.
pub open spec fn decode_onto(entries: Entries, text: Seq<char>) -> Entries
    decreases text.len(),
{
    if text.len() == 0 {
        entries
    } else {
        let end = index_of(text, '\n');
        let rest = if 0 <= end < text.len() {
            text.skip(end + 1)
        } else {
            Seq::empty()
        };
        let read = match parse_line(text.take(end)) {
            Some((dir, toolchain)) => with_override(entries, dir, toolchain),
            None => entries,
        };
        decode_onto(read, rest)
    }
}

/// The entries that a settings file holds.
pub open spec fn spec_decode(text: Seq<char>) -> Entries {
    decode_onto(Seq::empty(), text)
}

/// The line that holds `entry`, with its line end.
pub open spec fn encode_entry(entry: (Seq<char>, Seq<char>)) -> Seq<char> {
    escape(entry.0) + seq![';'] + escape(entry.1) + seq!['\n']
}

/// The text of the settings file for `entries`: one line for each.
pub open spec fn spec_encode(entries: Entries) -> Seq<char>
    decreases entries.len(),
{
    if entries.len() == 0 {
        Seq::empty()
    } else {
        spec_encode(entries.drop_last()) + encode_entry(entries.last())
    }
}

/// Where `c` first stands in `s`.
proof fn lemma_index_of(s: Seq<char>, c: char, at: int)
    requires
        0 <= at <= s.len(),
        forall|j: int| 0 <= j < at ==> s[j] != c,
        at < s.len() ==> s[at] == c,
    ensures
        index_of(s, c) == at,
    decreases at,
{
    if at > 0 {
        assert(s[0] != c);
        assert forall|j: int| 0 <= j < at - 1 implies s.skip(1)[j] != c by {
            assert(s.skip(1)[j] == s[j + 1]);
        }
        lemma_index_of(s.skip(1), c, at - 1);
    }
}

/// Reading the line of an entry, with more text behind it, pins that
/// entry and goes on with the text behind.
proof fn lemma_decode_entry(entries: Entries, entry: (Seq<char>, Seq<char>), rest: Seq<char>)
    ensures
        decode_onto(entries, encode_entry(entry) + rest) == decode_onto(
            with_override(entries, entry.0, entry.1),
            rest,
        ),
{
    let dir = escape(entry.0);
    let toolchain = escape(entry.1);
    lemma_escape_fits_a_field(entry.0);
    lemma_escape_fits_a_field(entry.1);
    law_unescape_escape(entry.0);
    law_unescape_escape(entry.1);
    let line = dir + seq![';'] + toolchain;
    let text = encode_entry(entry) + rest;
    let end = line.len() as int;
    assert(text.len() > 0);
    assert forall|j: int| 0 <= j < end implies text[j] != '\n' by {
        if j < dir.len() {
            assert(dir[j] == text[j]);
        } else if j > dir.len() {
            assert(toolchain[j - dir.len() - 1] == text[j]);
        }
    }
    assert(text[end] == '\n');
    lemma_index_of(text, '\n', end);
    assert(text.take(end) =~= line);
    assert(text.skip(end + 1) =~= rest);
    let at = dir.len() as int;
    assert forall|j: int| 0 <= j < at implies line[j] != ';' by {
        assert(dir[j] == line[j]);
    }
    assert(line[at] == ';');
    lemma_index_of(line, ';', at);
    assert(line.take(at) =~= dir);
    assert(line.skip(at + 1) =~= toolchain);
}

/// `entries` after each of `more` has been pinned, first entry first.
pub open spec fn with_overrides(entries: Entries, more: Entries) -> Entries
    decreases more.len(),
{
    if more.len() == 0 {
        entries
    } else {
        with_override(with_overrides(entries, more.drop_last()), more.last().0, more.last().1)
    }
}

/// Reading the lines of entries pins each of them in turn.
proof fn lemma_decode_entries(entries: Entries, more: Entries, rest: Seq<char>)
    ensures
        decode_onto(entries, spec_encode(more) + rest) == decode_onto(
            with_overrides(entries, more),
            rest,
        ),
    decreases more.len(),
{
    if more.len() == 0 {
        assert(spec_encode(more) + rest =~= rest);
    } else {
        let earlier = more.drop_last();
        let last_line = encode_entry(more.last());
        assert(spec_encode(more) + rest =~= spec_encode(earlier) + (last_line + rest));
        lemma_decode_entries(entries, earlier, last_line + rest);
        lemma_decode_entry(with_overrides(entries, earlier), more.last(), rest);
    }
}

/// Pinning entries with distinct directories onto nothing gives those
/// entries, in their order.
proof fn lemma_overrides_onto_nothing(more: Entries)
    requires
        keys_unique(more),
    ensures
        with_overrides(Seq::empty(), more) == more,
    decreases more.len(),
{
    if more.len() == 0 {
        assert(more =~= Seq::<(Seq<char>, Seq<char>)>::empty());
    } else {
        let earlier = more.drop_last();
        assert(keys_unique(earlier)) by {
            assert forall|i: int, j: int| 0 <= i < j < earlier.len() implies earlier[i].0
                != earlier[j].0 by {
                assert(earlier[i] == more[i] && earlier[j] == more[j]);
            }
        }
        lemma_overrides_onto_nothing(earlier);
        assert(!has_dir(earlier, more.last().0)) by {
            if has_dir(earlier, more.last().0) {
                let k = dir_index(earlier, more.last().0);
                assert(more[k].0 != more[more.len() - 1].0);
            }
        }
        assert(earlier.push(more.last()) =~= more);
    }
}

/// What is written to the settings file is what is read back from it:
/// entries with distinct directories come back from their text as they
/// were, in their order, whatever characters they hold.
pub proof fn law_settings_round_trip(entries: Entries)
    requires
        keys_unique(entries),
    ensures
        spec_decode(spec_encode(entries)) == entries,
{
    assert(spec_encode(entries) + Seq::<char>::empty() =~= spec_encode(entries));
    lemma_decode_entries(Seq::empty(), entries, Seq::empty());
    lemma_overrides_onto_nothing(entries);
}

/// The overrides of one settings file.
#[derive(Debug, PartialEq, Eq)]
pub struct OverrideStore {
    entries: Vec<(String, String)>,
}

impl View for OverrideStore {
    type V = Entries;

    closed spec fn view(&self) -> Entries {
        self.entries.deep_view()
    }
}

impl OverrideStore {
    #[verifier::type_invariant]
    spec fn directories_are_unique(self) -> bool {
        keys_unique(self.entries.deep_view())
    }

    /// A store without entries.
    pub fn new() -> (store: OverrideStore)
        ensures
            store@ == Seq::<(Seq<char>, Seq<char>)>::empty(),
    {
        let store = OverrideStore { entries: Vec::new() };
        assert(store.entries.deep_view() =~= Seq::empty());
        store
    }

    /// The number of entries.
    pub fn len(&self) -> (n: usize)
        ensures
            n == self@.len(),
    {
        self.entries.len()
    }

    /// The position of the entry for `dir`.
    fn position(&self, dir: &str) -> (found: Option<usize>)
        ensures
            keys_unique(self@),
            match found {
                Some(at) => at < self@.len() && self@[at as int].0 == dir@ && has_dir(
                    self@,
                    dir@,
                ) && dir_index(self@, dir@) == at,
                None => !has_dir(self@, dir@),
            },
    {
        proof {
            use_type_invariant(self);
        }
        let mut i: usize = 0;
        while i < self.entries.len()
            invariant
                i <= self.entries.len(),
                keys_unique(self@),
                self@ == self.entries.deep_view(),
                forall|j: int| 0 <= j < i ==> (#[trigger] self@[j]).0 != dir@,
            decreases self.entries.len() - i,
        {
            assert(self@[i as int].0 == self.entries[i as int].0@);
            if same_text(self.entries[i].0.as_str(), dir) {
                proof {
                    lemma_lookup_at(self@, dir@, i as int);
                }
                return Some(i);
            }
            i += 1;
        }
        None
    }

    /// Pins `dir` to `toolchain`. An earlier entry for `dir` is replaced.
    /// Any text can be pinned: the store that results is read back from
    /// its settings file as it is.
    pub fn set(&mut self, dir: String, toolchain: String)
        ensures
            final(self)@ == with_override(old(self)@, dir@, toolchain@),
            keys_unique(final(self)@),
            lookup(final(self)@, dir@) == Some(toolchain@),
            spec_decode(spec_encode(final(self)@)) == final(self)@,
    {
        let found = self.position(dir.as_str());
        proof {
            lemma_with_override(self@, dir@, toolchain@);
            law_settings_round_trip(with_override(self@, dir@, toolchain@));
        }
        let ghost before = self@;
        let mut entries: Vec<(String, String)> = Vec::new();
        assert(entries.deep_view() =~= Seq::empty());
        std::mem::swap(&mut self.entries, &mut entries);
        match found {
            Some(at) => {
                entries.set(at, (dir, toolchain));
                assert(entries.deep_view() =~= before.update(at as int, (dir@, toolchain@)));
            },
            None => {
                entries.push((dir, toolchain));
                assert(entries.deep_view() =~= before.push((dir@, toolchain@)));
            },
        }
        std::mem::swap(&mut self.entries, &mut entries);
    }

    /// The toolchain that `dir` itself is pinned to. Entries of parent
    /// directories are not considered.
    pub fn get(&self, dir: &str) -> (toolchain: Option<String>)
        ensures
            toolchain.deep_view() == lookup(self@, dir@),
    {
        match self.position(dir) {
            Some(at) => {
                assert(self@[at as int].1 == self.entries[at as int].1@);
                Some(self.entries[at].1.clone())
            },
            None => None,
        }
    }

    /// The text of the settings file for this store: a line
    /// `<directory>;<toolchain>` for each entry, both fields written with
    /// codes for what cannot stand in a field. Read back with
    /// [`OverrideStore::decode`], the text gives this store.
    pub fn encode(&self) -> (text: String)
        ensures
            text@ == spec_encode(self@),
            spec_decode(text@) == self@,
    {
        proof {
            use_type_invariant(self);
            law_settings_round_trip(self@);
        }
        let mut text = String::new();
        let mut i: usize = 0;
        assert(self.entries.deep_view().take(0) =~= Seq::empty());
        while i < self.entries.len()
            invariant
                i <= self.entries.len(),
                text@ == spec_encode(self.entries.deep_view().take(i as int)),
            decreases self.entries.len() - i,
        {
            proof {
                let upto = self.entries.deep_view().take(i + 1);
                assert(upto.drop_last() =~= self.entries.deep_view().take(i as int));
                assert(upto.last() == (self.entries[i as int].0@, self.entries[i as int].1@));
                reveal_strlit(";");
                reveal_strlit("\n");
                assert(";"@ =~= seq![';']);
                assert("\n"@ =~= seq!['\n']);
            }
            let ghost before = text@;
            let dir = escape_text(self.entries[i].0.as_str());
            let toolchain = escape_text(self.entries[i].1.as_str());
            text.append(dir.as_str());
            text.append(";");
            text.append(toolchain.as_str());
            text.append("\n");
            assert(text@ =~= before + encode_entry(
                (self.entries[i as int].0@, self.entries[i as int].1@),
            ));
            i += 1;
        }
        assert(self.entries.deep_view().take(self.entries.len() as int)
            =~= self.entries.deep_view());
        text
    }

    /// Reads a settings file. Lines without a semicolon are passed over;
    /// where a directory comes twice, the later line counts. The codes in
    /// both fields are read as the characters they stand for.
    pub fn decode(text: &str) -> (store: OverrideStore)
        ensures
            store@ == spec_decode(text@),
            keys_unique(store@),
    {
        let chars = to_chars(text);
        let n = chars.len();
        let mut store = OverrideStore::new();
        let mut pos: usize = 0;
        assert(chars@.skip(0) =~= chars@);
        while pos < n
            invariant
                n == chars@.len(),
                chars@ == text@,
                pos <= n,
                decode_onto(store@, chars@.skip(pos as int)) == spec_decode(text@),
            decreases n - pos,
        {
            let ghost left = chars@.skip(pos as int);
            let mut end: usize = pos;
            while end < n && chars[end] != '\n'
                invariant
                    n == chars@.len(),
                    pos <= end <= n,
                    forall|j: int| pos <= j < end ==> chars@[j] != '\n',
                decreases n - end,
            {
                end += 1;
            }
            let mut semi: usize = pos;
            while semi < end && chars[semi] != ';'
                invariant
                    n == chars@.len(),
                    pos <= semi <= end <= n,
                    forall|j: int| pos <= j < semi ==> chars@[j] != ';',
                decreases end - semi,
            {
                semi += 1;
            }
            let ghost line = left.take(end - pos);
            proof {
                lemma_index_of(left, '\n', end - pos);
                assert(line =~= chars@.subrange(pos as int, end as int));
                lemma_index_of(line, ';', semi - pos);
                if end < n {
                    assert(left.skip(end - pos + 1) =~= chars@.skip(end + 1));
                } else {
                    assert(chars@.skip(n as int) =~= Seq::<char>::empty());
                }
            }
            if semi < end {
                let dir_field = text.substring_char(pos, semi);
                let toolchain_field = text.substring_char(semi + 1, end);
                proof {
                    assert(line.take(semi - pos) =~= dir_field@);
                    assert(line.skip(semi - pos + 1) =~= toolchain_field@);
                }
                let dir = unescape_text(dir_field);
                let toolchain = unescape_text(toolchain_field);
                store.set(dir, toolchain);
            }
            pos = if end < n {
                end + 1
            } else {
                n
            };
        }
        assert(chars@.skip(n as int) =~= Seq::<char>::empty());
        proof {
            use_type_invariant(&store);
        }
        store
    }

    /// All entries, in the order in which their directories were first
    /// pinned. No directory occurs twice.
    pub fn list(&self) -> (entries: Vec<(String, String)>)
        ensures
            entries.deep_view() == self@,
            keys_unique(entries.deep_view()),
    {
        proof {
            use_type_invariant(self);
        }
        let mut entries: Vec<(String, String)> = Vec::new();
        let mut i: usize = 0;
        while i < self.entries.len()
            invariant
                i <= self.entries.len(),
                entries.deep_view() == self.entries.deep_view().take(i as int),
            decreases self.entries.len() - i,
        {
            let ghost before = entries.deep_view();
            let dir = self.entries[i].0.clone();
            let toolchain = self.entries[i].1.clone();
            entries.push((dir, toolchain));
            assert(entries.deep_view() =~= before.push(self.entries.deep_view()[i as int]));
            assert(self.entries.deep_view().take(i + 1) =~= before.push(
                self.entries.deep_view()[i as int],
            ));
            i += 1;
        }
        assert(self.entries.deep_view().take(self.entries.len() as int)
            =~= self.entries.deep_view());
        entries
    }
}

/// Whether the toolchain `name` can be used: a custom toolchain must be on
/// disk, a distribution toolchain must have come through the installer.
pub open spec fn resolvable(
    name: Seq<char>,
    exists: bool,
    installed: Option<Result<InstallStatus, String>>,
) -> bool {
    if spec_is_custom(name) {
        exists
    } else {
        installed matches Some(Ok(_))
    }
}

/// What is reported when the toolchain `name` cannot be used: the
/// installer's own report where it ran and failed, else that the toolchain
/// is not installed.
pub open spec fn unresolved_error(
    name: Seq<char>,
    installed: Option<Result<InstallStatus, String>>,
) -> ErrorView {
    match installed {
        Some(Err(report)) if !spec_is_custom(name) => ErrorView::Io(report@),
        _ => ErrorView::ToolchainNotInstalled(name),
    }
}

/// Pins `dir` to the toolchain `name`, provided that the toolchain can be
/// used. Whatever `dir` and `name` hold, the entry is in the settings
/// file that the caller writes with [`OverrideStore::encode`]: a process
/// that reads the file gets the store as this call leaves it.
///
/// `exists` says whether a toolchain of that name is on disk; it decides
/// for a custom toolchain. `installed` is what the external installer
/// answered; it decides for a distribution toolchain, for which the caller
/// runs the installer first (`None`: it was not run). Only a toolchain
/// that can be used is pinned. For any other the store stays as it was,
/// and the error is the installer's report or `ToolchainNotInstalled`.
/// On success the installer's status is handed back, for the caller to show.
pub fn override_add(
    store: &mut OverrideStore,
    dir: &str,
    name: &str,
    exists: bool,
    installed: Option<Result<InstallStatus, String>>,
) -> (added: Result<Option<InstallStatus>, Error>)
    ensures
        added is Ok <==> resolvable(name@, exists, installed),
        match added {
            Ok(status) => final(store)@ == with_override(old(store)@, dir@, name@) && lookup(
                final(store)@,
                dir@,
            ) == Some(name@) && status == match installed {
                Some(Ok(status)) if !spec_is_custom(name@) => Some(status),
                _ => None,
            },
            Err(e) => final(store)@ == old(store)@ && e@ == unresolved_error(name@, installed),
        },
        keys_unique(final(store)@),
        spec_decode(spec_encode(final(store)@)) == final(store)@,
{
    proof {
        use_type_invariant(&*store);
        law_settings_round_trip(store@);
    }
    if is_custom(name) {
        if !exists {
            return Err(Error::ToolchainNotInstalled(String::from_str(name)));
        }
        store.set(String::from_str(dir), String::from_str(name));
        Ok(None)
    } else {
        match installed {
            Some(Ok(status)) => {
                store.set(String::from_str(dir), String::from_str(name));
                Ok(Some(status))
            },
            Some(Err(report)) => Err(Error::Io(report)),
            None => Err(Error::ToolchainNotInstalled(String::from_str(name))),
        }
    }
}

} // verus!
