//! Names of toolchains.
//!
//! A name is either *custom*, an opaque label chosen by the user, or
//! *distribution-qualified*:
//!
//! ```text
//! <channel>[-<date>][-<arch>][-<os>][-<env>]
//! ```
//!
//! where the channel is `nightly`, `beta`, `stable` or a version such as
//! `1.8.0` or `1.10.0`, the date is `YYYY-MM-DD`, and the other three parts
//! come from fixed lists. Each part ends where the name ends or where the
//! next hyphen stands. A name that does not have this form is custom.

use vstd::prelude::*;
use vstd::string::*;
use crate::text::{char_is_digit, is_digit, to_chars};
use crate::toolchain_laws::{law_parsed_name_renders_back, law_rendered_name_parses};

verus! {

/// The channels that have a name.
pub open spec fn named_channels() -> Seq<Seq<char>> {
    seq!["nightly"@, "beta"@, "stable"@]
}

/// The processor architectures that a name may hold.
pub open spec fn known_archs() -> Seq<Seq<char>> {
    seq![
        "i386"@,
        "i586"@,
        "i686"@,
        "x86_64"@,
        "arm"@,
        "armv7"@,
        "armv7s"@,
        "aarch64"@,
        "mips"@,
        "mipsel"@,
        "powerpc"@,
        "powerpc64"@,
        "powerpc64le"@,
    ]
}

/// The operating systems, with their vendor, that a name may hold.
pub open spec fn known_oses() -> Seq<Seq<char>> {
    seq![
        "pc-windows"@,
        "unknown-linux"@,
        "apple-darwin"@,
        "unknown-netbsd"@,
        "apple-ios"@,
        "linux"@,
        "rumprun-netbsd"@,
        "unknown-freebsd"@,
    ]
}

/// The environments (ABIs) that a name may hold.
pub open spec fn known_envs() -> Seq<Seq<char>> {
    seq!["gnu"@, "msvc"@, "gnueabi"@, "gnueabihf"@, "androideabi"@, "musl"@]
}

/// Whether position `end` of `s` closes a part: the name ends there, or a
/// hyphen stands there.
pub open spec fn part_ends(s: Seq<char>, end: int) -> bool {
    end == s.len() || (0 <= end < s.len() && s[end] == '-')
}

/// Whether `word` stands in `s` from position `at` on and is closed there.
pub open spec fn word_at(s: Seq<char>, at: int, word: Seq<char>) -> bool {
    &&& 0 <= at
    &&& at + word.len() <= s.len()
    &&& s.subrange(at, at + word.len()) == word
    &&& part_ends(s, at + word.len())
}

/// The first index, not below `from`, of a word of `words` that stands in
/// `s` at `at`.
pub open spec fn find_word(s: Seq<char>, at: int, words: Seq<Seq<char>>, from: int) -> Option<
    int,
>
    decreases words.len() - from,
{
    if from < 0 || from >= words.len() {
        None
    } else if word_at(s, at, words[from]) {
        Some(from)
    } else {
        find_word(s, at, words, from + 1)
    }
}

/// Whether a version `D.D.D` stands at the start of `s`.
pub open spec fn short_version_at(s: Seq<char>) -> bool {
    &&& 5 <= s.len()
    &&& is_digit(s[0])
    &&& s[1] == '.'
    &&& is_digit(s[2])
    &&& s[3] == '.'
    &&& is_digit(s[4])
    &&& part_ends(s, 5)
}

/// Whether a version `D.DD.D` stands at the start of `s`.
pub open spec fn long_version_at(s: Seq<char>) -> bool {
    &&& 6 <= s.len()
    &&& is_digit(s[0])
    &&& s[1] == '.'
    &&& is_digit(s[2])
    &&& is_digit(s[3])
    &&& s[4] == '.'
    &&& is_digit(s[5])
    &&& part_ends(s, 6)
}

/// The length of the channel that `s` starts with.
pub open spec fn channel_len(s: Seq<char>) -> Option<int> {
    match find_word(s, 0, named_channels(), 0) {
        Some(k) => Some(named_channels()[k].len() as int),
        None => if short_version_at(s) {
            Some(5)
        } else if long_version_at(s) {
            Some(6)
        } else {
            None
        },
    }
}

/// Whether a date `YYYY-MM-DD` stands in `s` from position `at` on.
pub open spec fn date_at(s: Seq<char>, at: int) -> bool {
    &&& 0 <= at
    &&& at + 10 <= s.len()
    &&& is_digit(s[at])
    &&& is_digit(s[at + 1])
    &&& is_digit(s[at + 2])
    &&& is_digit(s[at + 3])
    &&& s[at + 4] == '-'
    &&& is_digit(s[at + 5])
    &&& is_digit(s[at + 6])
    &&& s[at + 7] == '-'
    &&& is_digit(s[at + 8])
    &&& is_digit(s[at + 9])
    &&& part_ends(s, at + 10)
}

/// The date that follows the hyphen at `at`, and where the next part begins.
pub open spec fn optional_date(s: Seq<char>, at: int) -> (Option<Seq<char>>, int) {
    if at < s.len() && date_at(s, at + 1) {
        (Some(s.subrange(at + 1, at + 11)), at + 11)
    } else {
        (None, at)
    }
}

/// The word of `words` that follows the hyphen at `at`, and where the next
/// part begins.
pub open spec fn optional_word(s: Seq<char>, at: int, words: Seq<Seq<char>>) -> (
    Option<Seq<char>>,
    int,
) {
    if at < s.len() {
        match find_word(s, at + 1, words, 0) {
            Some(k) => (Some(words[k]), at + 1 + words[k].len()),
            None => (None, at),
        }
    } else {
        (None, at)
    }
}

/// A distribution-qualified name, taken apart. Any part but the channel may
/// be missing.
#[derive(Clone, Debug, PartialEq, Eq)]
pub struct PartialToolchainDesc {
    pub channel: String,
    pub date: Option<String>,
    pub arch: Option<String>,
    pub os: Option<String>,
    pub env: Option<String>,
}

/// The view of a [`PartialToolchainDesc`].
pub struct DescView {
    pub channel: Seq<char>,
    pub date: Option<Seq<char>>,
    pub arch: Option<Seq<char>>,
    pub os: Option<Seq<char>>,
    pub env: Option<Seq<char>>,
}

impl View for PartialToolchainDesc {
    type V = DescView;

    open spec fn view(&self) -> DescView {
        DescView {
            channel: self.channel@,
            date: self.date.deep_view(),
            arch: self.arch.deep_view(),
            os: self.os.deep_view(),
            env: self.env.deep_view(),
        }
    }
}

/// What a name parses to; `None` for a custom name.
pub open spec fn spec_parse(s: Seq<char>) -> Option<DescView> {
    match channel_len(s) {
        None => None,
        Some(c) => {
            let (date, after_date) = optional_date(s, c);
            let (arch, after_arch) = optional_word(s, after_date, known_archs());
            let (os, after_os) = optional_word(s, after_arch, known_oses());
            let (env, after_env) = optional_word(s, after_os, known_envs());
            if after_env == s.len() {
                Some(DescView { channel: s.subrange(0, c), date, arch, os, env })
            } else {
                None
            }
        },
    }
}

/// A part of a name as it is written: a hyphen and the part, or nothing.
pub open spec fn rendered_part(part: Option<Seq<char>>) -> Seq<char> {
    match part {
        Some(text) => seq!['-'] + text,
        None => Seq::empty(),
    }
}

impl DescView {
    /// The name that these parts spell.
    pub open spec fn rendered(self) -> Seq<char> {
        self.channel + rendered_part(self.date) + rendered_part(self.arch) + rendered_part(
            self.os,
        ) + rendered_part(self.env)
    }

    /// Whether the name lacks the architecture or the operating system.
    /// Such names were used for directories before names were qualified.
    pub open spec fn is_legacy(self) -> bool {
        self.arch is None || self.os is None
    }
}

/// Whether `name` is custom: not of the distribution-qualified form.
pub open spec fn spec_is_custom(name: Seq<char>) -> bool {
    spec_parse(name) is None
}

/// Whether `text` has the shape of a version: `D.D.D` or `D.DD.D`.
pub open spec fn is_version(text: Seq<char>) -> bool {
    ||| {
        &&& text.len() == 5
        &&& is_digit(text[0])
        &&& text[1] == '.'
        &&& is_digit(text[2])
        &&& text[3] == '.'
        &&& is_digit(text[4])
    }
    ||| {
        &&& text.len() == 6
        &&& is_digit(text[0])
        &&& text[1] == '.'
        &&& is_digit(text[2])
        &&& is_digit(text[3])
        &&& text[4] == '.'
        &&& is_digit(text[5])
    }
}

/// Whether `text` has the shape of a date: `YYYY-MM-DD`.
pub open spec fn is_date(text: Seq<char>) -> bool {
    &&& text.len() == 10
    &&& is_digit(text[0])
    &&& is_digit(text[1])
    &&& is_digit(text[2])
    &&& is_digit(text[3])
    &&& text[4] == '-'
    &&& is_digit(text[5])
    &&& is_digit(text[6])
    &&& text[7] == '-'
    &&& is_digit(text[8])
    &&& is_digit(text[9])
}

/// Whether an optional part is one of `words`.
pub open spec fn part_among(part: Option<Seq<char>>, words: Seq<Seq<char>>) -> bool {
    match part {
        Some(word) => words.contains(word),
        None => true,
    }
}

impl DescView {
    /// Whether every part is what it may be: the channel a named channel
    /// or a version, the date a date, the others known words.
    pub open spec fn well_formed(self) -> bool {
        &&& named_channels().contains(self.channel) || is_version(self.channel)
        &&& match self.date {
            Some(date) => is_date(date),
            None => true,
        }
        &&& part_among(self.arch, known_archs())
        &&& part_among(self.os, known_oses())
        &&& part_among(self.env, known_envs())
    }
}

/// The named channels, for matching.
fn channel_words() -> (words: Vec<&'static str>)
    ensures
        words.deep_view() == named_channels(),
{
    let words: Vec<&'static str> = vec!["nightly", "beta", "stable"];
    assert(words.deep_view() =~= named_channels());
    words
}

/// The known architectures, for matching.
fn arch_words() -> (words: Vec<&'static str>)
    ensures
        words.deep_view() == known_archs(),
{
    let words: Vec<&'static str> = vec![
        "i386",
        "i586",
        "i686",
        "x86_64",
        "arm",
        "armv7",
        "armv7s",
        "aarch64",
        "mips",
        "mipsel",
        "powerpc",
        "powerpc64",
        "powerpc64le",
    ];
    assert(words.deep_view() =~= known_archs());
    words
}

/// The known operating systems, for matching.
fn os_words() -> (words: Vec<&'static str>)
    ensures
        words.deep_view() == known_oses(),
{
    let words: Vec<&'static str> = vec![
        "pc-windows",
        "unknown-linux",
        "apple-darwin",
        "unknown-netbsd",
        "apple-ios",
        "linux",
        "rumprun-netbsd",
        "unknown-freebsd",
    ];
    assert(words.deep_view() =~= known_oses());
    words
}

/// The known environments, for matching.
fn env_words() -> (words: Vec<&'static str>)
    ensures
        words.deep_view() == known_envs(),
{
    let words: Vec<&'static str> = vec![
        "gnu",
        "msvc",
        "gnueabi",
        "gnueabihf",
        "androideabi",
        "musl",
    ];
    assert(words.deep_view() =~= known_envs());
    words
}

/// Executable form of [`part_ends`].
fn ends_part(chars: &Vec<char>, end: usize) -> (ends: bool)
    ensures
        ends == part_ends(chars@, end as int),
{
    end == chars.len() || (end < chars.len() && chars[end] == '-')
}

/// Executable form of [`word_at`].
fn has_word_at(chars: &Vec<char>, at: usize, word: &str) -> (has: bool)
    requires
        at <= chars.len(),
    ensures
        has == word_at(chars@, at as int, word@),
{
    let w = to_chars(word);
    if w.len() > chars.len() - at {
        return false;
    }
    let mut i: usize = 0;
    while i < w.len()
        invariant
            w@ == word@,
            at + w.len() <= chars.len(),
            i <= w.len(),
            chars@.subrange(at as int, at + i) == w@.take(i as int),
        decreases w.len() - i,
    {
        if chars[at + i] != w[i] {
            assert(chars@.subrange(at as int, at + w.len())[i as int] != w@[i as int]);
            return false;
        }
        assert(chars@.subrange(at as int, at + i + 1) =~= chars@.subrange(at as int, at + i).push(
            chars@[at + i],
        ));
        assert(w@.take(i + 1) =~= w@.take(i as int).push(w@[i as int]));
        i += 1;
    }
    assert(w@.take(w.len() as int) =~= w@);
    ends_part(chars, at + w.len())
}

/// Executable form of [`find_word`], searching all of `words`.
fn find_word_at(chars: &Vec<char>, at: usize, words: &Vec<&'static str>) -> (found: Option<usize>)
    requires
        at <= chars.len(),
    ensures
        match found {
            Some(k) => k < words.len() && word_at(chars@, at as int, words[k as int]@)
                && find_word(chars@, at as int, words.deep_view(), 0) == Some(k as int),
            None => find_word(chars@, at as int, words.deep_view(), 0) is None,
        },
{
    let mut k: usize = 0;
    while k < words.len()
        invariant
            at <= chars.len(),
            k <= words.len(),
            find_word(chars@, at as int, words.deep_view(), 0) == find_word(
                chars@,
                at as int,
                words.deep_view(),
                k as int,
            ),
        decreases words.len() - k,
    {
        assert(words.deep_view()[k as int] == words[k as int]@);
        if has_word_at(chars, at, words[k]) {
            return Some(k);
        }
        k += 1;
    }
    None
}

/// Executable form of [`optional_word`]: the word is returned by its index.
fn take_word(chars: &Vec<char>, at: usize, words: &Vec<&'static str>) -> (taken: (
    Option<String>,
    usize,
))
    requires
        at <= chars.len(),
    ensures
        (taken.0.deep_view(), taken.1 as int) == optional_word(
            chars@,
            at as int,
            words.deep_view(),
        ),
        taken.1 <= chars.len(),
{
    if at < chars.len() {
        match find_word_at(chars, at + 1, words) {
            Some(k) => {
                assert(words.deep_view()[k as int] == words[k as int]@);
                let word: &str = words[k];
                let n: usize = word.unicode_len();
                (Some(String::from_str(word)), at + 1 + n)
            },
            None => (None, at),
        }
    } else {
        (None, at)
    }
}

/// Executable form of [`date_at`].
fn has_date_at(chars: &Vec<char>, at: usize) -> (has: bool)
    requires
        at <= chars.len(),
    ensures
        has == date_at(chars@, at as int),
{
    if chars.len() - at < 10 {
        return false;
    }
    char_is_digit(chars[at]) && char_is_digit(chars[at + 1]) && char_is_digit(chars[at + 2])
        && char_is_digit(chars[at + 3]) && chars[at + 4] == '-' && char_is_digit(chars[at + 5])
        && char_is_digit(chars[at + 6]) && chars[at + 7] == '-' && char_is_digit(chars[at + 8])
        && char_is_digit(chars[at + 9]) && ends_part(chars, at + 10)
}

/// Executable form of [`channel_len`].
fn channel_length(chars: &Vec<char>) -> (len: Option<usize>)
    ensures
        match len {
            Some(c) => c <= chars.len() && channel_len(chars@) == Some(c as int),
            None => channel_len(chars@) is None,
        },
{
    let names = channel_words();
    match find_word_at(chars, 0, &names) {
        Some(k) => {
            assert(names.deep_view()[k as int] == names[k as int]@);
            Some(names[k].unicode_len())
        },
        None => {
            let n = chars.len();
            if n >= 5 && char_is_digit(chars[0]) && chars[1] == '.' && char_is_digit(chars[2])
                && chars[3] == '.' && char_is_digit(chars[4]) && ends_part(chars, 5) {
                Some(5)
            } else if n >= 6 && char_is_digit(chars[0]) && chars[1] == '.' && char_is_digit(
                chars[2],
            ) && char_is_digit(chars[3]) && chars[4] == '.' && char_is_digit(chars[5])
                && ends_part(chars, 6) {
                Some(6)
            } else {
                None
            }
        },
    }
}

impl PartialToolchainDesc {
    /// Takes a name apart. Returns `None` for a custom name.
    ///
    /// The parts returned are well-formed and spell the name. Where `None`
    /// is returned, no well-formed parts spell it.
    pub fn from_str(name: &str) -> (parsed: Option<PartialToolchainDesc>)
        ensures
            match parsed {
                Some(desc) => spec_parse(name@) == Some(desc@),
                None => spec_parse(name@) is None,
            },
            match parsed {
                Some(desc) => desc@.well_formed() && desc@.rendered() == name@,
                None => forall|d: DescView| d.well_formed() ==> #[trigger] d.rendered() != name@,
            },
    {
        proof {
            if spec_parse(name@) is Some {
                law_parsed_name_renders_back(name@);
            } else {
                assert forall|d: DescView| d.well_formed() implies #[trigger] d.rendered()
                    != name@ by {
                    law_rendered_name_parses(d);
                }
            }
        }
        let chars = to_chars(name);
        let c = match channel_length(&chars) {
            Some(c) => c,
            None => {
                return None;
            },
        };
        let (date, after_date) = if c < chars.len() && has_date_at(&chars, c + 1) {
            (Some(String::from_str(name.substring_char(c + 1, c + 11))), c + 11)
        } else {
            (None, c)
        };
        let (arch, after_arch) = take_word(&chars, after_date, &arch_words());
        let (os, after_os) = take_word(&chars, after_arch, &os_words());
        let (env, after_env) = take_word(&chars, after_os, &env_words());
        if after_env == chars.len() {
            let channel = String::from_str(name.substring_char(0, c));
            Some(PartialToolchainDesc { channel, date, arch, os, env })
        } else {
            None
        }
    }

    /// Whether the name lacks the architecture or the operating system.
    pub fn is_legacy(&self) -> (legacy: bool)
        ensures
            legacy == self@.is_legacy(),
    {
        self.arch.is_none() || self.os.is_none()
    }
}

/// Whether `name` is custom: not of the distribution-qualified form.
pub fn is_custom(name: &str) -> (custom: bool)
    ensures
        custom == spec_is_custom(name@),
{
    PartialToolchainDesc::from_str(name).is_none()
}

} // verus!
