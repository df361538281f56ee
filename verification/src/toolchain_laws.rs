//! What the grammar of toolchain names amounts to.
//!
//! The parser reads a name from left to right and takes each part where it
//! finds one. The two laws of this module say that this is the same as
//! spelling: a name parses into some parts if and only if these parts are
//! well-formed and spell the name.

use vstd::prelude::*;
use crate::text::is_digit;
use crate::toolchain::{
    channel_len,
    find_word,
    is_date,
    is_version,
    known_archs,
    known_envs,
    known_oses,
    named_channels,
    optional_date,
    optional_word,
    part_among,
    part_ends,
    rendered_part,
    spec_parse,
    word_at,
    DescView,
};

verus! {

/// All words that may follow channel and date, in the order of their parts.
spec fn all_words() -> Seq<Seq<char>> {
    known_archs() + known_oses() + known_envs()
}

/// Whether `short` is what `long` holds before one of its hyphens. Two
/// different words can stand at one place only if one is so related to
/// the other.
spec fn clash(short: Seq<char>, long: Seq<char>) -> bool {
    &&& short.len() < long.len()
    &&& long[short.len() as int] == '-'
    &&& long.take(short.len() as int) == short
}

/// Whether the words differ from each other and none clashes with another.
spec fn clash_free(words: Seq<Seq<char>>) -> bool {
    forall|i: int, j: int|
        0 <= i < words.len() && 0 <= j < words.len() && i != j ==> #[trigger] words[i]
            != #[trigger] words[j] && !clash(words[i], words[j])
}

/// Whether `text` is empty or begins with a hyphen, as everything does
/// that is written behind a part.
spec fn hyphen_led(text: Seq<char>) -> bool {
    text.len() == 0 || text[0] == '-'
}

/// Whether the name ends at `at`, or a word of [`all_words`] with a
/// position of `lo` or more stands behind the hyphen at `at`.
spec fn word_behind(s: Seq<char>, at: int, lo: int) -> bool {
    at == s.len() || exists|m: int| lo <= m < 27 && word_at(s, at + 1, #[trigger] all_words()[m])
}

/// A word found by [`find_word`] is a word of the list and stands at the
/// place searched.
proof fn lemma_found_word(s: Seq<char>, at: int, words: Seq<Seq<char>>, from: int)
    requires
        find_word(s, at, words, from) is Some,
    ensures
        from <= find_word(s, at, words, from).unwrap() < words.len(),
        word_at(s, at, words[find_word(s, at, words, from).unwrap()]),
    decreases words.len() - from,
{
    if 0 <= from < words.len() && !word_at(s, at, words[from]) {
        lemma_found_word(s, at, words, from + 1);
    }
}

/// The length found by [`channel_len`] ends the channel inside the name.
proof fn lemma_channel_ends(s: Seq<char>)
    requires
        channel_len(s) is Some,
    ensures
        0 < channel_len(s).unwrap() <= s.len(),
        part_ends(s, channel_len(s).unwrap()),
{
    if find_word(s, 0, named_channels(), 0) is Some {
        lemma_found_word(s, 0, named_channels(), 0);
        reveal_strlit("nightly");
        reveal_strlit("beta");
        reveal_strlit("stable");
    }
}

/// The part taken by [`optional_word`] is what the name holds there: from
/// a place where a part ends to another such place. It is one of the words.
proof fn lemma_optional_word(s: Seq<char>, at: int, words: Seq<Seq<char>>)
    requires
        0 <= at <= s.len(),
        part_ends(s, at),
    ensures
        at <= optional_word(s, at, words).1 <= s.len(),
        part_ends(s, optional_word(s, at, words).1),
        rendered_part(optional_word(s, at, words).0) == s.subrange(
            at,
            optional_word(s, at, words).1,
        ),
        part_among(optional_word(s, at, words).0, words),
{
    let (word, next) = optional_word(s, at, words);
    if at < s.len() && find_word(s, at + 1, words, 0) is Some {
        lemma_found_word(s, at + 1, words, 0);
        assert(rendered_part(word) =~= s.subrange(at, next));
    } else {
        assert(rendered_part(word) =~= s.subrange(at, next));
    }
}

/// A name that parses is spelled by its parts: nothing of it is dropped,
/// and nothing is made up. The parts are well-formed.
pub proof fn law_parsed_name_renders_back(s: Seq<char>)
    requires
        spec_parse(s) is Some,
    ensures
        spec_parse(s).unwrap().rendered() == s,
        spec_parse(s).unwrap().well_formed(),
{
    let c = channel_len(s).unwrap();
    lemma_channel_ends(s);
    let channel = s.subrange(0, c);
    if find_word(s, 0, named_channels(), 0) is Some {
        lemma_found_word(s, 0, named_channels(), 0);
    } else {
        assert(channel[0] == s[0] && channel[1] == s[1] && channel[2] == s[2] && channel[3]
            == s[3] && channel[4] == s[4]);
        if c == 6 {
            assert(channel[5] == s[5]);
        }
        assert(is_version(channel));
    }
    let (date, after_date) = optional_date(s, c);
    assert(rendered_part(date) =~= s.subrange(c, after_date));
    if date is Some {
        let text = s.subrange(c + 1, c + 11);
        assert(text[0] == s[c + 1] && text[1] == s[c + 2] && text[2] == s[c + 3] && text[3]
            == s[c + 4] && text[4] == s[c + 5] && text[5] == s[c + 6] && text[6] == s[c + 7]
            && text[7] == s[c + 8] && text[8] == s[c + 9] && text[9] == s[c + 10]);
    }
    lemma_optional_word(s, after_date, known_archs());
    let (arch, after_arch) = optional_word(s, after_date, known_archs());
    lemma_optional_word(s, after_arch, known_oses());
    let (os, after_os) = optional_word(s, after_arch, known_oses());
    lemma_optional_word(s, after_os, known_envs());
    let (env, after_env) = optional_word(s, after_os, known_envs());
    assert(s.subrange(0, c) + s.subrange(c, after_date) + s.subrange(after_date, after_arch)
        + s.subrange(after_arch, after_os) + s.subrange(after_os, after_env) =~= s);
}

/// Two words that stand at one place are the same word, or they clash.
proof fn lemma_two_words_at_one_place(s: Seq<char>, at: int, u: Seq<char>, v: Seq<char>)
    requires
        word_at(s, at, u),
        word_at(s, at, v),
    ensures
        u == v || clash(u, v) || clash(v, u),
{
    if u.len() == v.len() {
        assert(u =~= v);
    } else if u.len() < v.len() {
        assert(s.subrange(at, at + v.len())[u.len() as int] == s[at + u.len()]);
        assert(v.take(u.len() as int) =~= s.subrange(at, at + u.len()));
    } else {
        assert(s.subrange(at, at + u.len())[v.len() as int] == s[at + v.len()]);
        assert(u.take(v.len() as int) =~= s.subrange(at, at + v.len()));
    }
}

/// The search finds the first word that stands at the place.
proof fn lemma_find_word_is(s: Seq<char>, at: int, words: Seq<Seq<char>>, from: int, k: int)
    requires
        0 <= from <= k < words.len(),
        word_at(s, at, words[k]),
        forall|j: int| from <= j < k ==> !word_at(s, at, #[trigger] words[j]),
    ensures
        find_word(s, at, words, from) == Some(k),
    decreases k - from,
{
    if from < k {
        lemma_find_word_is(s, at, words, from + 1, k);
    }
}

/// The search finds nothing where no word stands.
proof fn lemma_find_word_none(s: Seq<char>, at: int, words: Seq<Seq<char>>, from: int)
    requires
        0 <= from,
        forall|j: int| from <= j < words.len() ==> !word_at(s, at, #[trigger] words[j]),
    ensures
        find_word(s, at, words, from) is None,
    decreases words.len() - from,
{
    if from < words.len() {
        lemma_find_word_none(s, at, words, from + 1);
    }
}

/// Where a word of a clash-free list stands, a search in a part of that
/// list finds this word if it is of that part, and nothing if it is not.
proof fn lemma_find_in_sublist(
    s: Seq<char>,
    at: int,
    all: Seq<Seq<char>>,
    lo: int,
    hi: int,
    m: int,
)
    requires
        clash_free(all),
        0 <= lo <= hi <= all.len(),
        0 <= m < all.len(),
        word_at(s, at, all[m]),
    ensures
        find_word(s, at, all.subrange(lo, hi), 0) == if lo <= m < hi {
            Some(m - lo)
        } else {
            None
        },
{
    let words = all.subrange(lo, hi);
    assert forall|j: int| 0 <= j < words.len() && lo + j != m implies !word_at(
        s,
        at,
        #[trigger] words[j],
    ) by {
        assert(words[j] == all[lo + j]);
        if word_at(s, at, all[lo + j]) {
            lemma_two_words_at_one_place(s, at, all[lo + j], all[m]);
        }
    }
    if lo <= m < hi {
        assert(words[m - lo] == all[m]);
        lemma_find_word_is(s, at, words, 0, m - lo);
    } else {
        lemma_find_word_none(s, at, words, 0);
    }
}

/// The named channels differ from each other, hold no hyphen and begin
/// with a letter.
proof fn lemma_channel_words()
    ensures
        named_channels().len() == 3,
        clash_free(named_channels()),
        forall|k: int|
            0 <= k < named_channels().len() ==> (#[trigger] named_channels()[k]).len() > 0
                && !is_digit(named_channels()[k][0]),
{
    reveal_strlit("nightly");
    reveal_strlit("beta");
    reveal_strlit("stable");
    let names = named_channels();
    assert(names[0] == "nightly"@ && names[1] == "beta"@ && names[2] == "stable"@);
    assert(names[0][0] == 'n' && names[1][0] == 'b' && names[2][0] == 's');
}

/// One word of [`all_words`] differs from every other and clashes with
/// none; it is not empty and begins with no digit.
proof fn lemma_word_apart(i: int)
    requires
        0 <= i < 27,
    ensures
        all_words().len() == 27,
        all_words()[i].len() > 0,
        !is_digit(all_words()[i][0]),
        forall|j: int|
            0 <= j < 27 && i != j ==> all_words()[i] != #[trigger] all_words()[j] && !clash(
                all_words()[i],
                all_words()[j],
            ),
{
    reveal_strlit("i386");
    reveal_strlit("i586");
    reveal_strlit("i686");
    reveal_strlit("x86_64");
    reveal_strlit("arm");
    reveal_strlit("armv7");
    reveal_strlit("armv7s");
    reveal_strlit("aarch64");
    reveal_strlit("mips");
    reveal_strlit("mipsel");
    reveal_strlit("powerpc");
    reveal_strlit("powerpc64");
    reveal_strlit("powerpc64le");
    reveal_strlit("pc-windows");
    reveal_strlit("unknown-linux");
    reveal_strlit("apple-darwin");
    reveal_strlit("unknown-netbsd");
    reveal_strlit("apple-ios");
    reveal_strlit("linux");
    reveal_strlit("rumprun-netbsd");
    reveal_strlit("unknown-freebsd");
    reveal_strlit("gnu");
    reveal_strlit("msvc");
    reveal_strlit("gnueabi");
    reveal_strlit("gnueabihf");
    reveal_strlit("androideabi");
    reveal_strlit("musl");
    let all = all_words();
    assert(all.len() == 27);
    assert(all[0] == "i386"@ && all[1] == "i586"@ && all[2] == "i686"@ && all[3] == "x86_64"@
        && all[4] == "arm"@ && all[5] == "armv7"@ && all[6] == "armv7s"@ && all[7] == "aarch64"@
        && all[8] == "mips"@ && all[9] == "mipsel"@ && all[10] == "powerpc"@ && all[11]
        == "powerpc64"@ && all[12] == "powerpc64le"@);
    assert(all[13] == "pc-windows"@ && all[14] == "unknown-linux"@ && all[15] == "apple-darwin"@
        && all[16] == "unknown-netbsd"@ && all[17] == "apple-ios"@ && all[18] == "linux"@
        && all[19] == "rumprun-netbsd"@ && all[20] == "unknown-freebsd"@);
    assert(all[21] == "gnu"@ && all[22] == "msvc"@ && all[23] == "gnueabi"@ && all[24]
        == "gnueabihf"@ && all[25] == "androideabi"@ && all[26] == "musl"@);
    assert(all[0].len() == 4 && all[0][0] == 'i' && all[0][1] == '3');
    assert(all[1].len() == 4 && all[1][0] == 'i' && all[1][1] == '5');
    assert(all[2].len() == 4 && all[2][0] == 'i' && all[2][1] == '6');
    assert(all[3].len() == 6 && all[3][0] == 'x' && all[3][1] == '8');
    assert(all[4].len() == 3 && all[4][0] == 'a' && all[4][1] == 'r');
    assert(all[5].len() == 5 && all[5][0] == 'a' && all[5][1] == 'r');
    assert(all[6].len() == 6 && all[6][0] == 'a' && all[6][1] == 'r');
    assert(all[7].len() == 7 && all[7][0] == 'a' && all[7][1] == 'a');
    assert(all[8].len() == 4 && all[8][0] == 'm' && all[8][1] == 'i');
    assert(all[9].len() == 6 && all[9][0] == 'm' && all[9][1] == 'i');
    assert(all[10].len() == 7 && all[10][0] == 'p' && all[10][1] == 'o');
    assert(all[11].len() == 9 && all[11][0] == 'p' && all[11][1] == 'o');
    assert(all[12].len() == 11 && all[12][0] == 'p' && all[12][1] == 'o');
    assert(all[13].len() == 10 && all[13][0] == 'p' && all[13][1] == 'c');
    assert(all[14].len() == 13 && all[14][0] == 'u' && all[14][1] == 'n');
    assert(all[15].len() == 12 && all[15][0] == 'a' && all[15][1] == 'p');
    assert(all[16].len() == 14 && all[16][0] == 'u' && all[16][1] == 'n');
    assert(all[17].len() == 9 && all[17][0] == 'a' && all[17][1] == 'p');
    assert(all[18].len() == 5 && all[18][0] == 'l' && all[18][1] == 'i');
    assert(all[19].len() == 14 && all[19][0] == 'r' && all[19][1] == 'u');
    assert(all[20].len() == 15 && all[20][0] == 'u' && all[20][1] == 'n');
    assert(all[21].len() == 3 && all[21][0] == 'g' && all[21][1] == 'n');
    assert(all[22].len() == 4 && all[22][0] == 'm' && all[22][1] == 's');
    assert(all[23].len() == 7 && all[23][0] == 'g' && all[23][1] == 'n');
    assert(all[24].len() == 9 && all[24][0] == 'g' && all[24][1] == 'n');
    assert(all[25].len() == 11 && all[25][0] == 'a' && all[25][1] == 'n');
    assert(all[26].len() == 4 && all[26][0] == 'm' && all[26][1] == 'u');
    assert forall|j: int| 0 <= j < 27 && i != j implies all[i] != #[trigger] all[j] && !clash(
        all[i],
        all[j],
    ) by {
        let u = all[i];
        let v = all[j];
        assert(u.len() != v.len() || u[0] != v[0] || u[1] != v[1]);
        if u.len() < v.len() && v.take(u.len() as int) == u {
            assert(v.take(u.len() as int)[0] == v[0]);
            assert(v.take(u.len() as int)[1] == v[1]);
            assert(v[u.len() as int] != '-');
        }
    }
}

/// The words of [`all_words`] differ from each other, and none clashes
/// with another. None is empty or begins with a digit.
proof fn lemma_words_apart()
    ensures
        all_words().len() == 27,
        clash_free(all_words()),
        forall|m: int|
            0 <= m < 27 ==> (#[trigger] all_words()[m]).len() > 0 && !is_digit(all_words()[m][0]),
{
    assert forall|i: int, j: int|
        0 <= i < all_words().len() && 0 <= j < all_words().len() && i != j implies #[trigger] all_words()[i]
        != #[trigger] all_words()[j] && !clash(all_words()[i], all_words()[j]) by {
        lemma_word_apart(i);
    }
    assert forall|m: int| 0 <= m < 27 implies (#[trigger] all_words()[m]).len() > 0 && !is_digit(
        all_words()[m][0],
    ) by {
        lemma_word_apart(m);
    }
    lemma_word_apart(0);
}

/// The three lists are the three parts of [`all_words`].
proof fn lemma_word_lists()
    ensures
        all_words().len() == 27,
        known_archs() == all_words().subrange(0, 13),
        known_oses() == all_words().subrange(13, 21),
        known_envs() == all_words().subrange(21, 27),
{
    assert(known_archs() =~= all_words().subrange(0, 13));
    assert(known_oses() =~= all_words().subrange(13, 21));
    assert(known_envs() =~= all_words().subrange(21, 27));
}

/// Where the rest of a name is a written part and more text behind it,
/// the part ends where it should, and a part that is there stands behind
/// its hyphen.
proof fn lemma_part_stands(s: Seq<char>, at: int, part: Option<Seq<char>>, rest: Seq<char>)
    requires
        0 <= at <= s.len(),
        s.skip(at) == rendered_part(part) + rest,
        hyphen_led(rest),
    ensures
        part_ends(s, at),
        at + rendered_part(part).len() <= s.len(),
        s.skip(at + rendered_part(part).len()) == rest,
        part_ends(s, at + rendered_part(part).len()),
        match part {
            Some(word) => at < s.len() && word_at(s, at + 1, word),
            None => true,
        },
{
    let tail = s.skip(at);
    let written = rendered_part(part);
    assert(tail.len() == written.len() + rest.len());
    assert(s.skip(at + written.len()) =~= rest) by {
        assert forall|i: int| 0 <= i < rest.len() implies s.skip(at + written.len())[i]
            == rest[i] by {
            assert(tail[written.len() + i] == rest[i]);
        }
    }
    if rest.len() > 0 {
        assert(tail[written.len() as int] == rest[0]);
    }
    match part {
        Some(word) => {
            assert(tail[0] == '-');
            assert(s.subrange(at + 1, at + 1 + word.len()) =~= word) by {
                assert forall|i: int| 0 <= i < word.len() implies s.subrange(
                    at + 1,
                    at + 1 + word.len(),
                )[i] == word[i] by {
                    assert(tail[i + 1] == word[i]);
                }
            }
        },
        None => {
            if tail.len() > 0 {
                assert(tail[0] == rest[0]);
            }
        },
    }
}

/// What stands behind a stage: the part of the stage if it is there, else
/// what stands behind the next stage.
proof fn lemma_word_behind(s: Seq<char>, at: int, part: Option<Seq<char>>, lo: int, hi: int)
    requires
        0 <= lo <= hi <= 27,
        match part {
            Some(word) => all_words().subrange(lo, hi).contains(word) && word_at(s, at + 1, word),
            None => word_behind(s, at, hi),
        },
    ensures
        word_behind(s, at, lo),
{
    match part {
        Some(word) => {
            let words = all_words().subrange(lo, hi);
            let k = choose|k: int| 0 <= k < words.len() && words[k] == word;
            assert(all_words()[lo + k] == word);
        },
        None => {
            if at != s.len() {
                let m = choose|m: int| hi <= m < 27 && word_at(s, at + 1, #[trigger] all_words()[m]);
                assert(lo <= m < 27 && word_at(s, at + 1, all_words()[m]));
            }
        },
    }
}

/// A part that is one of the words of a stage is taken at that stage, and
/// a part that is missing is not made up from what follows.
proof fn lemma_stage_takes_part(
    s: Seq<char>,
    at: int,
    part: Option<Seq<char>>,
    lo: int,
    hi: int,
)
    requires
        0 <= at <= s.len(),
        0 <= lo <= hi <= 27,
        match part {
            Some(word) => all_words().subrange(lo, hi).contains(word) && at < s.len() && word_at(
                s,
                at + 1,
                word,
            ),
            None => word_behind(s, at, hi),
        },
    ensures
        optional_word(s, at, all_words().subrange(lo, hi)) == (
            part,
            at + rendered_part(part).len(),
        ),
{
    lemma_words_apart();
    let words = all_words().subrange(lo, hi);
    match part {
        Some(word) => {
            let k = choose|k: int| 0 <= k < words.len() && words[k] == word;
            assert(all_words()[lo + k] == word);
            lemma_find_in_sublist(s, at + 1, all_words(), lo, hi, lo + k);
        },
        None => {
            if at < s.len() {
                let m = choose|m: int| hi <= m < 27 && word_at(s, at + 1, #[trigger] all_words()[m]);
                lemma_find_in_sublist(s, at + 1, all_words(), lo, hi, m);
            }
        },
    }
}

/// A channel that stands at the start of a name is found there, in its
/// full length.
proof fn lemma_channel_stage(s: Seq<char>, channel: Seq<char>)
    requires
        named_channels().contains(channel) || is_version(channel),
        channel.len() <= s.len(),
        s.subrange(0, channel.len() as int) == channel,
        part_ends(s, channel.len() as int),
    ensures
        channel_len(s) == Some(channel.len() as int),
{
    lemma_channel_words();
    let c = channel.len() as int;
    if named_channels().contains(channel) {
        let k = choose|k: int| 0 <= k < named_channels().len() && named_channels()[k] == channel;
        assert(word_at(s, 0, named_channels()[k]));
        assert(named_channels().subrange(0, 3) =~= named_channels());
        lemma_find_in_sublist(s, 0, named_channels(), 0, 3, k);
    } else {
        assert forall|i: int| 0 <= i < c implies s[i] == channel[i] by {
            assert(s.subrange(0, c)[i] == s[i]);
        }
        assert forall|j: int| 0 <= j < named_channels().len() implies !word_at(
            s,
            0,
            #[trigger] named_channels()[j],
        ) by {
            let w = named_channels()[j];
            if word_at(s, 0, w) {
                assert(s.subrange(0, w.len() as int)[0] == s[0]);
                assert(s[0] == channel[0]);
            }
        }
        lemma_find_word_none(s, 0, named_channels(), 0);
        assert(s[0] == channel[0] && s[1] == channel[1] && s[2] == channel[2] && s[3]
            == channel[3] && s[4] == channel[4]);
        if c == 6 {
            assert(s[5] == channel[5]);
        }
    }
}

/// A date that stands behind the channel is taken, and a date that is
/// missing is not made up from the word that follows.
proof fn lemma_date_stage(s: Seq<char>, at: int, date: Option<Seq<char>>)
    requires
        0 <= at <= s.len(),
        match date {
            Some(text) => is_date(text) && at < s.len() && word_at(s, at + 1, text),
            None => word_behind(s, at, 0),
        },
    ensures
        optional_date(s, at) == (date, at + rendered_part(date).len()),
{
    match date {
        Some(text) => {
            assert(s.subrange(at + 1, at + 11) =~= text);
            assert forall|i: int| 0 <= i < 10 implies s[at + 1 + i] == text[i] by {
                assert(s.subrange(at + 1, at + 11)[i] == s[at + 1 + i]);
            }
            assert(s[at + 1] == text[0] && s[at + 2] == text[1] && s[at + 3] == text[2] && s[at
                + 4] == text[3] && s[at + 5] == text[4] && s[at + 6] == text[5] && s[at + 7]
                == text[6] && s[at + 8] == text[7] && s[at + 9] == text[8] && s[at + 10]
                == text[9]);
        },
        None => {
            if at < s.len() {
                lemma_words_apart();
                let m = choose|m: int| 0 <= m < 27 && word_at(s, at + 1, #[trigger] all_words()[m]);
                let w = all_words()[m];
                assert(s.subrange(at + 1, at + 1 + w.len())[0] == s[at + 1]);
                assert(!is_digit(s[at + 1]));
            }
        },
    }
}

/// Joining texts does not depend on how they are grouped.
proof fn lemma_join_regroups(a: Seq<char>, b: Seq<char>, c: Seq<char>)
    ensures
        (a + b) + c == a + (b + c),
{
    assert((a + b) + c =~= a + (b + c));
}

/// What a name holds behind its first part.
proof fn lemma_behind_first(s: Seq<char>, first: Seq<char>, rest: Seq<char>)
    requires
        s == first + rest,
    ensures
        s.subrange(0, first.len() as int) == first,
        s.skip(first.len() as int) == rest,
{
    assert(s.subrange(0, first.len() as int) =~= first);
    assert(s.skip(first.len() as int) =~= rest);
}

/// Where the parts of a well-formed name stand in its spelling.
proof fn lemma_layout(d: DescView)
    requires
        d.well_formed(),
    ensures
        ({
            let s = d.rendered();
            let c = d.channel.len() as int;
            let after_date = c + rendered_part(d.date).len();
            let after_arch = after_date + rendered_part(d.arch).len();
            let after_os = after_arch + rendered_part(d.os).len();
            &&& c <= after_date <= after_arch <= after_os <= s.len()
            &&& after_os + rendered_part(d.env).len() == s.len()
            &&& s.subrange(0, c) == d.channel
            &&& part_ends(s, c)
            &&& (d.date matches Some(w) ==> c < s.len() && word_at(s, c + 1, w))
            &&& (d.arch matches Some(w) ==> after_date < s.len() && word_at(s, after_date + 1, w))
            &&& (d.os matches Some(w) ==> after_arch < s.len() && word_at(s, after_arch + 1, w))
            &&& (d.env matches Some(w) ==> after_os < s.len() && word_at(s, after_os + 1, w))
        }),
{
    let s = d.rendered();
    let date = rendered_part(d.date);
    let arch = rendered_part(d.arch);
    let os = rendered_part(d.os);
    let env = rendered_part(d.env);
    let from_os = os + env;
    let from_arch = arch + from_os;
    let from_date = date + from_arch;
    let c = d.channel.len() as int;
    let after_date = c + date.len();
    let after_arch = after_date + arch.len();
    let after_os = after_arch + os.len();
    assert(s == d.channel + from_date) by {
        lemma_join_regroups(d.channel + date + arch, os, env);
        lemma_join_regroups(d.channel + date, arch, from_os);
        lemma_join_regroups(d.channel, date, from_arch);
    }
    lemma_behind_first(s, d.channel, from_date);
    assert(hyphen_led(env));
    assert(hyphen_led(from_os));
    assert(hyphen_led(from_arch));
    lemma_part_stands(s, c, d.date, from_arch);
    lemma_part_stands(s, after_date, d.arch, from_os);
    lemma_part_stands(s, after_arch, d.os, env);
    assert(env =~= env + Seq::<char>::empty());
    lemma_part_stands(s, after_os, d.env, Seq::empty());
}

/// A name that is spelled by well-formed parts parses into those parts.
/// With [`law_parsed_name_renders_back`], parsing and spelling undo each
/// other: the distribution-qualified names are the spellings of
/// well-formed parts, each of exactly one.
pub proof fn law_rendered_name_parses(d: DescView)
    requires
        d.well_formed(),
    ensures
        spec_parse(d.rendered()) == Some(d),
{
    let s = d.rendered();
    let c = d.channel.len() as int;
    let after_date = c + rendered_part(d.date).len();
    let after_arch = after_date + rendered_part(d.arch).len();
    let after_os = after_arch + rendered_part(d.os).len();
    lemma_layout(d);
    lemma_word_lists();
    lemma_channel_stage(s, d.channel);
    lemma_word_behind(s, after_os, d.env, 21, 27);
    lemma_word_behind(s, after_arch, d.os, 13, 21);
    lemma_word_behind(s, after_date, d.arch, 0, 13);
    lemma_date_stage(s, c, d.date);
    lemma_stage_takes_part(s, after_date, d.arch, 0, 13);
    lemma_stage_takes_part(s, after_arch, d.os, 13, 21);
    lemma_stage_takes_part(s, after_os, d.env, 21, 27);
}

/// Parsing undoes spelling, and nothing else parses: a name parses into
/// `d` exactly when `d` is well-formed and spells the name.
pub proof fn law_parsing_inverts_spelling(s: Seq<char>, d: DescView)
    ensures
        spec_parse(s) == Some(d) <==> d.well_formed() && d.rendered() == s,
{
    if spec_parse(s) == Some(d) {
        law_parsed_name_renders_back(s);
    }
    if d.well_formed() && d.rendered() == s {
        law_rendered_name_parses(d);
    }
}

} // verus!
