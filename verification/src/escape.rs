//! Writing any text on one line of a file with fields.
//!
//! Three characters cannot stand in a field as they are: the semicolon,
//! which parts the fields, the line end, which parts the lines, and the
//! percent sign, which marks a code. They are written as `%3B`, `%0A` and
//! `%25`. Every other character stands for itself. Reading takes each of
//! the three codes for its character; a percent sign that begins no code
//! is read as a percent sign.

use vstd::prelude::*;
use vstd::string::*;
use crate::text::to_chars;

verus! {

/// How one character is written.
pub open spec fn escaped_char(c: char) -> Seq<char> {
    if c == '%' {
        seq!['%', '2', '5']
    } else if c == ';' {
        seq!['%', '3', 'B']
    } else if c == '\n' {
        seq!['%', '0', 'A']
    } else {
        seq![c]
    }
}

/// How a text is written: character by character.
pub open spec fn escape(s: Seq<char>) -> Seq<char>
    decreases s.len(),
{
    if s.len() == 0 {
        Seq::empty()
    } else {
        escaped_char(s[0]) + escape(s.skip(1))
    }
}

/// The character that the code at the start of `s` stands for, if `s`
/// starts with a code.
pub open spec fn code_at(s: Seq<char>) -> Option<char> {
    if s.len() >= 3 && s[0] == '%' {
        if s[1] == '2' && s[2] == '5' {
            Some('%')
        } else if s[1] == '3' && s[2] == 'B' {
            Some(';')
        } else if s[1] == '0' && s[2] == 'A' {
            Some('\n')
        } else {
            None
        }
    } else {
        None
    }
}

/// What a written text reads as.
pub open spec fn unescape(s: Seq<char>) -> Seq<char>
    decreases s.len(),
{
    if s.len() == 0 {
        Seq::empty()
    } else {
        match code_at(s) {
            Some(c) => seq![c] + unescape(s.skip(3)),
            None => seq![s[0]] + unescape(s.skip(1)),
        }
    }
}

/// Whether `s` holds neither a semicolon nor a line end.
pub open spec fn fits_a_field(s: Seq<char>) -> bool {
    forall|i: int| 0 <= i < s.len() ==> s[i] != ';' && s[i] != '\n'
}

/// A text that is written and read is the text: nothing is lost, whatever
/// the text holds.
pub proof fn law_unescape_escape(s: Seq<char>)
    ensures
        unescape(escape(s)) == s,
    decreases s.len(),
{
    if s.len() > 0 {
        let first = escaped_char(s[0]);
        let rest = escape(s.skip(1));
        let written = first + rest;
        law_unescape_escape(s.skip(1));
        if s[0] == '%' || s[0] == ';' || s[0] == '\n' {
            assert(written[0] == '%' && written[1] == first[1] && written[2] == first[2]);
            assert(code_at(written) == Some(s[0]));
            assert(written.skip(3) =~= rest);
        } else {
            assert(written[0] == s[0]);
            assert(code_at(written) is None);
            assert(written.skip(1) =~= rest);
        }
        assert(seq![s[0]] + s.skip(1) =~= s);
    }
}

/// A written text holds neither a semicolon nor a line end.
pub proof fn lemma_escape_fits_a_field(s: Seq<char>)
    ensures
        fits_a_field(escape(s)),
    decreases s.len(),
{
    if s.len() > 0 {
        lemma_escape_fits_a_field(s.skip(1));
        let first = escaped_char(s[0]);
        let rest = escape(s.skip(1));
        assert forall|i: int| 0 <= i < (first + rest).len() implies (first + rest)[i] != ';' && (
        first + rest)[i] != '\n' by {
            if i >= first.len() {
                assert((first + rest)[i] == rest[i - first.len()]);
            }
        }
    }
}

/// Writing goes on where it stopped: two texts, one after the other, are
/// written as the one and then the other.
pub proof fn lemma_escape_joins(a: Seq<char>, b: Seq<char>)
    ensures
        escape(a + b) == escape(a) + escape(b),
    decreases a.len(),
{
    if a.len() == 0 {
        assert(a + b =~= b);
        assert(escape(a) + escape(b) =~= escape(b));
    } else {
        assert((a + b).skip(1) =~= a.skip(1) + b);
        lemma_escape_joins(a.skip(1), b);
        assert(escaped_char(a[0]) + (escape(a.skip(1)) + escape(b)) =~= (escaped_char(a[0])
            + escape(a.skip(1))) + escape(b));
    }
}

/// Writes `text` so that it fits a field.
pub fn escape_text(text: &str) -> (written: String)
    ensures
        written@ == escape(text@),
        fits_a_field(written@),
{
    let chars = to_chars(text);
    let mut written = String::new();
    let mut i: usize = 0;
    assert(chars@.take(0) =~= Seq::empty());
    while i < chars.len()
        invariant
            chars@ == text@,
            i <= chars.len(),
            written@ == escape(chars@.take(i as int)),
        decreases chars.len() - i,
    {
        let c = chars[i];
        proof {
            reveal_strlit("%25");
            reveal_strlit("%3B");
            reveal_strlit("%0A");
            assert("%25"@ =~= seq!['%', '2', '5']);
            assert("%3B"@ =~= seq!['%', '3', 'B']);
            assert("%0A"@ =~= seq!['%', '0', 'A']);
            assert(chars@.take(i + 1) =~= chars@.take(i as int) + seq![c]);
            lemma_escape_joins(chars@.take(i as int), seq![c]);
            assert(seq![c].skip(1) =~= Seq::<char>::empty());
            assert(escape(seq![c].skip(1)) =~= Seq::<char>::empty());
            assert(escape(seq![c]) =~= escaped_char(c));
            assert(text@.subrange(i as int, i + 1) =~= seq![c]);
        }
        if c == '%' {
            written.append("%25");
        } else if c == ';' {
            written.append("%3B");
        } else if c == '\n' {
            written.append("%0A");
        } else {
            written.append(text.substring_char(i, i + 1));
        }
        i += 1;
    }
    proof {
        assert(chars@.take(chars.len() as int) =~= chars@);
        lemma_escape_fits_a_field(text@);
    }
    written
}

/// Reads what was written into a field.
pub fn unescape_text(written: &str) -> (text: String)
    ensures
        text@ == unescape(written@),
{
    let chars = to_chars(written);
    let n = chars.len();
    let mut text = String::new();
    let mut i: usize = 0;
    assert(chars@.skip(0) =~= chars@);
    while i < n
        invariant
            chars@ == written@,
            n == chars@.len(),
            i <= n,
            text@ + unescape(chars@.skip(i as int)) == unescape(written@),
        decreases n - i,
    {
        let ghost left = chars@.skip(i as int);
        let ghost before = text@;
        proof {
            reveal_strlit("%");
            reveal_strlit(";");
            reveal_strlit("\n");
            assert("%"@ =~= seq!['%']);
            assert(";"@ =~= seq![';']);
            assert("\n"@ =~= seq!['\n']);
            assert(left[0] == chars@[i as int]);
            if n - i >= 3 {
                assert(left[1] == chars@[i + 1] && left[2] == chars@[i + 2]);
                assert(left.skip(3) =~= chars@.skip(i + 3));
            }
            assert(left.skip(1) =~= chars@.skip(i + 1));
            assert(written@.subrange(i as int, i + 1) =~= seq![left[0]]);
        }
        let coded = n - i >= 3 && chars[i] == '%';
        if coded && chars[i + 1] == '2' && chars[i + 2] == '5' {
            text.append("%");
            i += 3;
        } else if coded && chars[i + 1] == '3' && chars[i + 2] == 'B' {
            text.append(";");
            i += 3;
        } else if coded && chars[i + 1] == '0' && chars[i + 2] == 'A' {
            text.append("\n");
            i += 3;
        } else {
            text.append(written.substring_char(i, i + 1));
            i += 1;
        }
        assert(text@ + unescape(chars@.skip(i as int)) =~= before + unescape(left));
    }
    assert(chars@.skip(n as int) =~= Seq::<char>::empty());
    assert(text@ + Seq::<char>::empty() =~= text@);
    text
}

} // verus!
