//! Text handling for player input: comparing, trimming and lowercasing.
//!
//! White space and lowercase are Unicode's, as the standard library knows
//! them. For ASCII both are short enough to say in full, and are said here.
//! Beyond ASCII they are tables too long to restate, and appear under a name
//! each: [`unicode_white_space`] and [`unicode_lowercase`].

use vstd::prelude::*;
use vstd::std_specs::iter::IteratorSpec;
use vstd::string::StrSliceExecFns;
use vstd::utf8::is_ascii_chars;

verus! {

/// Whether `c` is white space to `char::is_whitespace`, that is, whether it
/// has Unicode's White_Space property.
pub uninterp spec fn unicode_white_space(c: char) -> bool;

/// The text that `str::to_lowercase` makes of `text`.
pub uninterp spec fn unicode_lowercase(text: Seq<char>) -> Seq<char>;

/// Calls `char::is_whitespace`. Nothing is claimed of the answer but that it
/// is the one [`unicode_white_space`] stands for.
#[verifier::external_body]
fn is_whitespace(c: char) -> (answer: bool)
    ensures
        answer == unicode_white_space(c),
{
    c.is_whitespace()
}

/// Calls `str::to_lowercase`. Nothing is claimed of the new string but that
/// it holds the text [`unicode_lowercase`] stands for.
#[verifier::external_body]
fn to_lowercase(text: &str) -> (lower: String)
    ensures
        lower@ == unicode_lowercase(text@),
{
    text.to_lowercase()
}

/// Calls `str::to_ascii_lowercase`, which gives a copy of the text in which
/// the letters `A` to `Z` have become `a` to `z` and every other character,
/// ASCII or not, is as it was.
#[verifier::external_body]
fn to_ascii_lowercase(text: &str) -> (lower: String)
    ensures
        lower@ == ascii_lowercase(text@),
{
    text.to_ascii_lowercase()
}

/// Whether `c` is white space: a space or one of the five controls from tab
/// to carriage return if it is ASCII, and what Unicode says if it is not.
pub open spec fn white_space(c: char) -> bool {
    if c <= '\u{7f}' {
        c == ' ' || '\t' <= c <= '\r'
    } else {
        unicode_white_space(c)
    }
}

/// `c` in lowercase if it is one of the letters `A` to `Z`, and `c` itself
/// if it is anything else.
pub open spec fn ascii_lower(c: char) -> char {
    if 'A' <= c <= 'Z' {
        ((c as u8 + 32) as u8) as char
    } else {
        c
    }
}

/// `text` with each of the letters `A` to `Z` in lowercase.
pub open spec fn ascii_lowercase(text: Seq<char>) -> Seq<char> {
    Seq::new(text.len(), |i: int| ascii_lower(text[i]))
}

/// `text` in lowercase: letter by letter if it is all ASCII, and as Unicode
/// has it if it is not.
pub open spec fn lowercase(text: Seq<char>) -> Seq<char> {
    if is_ascii_chars(text) {
        ascii_lowercase(text)
    } else {
        unicode_lowercase(text)
    }
}

/// Every character of `s` is white space.
pub open spec fn all_white_space(s: Seq<char>) -> bool {
    forall|i: int| 0 <= i < s.len() ==> white_space(#[trigger] s[i])
}

/// `s` from its first character that is not white space onwards.
pub open spec fn without_leading_white_space(s: Seq<char>) -> Seq<char>
    decreases s.len(),
{
    if s.len() > 0 && white_space(s.first()) {
        without_leading_white_space(s.drop_first())
    } else {
        s
    }
}

/// `s` up to its last character that is not white space.
pub open spec fn without_trailing_white_space(s: Seq<char>) -> Seq<char>
    decreases s.len(),
{
    if s.len() > 0 && white_space(s.last()) {
        without_trailing_white_space(s.drop_last())
    } else {
        s
    }
}

/// `s` without the white space at its two ends.
pub open spec fn trimmed(s: Seq<char>) -> Seq<char> {
    without_trailing_white_space(without_leading_white_space(s))
}

/// What follows `prefix` in `text`, if `text` begins with it.
pub open spec fn after_prefix(text: Seq<char>, prefix: Seq<char>) -> Option<Seq<char>> {
    if prefix.is_prefix_of(text) {
        Some(text.skip(prefix.len() as int))
    } else {
        None
    }
}

/// The form in which a line of input is read: trimmed, then lowercased.
pub open spec fn normalized(line: Seq<char>) -> Seq<char> {
    lowercase(trimmed(line))
}

/// The leading white space ends at the first character that is none.
proof fn lemma_leading(s: Seq<char>, start: int)
    requires
        0 <= start <= s.len(),
        forall|k: int| 0 <= k < start ==> white_space(#[trigger] s[k]),
        start < s.len() ==> !white_space(s[start]),
    ensures
        without_leading_white_space(s) == s.skip(start),
    decreases start,
{
    if start == 0 {
        assert(s.skip(0) =~= s);
    } else {
        assert(white_space(s[0]));
        let rest = s.drop_first();
        assert forall|k: int| 0 <= k < start - 1 implies white_space(#[trigger] rest[k]) by {
            assert(rest[k] == s[k + 1]);
        }
        lemma_leading(rest, start - 1);
        assert(rest.skip(start - 1) =~= s.skip(start));
    }
}

/// The trailing white space begins behind the last character that is none.
proof fn lemma_trailing(s: Seq<char>, end: int)
    requires
        0 <= end <= s.len(),
        forall|k: int| end <= k < s.len() ==> white_space(#[trigger] s[k]),
        0 < end ==> !white_space(s[end - 1]),
    ensures
        without_trailing_white_space(s) == s.take(end),
    decreases s.len() - end,
{
    if end == s.len() {
        assert(s.take(end) =~= s);
    } else {
        assert(white_space(s[s.len() - 1]));
        let rest = s.drop_last();
        lemma_trailing(rest, end);
        assert(rest.take(end) =~= s.take(end));
    }
}

/// Where the trimmed text lies: between the first and the last character
/// that is not white space, or nowhere if there is none.
proof fn lemma_trimmed_range(s: Seq<char>, start: int, end: int)
    requires
        0 <= start <= end <= s.len(),
        forall|k: int| 0 <= k < start ==> white_space(#[trigger] s[k]),
        forall|k: int| end <= k < s.len() ==> white_space(#[trigger] s[k]),
        start < end ==> !white_space(s[start]) && !white_space(s[end - 1]),
        start == end ==> start == s.len(),
    ensures
        trimmed(s) == s.subrange(start, end),
{
    lemma_leading(s, start);
    let rest = s.skip(start);
    assert forall|k: int| end - start <= k < rest.len() implies white_space(#[trigger] rest[k]) by {
        assert(rest[k] == s[k + start]);
    }
    lemma_trailing(rest, end - start);
    assert(rest.take(end - start) =~= s.subrange(start, end));
}

/// White space in front of a text is part of its leading white space.
proof fn lemma_leading_padding(before: Seq<char>, s: Seq<char>)
    requires
        all_white_space(before),
    ensures
        without_leading_white_space(before + s) == without_leading_white_space(s),
    decreases before.len(),
{
    if before.len() == 0 {
        assert(before + s =~= s);
    } else {
        assert((before + s)[0] == before[0]);
        assert((before + s).drop_first() =~= before.drop_first() + s);
        assert forall|i: int| 0 <= i < before.drop_first().len() implies white_space(
            #[trigger] before.drop_first()[i],
        ) by {
            assert(before.drop_first()[i] == before[i + 1]);
        }
        lemma_leading_padding(before.drop_first(), s);
    }
}

/// White space behind a text is part of its trailing white space.
proof fn lemma_trailing_padding(s: Seq<char>, after: Seq<char>)
    requires
        all_white_space(after),
    ensures
        without_trailing_white_space(s + after) == without_trailing_white_space(s),
    decreases after.len(),
{
    if after.len() == 0 {
        assert(s + after =~= s);
    } else {
        assert((s + after).last() == after.last());
        assert((s + after).drop_last() =~= s + after.drop_last());
        lemma_trailing_padding(s, after.drop_last());
    }
}

/// White space behind a text does not change what is left after trimming.
proof fn lemma_inner_padding(core: Seq<char>, after: Seq<char>)
    requires
        all_white_space(after),
    ensures
        trimmed(core + after) == trimmed(core),
    decreases core.len(),
{
    if core.len() == 0 {
        assert(core + after =~= after);
        lemma_leading(after, after.len() as int);
        assert(after.skip(after.len() as int) =~= core);
    } else if white_space(core[0]) {
        assert((core + after)[0] == core[0]);
        assert((core + after).drop_first() =~= core.drop_first() + after);
        lemma_inner_padding(core.drop_first(), after);
    } else {
        assert((core + after)[0] == core[0]);
        lemma_trailing_padding(core, after);
    }
}

/// A text that neither begins nor ends with white space is left as it is.
pub proof fn trimmed_keeps_bare_text(s: Seq<char>)
    requires
        s.len() > 0 ==> !white_space(s.first()) && !white_space(s.last()),
    ensures
        trimmed(s) == s,
{
    lemma_trimmed_range(s, 0, s.len() as int);
    assert(s.subrange(0, s.len() as int) =~= s);
}

/// Of a text that is all white space, nothing is left.
pub proof fn trimmed_white_space_is_empty(s: Seq<char>)
    requires
        all_white_space(s),
    ensures
        trimmed(s) == Seq::<char>::empty(),
{
    lemma_trimmed_range(s, s.len() as int, s.len() as int);
    assert(s.subrange(s.len() as int, s.len() as int) =~= Seq::<char>::empty());
}

/// White space around a text does not change what is left after trimming.
pub proof fn trimmed_ignores_padding(before: Seq<char>, core: Seq<char>, after: Seq<char>)
    requires
        all_white_space(before),
        all_white_space(after),
    ensures
        trimmed(before + core + after) == trimmed(core),
{
    assert(before + core + after =~= before + (core + after));
    lemma_leading_padding(before, core + after);
    lemma_inner_padding(core, after);
}

/// Whether two texts are the same, character by character.
pub fn same_text(a: &str, b: &str) -> (same: bool)
    ensures
        same == (a@ == b@),
{
    let mut left = a.chars();
    let mut right = b.chars();
    let ghost mut done: int = 0;
    loop
        invariant
            left.obeys_prophetic_iter_laws(),
            right.obeys_prophetic_iter_laws(),
            0 <= done <= a@.len(),
            done <= b@.len(),
            left.remaining() == a@.skip(done),
            right.remaining() == b@.skip(done),
            a@.take(done) == b@.take(done),
        decreases a@.len() - done,
    {
        match (left.next(), right.next()) {
            (None, None) => {
                assert(a@ =~= a@.take(done));
                assert(b@ =~= b@.take(done));
                return true;
            },
            (Some(p), Some(q)) => {
                if p != q {
                    assert(a@[done] != b@[done]);
                    return false;
                }
                proof {
                    assert(a@.take(done + 1) =~= a@.take(done).push(a@[done]));
                    assert(b@.take(done + 1) =~= b@.take(done).push(b@[done]));
                    assert(a@.skip(done).drop_first() =~= a@.skip(done + 1));
                    assert(b@.skip(done).drop_first() =~= b@.skip(done + 1));
                    done = done + 1;
                }
            },
            _ => {
                return false;
            },
        }
    }
}

/// What follows `prefix` in `text`, if `text` begins with it.
pub fn strip_prefix<'a>(text: &'a str, prefix: &str) -> (rest: Option<&'a str>)
    ensures
        match rest {
            Some(rest) => after_prefix(text@, prefix@) == Some(rest@),
            None => after_prefix(text@, prefix@) is None,
        },
{
    let total = text.unicode_len();
    let mut whole = text.chars();
    let mut head = prefix.chars();
    let mut matched: usize = 0;
    loop
        invariant
            whole.obeys_prophetic_iter_laws(),
            head.obeys_prophetic_iter_laws(),
            total == text@.len(),
            matched <= total,
            matched <= prefix@.len(),
            whole.remaining() == text@.skip(matched as int),
            head.remaining() == prefix@.skip(matched as int),
            text@.take(matched as int) == prefix@.take(matched as int),
        decreases total - matched,
    {
        match head.next() {
            None => {
                proof {
                    assert(prefix@ =~= prefix@.take(matched as int));
                    assert(text@.take(matched as int) =~= text@.subrange(0, matched as int));
                    assert(text@.skip(matched as int) =~= text@.subrange(
                        matched as int,
                        total as int,
                    ));
                }
                return Some(text.substring_char(matched, total));
            },
            Some(expected) => {
                match whole.next() {
                    None => {
                        return None;
                    },
                    Some(found) => {
                        if found != expected {
                            assert(text@[matched as int] != prefix@[matched as int]);
                            return None;
                        }
                        proof {
                            let done = matched as int;
                            assert(text@.take(done + 1) =~= text@.take(done).push(text@[done]));
                            assert(prefix@.take(done + 1) =~= prefix@.take(done).push(
                                prefix@[done],
                            ));
                            assert(text@.skip(done).drop_first() =~= text@.skip(done + 1));
                            assert(prefix@.skip(done).drop_first() =~= prefix@.skip(done + 1));
                        }
                        matched += 1;
                    },
                }
            },
        }
    }
}

/// Whether `c` is white space.
pub fn is_white_space(c: char) -> (answer: bool)
    ensures
        answer == white_space(c),
{
    if c <= '\u{7f}' {
        c == ' ' || ('\t' <= c && c <= '\r')
    } else {
        is_whitespace(c)
    }
}

/// Removes the white space at the two ends of `text`.
pub fn trim(text: &str) -> (inner: &str)
    ensures
        inner@ == trimmed(text@),
{
    let total = text.unicode_len();
    let mut start: usize = 0;
    let mut end: usize = 0;
    let mut seen: usize = 0;
    let mut inside = false;
    for c in it: text.chars()
        invariant
            it.seq() == text@,
            total == text@.len(),
            seen == it.index(),
            !inside ==> start == 0 && end == 0,
            !inside ==> forall|k: int| 0 <= k < seen ==> white_space(#[trigger] text@[k]),
            inside ==> start < end <= seen,
            inside ==> forall|k: int| 0 <= k < start ==> white_space(#[trigger] text@[k]),
            inside ==> forall|k: int| end <= k < seen ==> white_space(#[trigger] text@[k]),
            inside ==> !white_space(text@[start as int]) && !white_space(text@[end - 1]),
    {
        if !is_white_space(c) {
            if !inside {
                start = seen;
                inside = true;
            }
            end = seen + 1;
        }
        seen += 1;
    }
    if !inside {
        start = total;
        end = total;
    }
    proof {
        lemma_trimmed_range(text@, start as int, end as int);
    }
    text.substring_char(start, end)
}

/// Puts `text` in lowercase.
pub fn to_lower(text: &str) -> (lower: String)
    ensures
        lower@ == lowercase(text@),
{
    if text.is_ascii() {
        to_ascii_lowercase(text)
    } else {
        to_lowercase(text)
    }
}

/// Brings a line of input into the form in which commands are recognised:
/// without the white space at its ends, and in lowercase.
pub fn normalize(line: &str) -> (text: String)
    ensures
        text@ == normalized(line@),
{
    to_lower(trim(line))
}

} // verus!
