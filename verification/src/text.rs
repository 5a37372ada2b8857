//! Character sequences: substring search, first lines, and lower-casing.

use vstd::prelude::*;

verus! {

/// The lower-case form of a text, as `str::to_lowercase` computes it.
pub uninterp spec fn lowercase_of(s: Seq<char>) -> Seq<char>;

/// Calls `str::to_lowercase`. The result is the Unicode lower-case equivalent of
/// the whole text; it is a function of the text alone and is named
/// [`lowercase_of`].
#[verifier::external_body]
pub(crate) fn to_lowercase(s: &str) -> (lower: String)
    ensures
        lower@ == lowercase_of(s@),
{
    s.to_lowercase()
}

/// The text that `textwrap::fill` makes of a text and a width: the text broken
/// into lines for a display of that many columns, with a line feed between
/// the lines.
pub uninterp spec fn filled(text: Seq<char>, width: nat) -> Seq<char>;

/// Calls `textwrap::fill`, which wraps the text at `width` columns and joins
/// the lines with line feeds. The result depends on the text and the width
/// alone and is named [`filled`].
#[verifier::external_body]
pub(crate) fn fill(text: &str, width: usize) -> (wrapped: String)
    ensures
        wrapped@ == filled(text@, width as nat),
{
    textwrap::fill(text, width)
}

/// `String::push` appends one character at the end and changes nothing else.
pub assume_specification[ String::push ](s: &mut String, ch: char)
    ensures
        final(s)@ == old(s)@.push(ch),
;

/// `String::pop` removes the last character and returns it; on an empty string
/// it returns `None` and leaves the string empty.
pub assume_specification[ String::pop ](s: &mut String) -> (last: Option<char>)
    ensures
        old(s)@.len() == 0 ==> last is None && final(s)@ == old(s)@,
        old(s)@.len() > 0 ==> last == Some(old(s)@.last()) && final(s)@ == old(s)@.drop_last(),
;

/// `needle` occurs in `hay` as a contiguous run that starts at position `at`.
pub open spec fn occurs_at(needle: Seq<char>, hay: Seq<char>, at: int) -> bool {
    &&& 0 <= at
    &&& at + needle.len() <= hay.len()
    &&& hay.subrange(at, at + needle.len()) == needle
}

/// `needle` is a contiguous substring of `hay`.
pub open spec fn is_substring(needle: Seq<char>, hay: Seq<char>) -> bool {
    exists|at: int| occurs_at(needle, hay, at)
}

/// The number of characters of `s` that come before its first line feed: all of
/// them if it has none.
pub open spec fn line_break(s: Seq<char>) -> int
    decreases s.len(),
{
    if s.len() == 0 || s[0] == '\n' {
        0
    } else {
        1 + line_break(s.drop_first())
    }
}

/// The first line of `s`: what comes before the first line feed, without the
/// carriage return that may stand directly before that line feed. A text
/// without a line feed is its own first line, and so is the empty text.
pub open spec fn first_line_of(s: Seq<char>) -> Seq<char> {
    let n = line_break(s);
    if 0 < n < s.len() && s[n - 1] == '\r' {
        s.take(n - 1)
    } else {
        s.take(n)
    }
}

/// A position with no line feed before it, which is the end of the text or
/// holds a line feed, is the line break.
pub proof fn lemma_line_break_is(s: Seq<char>, n: int)
    requires
        0 <= n <= s.len(),
        forall|j: int| 0 <= j < n ==> s[j] != '\n',
        n < s.len() ==> s[n] == '\n',
    ensures
        line_break(s) == n,
    decreases n,
{
    if n > 0 {
        let rest = s.drop_first();
        assert forall|j: int| 0 <= j < n - 1 implies rest[j] != '\n' by {
            assert(rest[j] == s[j + 1]);
        }
        lemma_line_break_is(rest, n - 1);
    }
}

/// The characters of a text, one by one.
pub fn chars_of(s: &str) -> (v: Vec<char>)
    ensures
        v@ == s@,
{
    let mut v: Vec<char> = Vec::new();
    for c in it: s.chars()
        invariant
            v@ == it.seq().take(it.index()),
    {
        v.push(c);
    }
    v
}

/// Whether `needle` stands in `hay` at position `at`.
fn matches_at(needle: &Vec<char>, hay: &Vec<char>, at: usize) -> (found: bool)
    requires
        at + needle.len() <= hay.len(),
    ensures
        found == occurs_at(needle@, hay@, at as int),
{
    let mut j: usize = 0;
    while j < needle.len()
        invariant
            j <= needle.len(),
            at + needle.len() <= hay.len(),
            forall|k: int| 0 <= k < j ==> hay@[at + k] == needle@[k],
        decreases needle.len() - j,
    {
        if hay[at + j] != needle[j] {
            assert(hay@.subrange(at as int, at + needle.len())[j as int] == hay@[at + j]);
            return false;
        }
        j += 1;
    }
    assert(hay@.subrange(at as int, at + needle.len()) =~= needle@);
    true
}

/// Substring containment: whether `needle` occurs somewhere in `hay` as a
/// contiguous run. The empty needle occurs in every text.
pub fn contains_chars(hay: &Vec<char>, needle: &Vec<char>) -> (found: bool)
    ensures
        found == is_substring(needle@, hay@),
{
    if needle.len() > hay.len() {
        return false;
    }
    let last: usize = hay.len() - needle.len();
    let mut at: usize = 0;
    loop
        invariant
            at <= last,
            last == hay.len() - needle.len(),
            forall|k: int| 0 <= k < at ==> !occurs_at(needle@, hay@, k),
        decreases last - at,
    {
        if matches_at(needle, hay, at) {
            return true;
        }
        if at == last {
            return false;
        }
        at += 1;
    }
}

/// Whether a text ends with the given characters.
pub fn ends_with(s: &Vec<char>, suffix: &Vec<char>) -> (yes: bool)
    ensures
        yes == suffix@.is_suffix_of(s@),
{
    if suffix.len() > s.len() {
        return false;
    }
    let at: usize = s.len() - suffix.len();
    let yes = matches_at(suffix, s, at);
    proof {
        if yes {
            assert(s@.skip(s@.len() - suffix@.len()) =~= s@.subrange(at as int, at + suffix@.len()));
        }
        if suffix@.is_suffix_of(s@) {
            assert(s@.skip(s@.len() - suffix@.len()) =~= s@.subrange(at as int, at + suffix@.len()));
        }
    }
    yes
}

/// The first line of a text (see [`first_line_of`]).
pub fn first_line(text: &str) -> (line: String)
    ensures
        line@ == first_line_of(text@),
{
    let chars = chars_of(text);
    let mut n: usize = 0;
    while n < chars.len() && chars[n] != '\n'
        invariant
            n <= chars.len(),
            forall|j: int| 0 <= j < n ==> chars@[j] != '\n',
        decreases chars.len() - n,
    {
        n += 1;
    }
    proof {
        lemma_line_break_is(chars@, n as int);
    }
    let end: usize = if 0 < n && n < chars.len() && chars[n - 1] == '\r' {
        n - 1
    } else {
        n
    };
    let line = text.substring_char(0, end);
    line.to_owned()
}

} // verus!
