//! Character-level helpers on strings.
//!
//! A string is modelled by its view, the sequence of its characters. Searching
//! for a pattern is stated over that model: a pattern occurs in a text when
//! some window of the text equals it.

use vstd::prelude::*;

verus! {

/// `pattern` fills the window of `text` that starts at `start`.
pub open spec fn occurs_at(text: Seq<char>, pattern: Seq<char>, start: int) -> bool {
    &&& 0 <= start
    &&& start + pattern.len() <= text.len()
    &&& text.subrange(start, start + pattern.len()) == pattern
}

/// `pattern` occurs somewhere in `text` as a contiguous run of characters.
/// The empty pattern occurs in every text.
pub open spec fn has_substring(text: Seq<char>, pattern: Seq<char>) -> bool {
    exists|start: int| occurs_at(text, pattern, start)
}

/// The characters of `s`, in order.
pub fn chars_of(s: &str) -> (chars: Vec<char>)
    ensures
        chars@ == s@,
{
    broadcast use vstd::string::group_string_axioms;

    let mut chars: Vec<char> = Vec::new();
    for c in it: s.chars()
        invariant
            it.seq() == s@,
            chars@ == s@.take(it.index()),
    {
        chars.push(c);
    }
    chars
}

/// Whether the character `wanted` occurs in `s`.
pub fn contains_char(s: &str, wanted: char) -> (found: bool)
    ensures
        found == s@.contains(wanted),
{
    broadcast use vstd::string::group_string_axioms;

    for c in it: s.chars()
        invariant
            it.seq() == s@,
            !s@.take(it.index()).contains(wanted),
    {
        if c == wanted {
            assert(s@[it.index()] == wanted);
            return true;
        }
        assert(s@.take(it.index() + 1) == s@.take(it.index()).push(c));
    }
    assert(s@.take(s@.len() as int) == s@);
    false
}

/// Whether `pattern` fills the window of `text` that starts at `start`.
fn window_matches(text: &Vec<char>, pattern: &Vec<char>, start: usize) -> (matched: bool)
    requires
        start + pattern.len() <= text.len(),
    ensures
        matched == occurs_at(text@, pattern@, start as int),
{
    let ghost window = text@.subrange(start as int, start + pattern.len());
    let mut offset: usize = 0;
    while offset < pattern.len()
        invariant
            offset <= pattern.len(),
            start + pattern.len() <= text.len(),
            window == text@.subrange(start as int, start + pattern.len()),
            forall|j: int| 0 <= j < offset ==> window[j] == pattern@[j],
        decreases pattern.len() - offset,
    {
        if text[start + offset] != pattern[offset] {
            assert(window[offset as int] != pattern@[offset as int]);
            return false;
        }
        offset += 1;
    }
    assert(window =~= pattern@);
    true
}

/// Whether `pattern` occurs in `text`, both given by their characters.
fn chars_contain(text: &Vec<char>, pattern: &Vec<char>) -> (found: bool)
    ensures
        found == has_substring(text@, pattern@),
{
    if pattern.len() > text.len() {
        return false;
    }
    let last: usize = text.len() - pattern.len();
    let mut start: usize = 0;
    loop
        invariant
            start <= last,
            last + pattern.len() == text.len(),
            forall|earlier: int| 0 <= earlier < start ==> !occurs_at(text@, pattern@, earlier),
        decreases last - start,
    {
        if window_matches(text, pattern, start) {
            return true;
        }
        if start == last {
            return false;
        }
        start += 1;
    }
}

/// Whether `pattern` occurs in `text` as a contiguous run of characters.
pub fn contains_text(text: &str, pattern: &str) -> (found: bool)
    ensures
        found == has_substring(text@, pattern@),
{
    let text_chars = chars_of(text);
    let pattern_chars = chars_of(pattern);
    chars_contain(&text_chars, &pattern_chars)
}

} // verus!
