//! Small operations on text that the rest of the registry is built from.

use vstd::prelude::*;
use vstd::string::*;

verus! {

/// `String::push` appends one character.
pub assume_specification[ String::push ](text: &mut String, ch: char)
    ensures
        final(text)@ == old(text)@.push(ch),
;

/// An ASCII lowercase letter.
pub open spec fn is_lower(ch: char) -> bool {
    'a' <= ch && ch <= 'z'
}

/// An ASCII decimal digit.
pub open spec fn is_digit(ch: char) -> bool {
    '0' <= ch && ch <= '9'
}

/// The text begins with `prefix`.
pub open spec fn begins_with(text: Seq<char>, prefix: Seq<char>) -> bool {
    prefix.len() <= text.len() && text.subrange(0, prefix.len() as int) == prefix
}

/// The parts of a text between its slashes, in order. A text without a slash
/// is a single part.
pub open spec fn segments(text: Seq<char>) -> Seq<Seq<char>>
    decreases text.len(),
{
    if text.len() == 0 {
        seq![Seq::empty()]
    } else if text.last() == '/' {
        segments(text.drop_last()).push(Seq::empty())
    } else {
        let parts = segments(text.drop_last());
        parts.update(parts.len() - 1, parts.last().push(text.last()))
    }
}

/// The text without the slashes at its end.
pub open spec fn trim_slashes(text: Seq<char>) -> Seq<char>
    decreases text.len(),
{
    if text.len() > 0 && text.last() == '/' {
        trim_slashes(text.drop_last())
    } else {
        text
    }
}

/// The characters of a text.
pub fn chars_of(text: &str) -> (chars: Vec<char>)
    ensures
        chars@ == text@,
{
    let mut chars: Vec<char> = Vec::new();
    for ch in it: text.chars()
        invariant
            it.seq() == text@,
            chars@ == text@.take(it.index()),
    {
        chars.push(ch);
    }
    chars
}

/// Whether two texts are equal.
pub fn same_text(a: &str, b: &str) -> (same: bool)
    ensures
        same == (a@ == b@),
{
    a.to_owned() == b.to_owned()
}

/// Splits a text at its slashes.
pub fn split_segments(text: &str) -> (parts: Vec<String>)
    ensures
        parts@.len() == segments(text@).len(),
        forall|k: int| 0 <= k < parts@.len() ==> (#[trigger] parts@[k])@ == segments(text@)[k],
{
    let chars = chars_of(text);
    let mut parts: Vec<String> = Vec::new();
    let mut current = String::new();
    let mut i: usize = 0;
    while i < chars.len()
        invariant
            i <= chars.len(),
            chars@ == text@,
            segments(text@.take(i as int)).len() == parts@.len() + 1,
            forall|k: int|
                0 <= k < parts@.len() ==> (#[trigger] parts@[k])@ == segments(text@.take(i as int))[k],
            current@ == segments(text@.take(i as int)).last(),
        decreases chars.len() - i,
    {
        let ghost before = text@.take(i as int);
        proof {
            assert(text@.take(i + 1).drop_last() == before);
            assert(text@.take(i + 1).last() == chars@[i as int]);
        }
        if chars[i] == '/' {
            parts.push(current);
            current = String::new();
        } else {
            current.push(chars[i]);
        }
        i = i + 1;
    }
    proof {
        assert(text@.take(i as int) == text@);
    }
    parts.push(current);
    parts
}

/// The text without the slashes at its end.
pub fn without_trailing_slashes(text: &str) -> (trimmed: String)
    ensures
        trimmed@ == trim_slashes(text@),
{
    let chars = chars_of(text);
    let mut end: usize = chars.len();
    proof {
        assert(text@.take(end as int) == text@);
    }
    while end > 0 && chars[end - 1] == '/'
        invariant
            end <= chars.len(),
            chars@ == text@,
            trim_slashes(text@.take(end as int)) == trim_slashes(text@),
        decreases end,
    {
        proof {
            assert(text@.take(end as int).drop_last() == text@.take(end - 1));
        }
        end = end - 1;
    }
    let mut trimmed = String::new();
    let mut i: usize = 0;
    while i < end
        invariant
            i <= end <= chars.len(),
            chars@ == text@,
            trimmed@ == text@.take(i as int),
        decreases end - i,
    {
        trimmed.push(chars[i]);
        i = i + 1;
    }
    trimmed
}

/// Whether the text begins with `prefix`.
pub fn has_prefix(text: &str, prefix: &[char]) -> (found: bool)
    ensures
        found == begins_with(text@, prefix@),
{
    let chars = chars_of(text);
    if prefix.len() > chars.len() {
        return false;
    }
    let mut i: usize = 0;
    while i < prefix.len()
        invariant
            i <= prefix.len() <= chars.len(),
            chars@ == text@,
            chars@.subrange(0, i as int) == prefix@.subrange(0, i as int),
        decreases prefix.len() - i,
    {
        if chars[i] != prefix[i] {
            proof {
                assert(text@.subrange(0, prefix@.len() as int)[i as int] != prefix@[i as int]);
            }
            return false;
        }
        proof {
            assert(chars@.subrange(0, i + 1) == chars@.subrange(0, i as int).push(chars@[i as int]));
            assert(prefix@.subrange(0, i + 1) == prefix@.subrange(0, i as int).push(prefix@[i as int]));
        }
        i = i + 1;
    }
    proof {
        assert(prefix@.subrange(0, i as int) == prefix@);
    }
    true
}

} // verus!
