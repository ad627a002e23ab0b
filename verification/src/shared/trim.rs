//! Stripping a repeated pattern from the ends of a text.
use vstd::prelude::*;

verus! {

/// Whether `text` begins with `pattern`.
pub open spec fn begins_with(text: Seq<char>, pattern: Seq<char>) -> bool {
    pattern.len() <= text.len() && text.subrange(0, pattern.len() as int) == pattern
}

/// Whether `text` ends with `pattern`.
pub open spec fn ends_with(text: Seq<char>, pattern: Seq<char>) -> bool {
    pattern.len() <= text.len() && text.subrange(text.len() - pattern.len(), text.len() as int)
        == pattern
}

/// `text` without the copies of `pattern` that it begins with, however many
/// there are.
pub open spec fn strip_leading(text: Seq<char>, pattern: Seq<char>) -> Seq<char>
    decreases text.len(),
{
    if pattern.len() > 0 && begins_with(text, pattern) {
        strip_leading(text.subrange(pattern.len() as int, text.len() as int), pattern)
    } else {
        text
    }
}

/// `text` without the copies of `pattern` that it ends with, however many
/// there are.
pub open spec fn strip_trailing(text: Seq<char>, pattern: Seq<char>) -> Seq<char>
    decreases text.len(),
{
    if pattern.len() > 0 && ends_with(text, pattern) {
        strip_trailing(text.subrange(0, text.len() - pattern.len()), pattern)
    } else {
        text
    }
}

/// The characters of a text, one by one.
pub fn chars_of(text: &str) -> (chars: Vec<char>)
    ensures
        chars@ == text@,
{
    let mut chars: Vec<char> = Vec::new();
    for c in it: text.chars()
        invariant
            it.seq() == text@,
            chars@ == it.seq().take(it.index()),
    {
        chars.push(c);
    }
    chars
}

/// Whether the characters of `chars` from `from` up to `to` are `pattern`.
fn matches_at(chars: &Vec<char>, from: usize, to: usize, pattern: &Vec<char>) -> (same: bool)
    requires
        from <= to <= chars@.len(),
        to - from == pattern@.len(),
    ensures
        same == (chars@.subrange(from as int, to as int) == pattern@),
{
    let ghost part = chars@.subrange(from as int, to as int);
    let mut i: usize = 0;
    while i < pattern.len()
        invariant
            i <= pattern@.len(),
            from <= to <= chars@.len(),
            to - from == pattern@.len(),
            part == chars@.subrange(from as int, to as int),
            part.take(i as int) == pattern@.take(i as int),
        decreases pattern@.len() - i,
    {
        if chars[from + i] != pattern[i] {
            return false;
        }
        i = i + 1;
    }
    proof {
        assert(part.take(part.len() as int) =~= part);
        assert(pattern@.take(pattern@.len() as int) =~= pattern@);
    }
    true
}

/// The bounds of what is left of `chars` once the leading copies of `prefix`
/// and then the trailing copies of `suffix` are stripped.
pub fn stripped_bounds(chars: &Vec<char>, prefix: &Vec<char>, suffix: &Vec<char>) -> (bounds: (
    usize,
    usize,
))
    requires
        prefix@.len() > 0,
        suffix@.len() > 0,
    ensures
        bounds.0 <= bounds.1 <= chars@.len(),
        chars@.subrange(bounds.0 as int, bounds.1 as int) == strip_trailing(
            strip_leading(chars@, prefix@),
            suffix@,
        ),
{
    let len = chars.len();
    let mut start: usize = 0;
    assert(chars@.subrange(0, len as int) =~= chars@);
    while len - start >= prefix.len() && matches_at(chars, start, start + prefix.len(), prefix)
        invariant
            start <= len,
            len == chars@.len(),
            prefix@.len() > 0,
            strip_leading(chars@, prefix@) == strip_leading(
                chars@.subrange(start as int, len as int),
                prefix@,
            ),
        decreases len - start,
    {
        let ghost rest = chars@.subrange(start as int, len as int);
        proof {
            assert(rest.subrange(0, prefix@.len() as int) =~= chars@.subrange(
                start as int,
                start + prefix@.len(),
            ));
            assert(rest.subrange(prefix@.len() as int, rest.len() as int) =~= chars@.subrange(
                start + prefix@.len(),
                len as int,
            ));
        }
        start = start + prefix.len();
    }
    let ghost head = chars@.subrange(start as int, len as int);
    proof {
        if prefix@.len() <= head.len() {
            assert(head.subrange(0, prefix@.len() as int) =~= chars@.subrange(
                start as int,
                start + prefix@.len(),
            ));
        }
    }
    let mut end: usize = len;
    while end - start >= suffix.len() && matches_at(chars, end - suffix.len(), end, suffix)
        invariant
            start <= end <= len,
            len == chars@.len(),
            suffix@.len() > 0,
            head == chars@.subrange(start as int, len as int),
            strip_trailing(head, suffix@) == strip_trailing(
                chars@.subrange(start as int, end as int),
                suffix@,
            ),
        decreases end - start,
    {
        let ghost part = chars@.subrange(start as int, end as int);
        proof {
            assert(part.subrange(part.len() - suffix@.len(), part.len() as int) =~= chars@.subrange(
                end - suffix@.len(),
                end as int,
            ));
            assert(part.subrange(0, part.len() - suffix@.len()) =~= chars@.subrange(
                start as int,
                end - suffix@.len(),
            ));
        }
        end = end - suffix.len();
    }
    proof {
        let part = chars@.subrange(start as int, end as int);
        if suffix@.len() <= part.len() {
            assert(part.subrange(part.len() - suffix@.len(), part.len() as int) =~= chars@.subrange(
                end - suffix@.len(),
                end as int,
            ));
        }
    }
    (start, end)
}

} // verus!
