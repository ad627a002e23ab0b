//! Wide native text: NUL-terminated UTF-16, as the Windows spooler stores it.
//!
//! A wide text field is modelled as `Option<Vec<u16>>`: `None` for a null
//! pointer, otherwise the code units of the buffer that the pointer leads to.
//! The text of the field ends before the first zero unit. A surrogate without
//! its partner reads as U+FFFD.
use vstd::prelude::*;

verus! {

/// Whether `unit` is in the surrogate range of UTF-16.
pub open spec fn is_surrogate(unit: u16) -> bool {
    0xD800 <= unit && unit <= 0xDFFF
}

/// Whether `unit` is the first half of a surrogate pair.
pub open spec fn is_high_surrogate(unit: u16) -> bool {
    0xD800 <= unit && unit <= 0xDBFF
}

/// Whether `unit` is the second half of a surrogate pair.
pub open spec fn is_low_surrogate(unit: u16) -> bool {
    0xDC00 <= unit && unit <= 0xDFFF
}

/// The character that the surrogate pair `high`, `low` stands for.
pub open spec fn paired(high: u16, low: u16) -> char {
    (0x10000 + (high - 0xD800) * 0x400 + (low - 0xDC00)) as char
}

/// The character that stands in for a unit that cannot be decoded.
pub open spec fn replacement() -> char {
    '\u{FFFD}'
}

/// The text that the UTF-16 code units `units` spell. A unit outside the
/// surrogate range is a character by itself, a high surrogate followed by a
/// low one is one character, and any other surrogate is replaced by U+FFFD.
pub open spec fn decode_utf16_lossy(units: Seq<u16>) -> Seq<char>
    decreases units.len(),
{
    if units.len() == 0 {
        Seq::<char>::empty()
    } else if !is_surrogate(units[0]) {
        seq![units[0] as char] + decode_utf16_lossy(units.subrange(1, units.len() as int))
    } else if is_high_surrogate(units[0]) && units.len() >= 2 && is_low_surrogate(units[1]) {
        seq![paired(units[0], units[1])] + decode_utf16_lossy(
            units.subrange(2, units.len() as int),
        )
    } else {
        seq![replacement()] + decode_utf16_lossy(units.subrange(1, units.len() as int))
    }
}

/// The number of units of `units` that precede its first zero unit; all of
/// them when it holds none.
pub open spec fn terminated_len(units: Seq<u16>) -> nat
    decreases units.len(),
{
    if units.len() == 0 || units[0] == 0 {
        0
    } else {
        1 + terminated_len(units.subrange(1, units.len() as int))
    }
}

/// The units of `units` that precede its terminator.
pub open spec fn until_nul(units: Seq<u16>) -> Seq<u16> {
    units.take(terminated_len(units) as int)
}

/// The text of a wide native field: empty for a null pointer, else what the
/// units before the terminator spell.
pub open spec fn wide_text(field: Option<Vec<u16>>) -> Seq<char> {
    match field {
        Some(units) => decode_utf16_lossy(until_nul(units@)),
        None => Seq::<char>::empty(),
    }
}

/// The UTF-16 code units of one character.
pub open spec fn encode_utf16_char(c: char) -> Seq<u16> {
    let v = c as u32;
    if v < 0x10000 {
        seq![v as u16]
    } else {
        seq![(0xD800 + (v - 0x10000) / 0x400) as u16, (0xDC00 + (v - 0x10000) % 0x400) as u16]
    }
}

/// The UTF-16 code units of a text.
pub open spec fn encode_utf16(text: Seq<char>) -> Seq<u16>
    decreases text.len(),
{
    if text.len() == 0 {
        Seq::<u16>::empty()
    } else {
        encode_utf16_char(text[0]) + encode_utf16(text.subrange(1, text.len() as int))
    }
}

/// The NUL-terminated wide form of a text, as handed to the spooler.
pub open spec fn wide_form(text: Seq<char>) -> Seq<u16> {
    encode_utf16(text).push(0u16)
}

/// Whether the text holds no NUL character.
pub open spec fn no_nul(text: Seq<char>) -> bool {
    forall|i: int| 0 <= i < text.len() ==> #[trigger] text[i] != '\0'
}

/// `terminated_len` is the index of the first zero unit.
pub proof fn lemma_terminated_len(units: Seq<u16>, n: int)
    requires
        0 <= n <= units.len(),
        forall|j: int| 0 <= j < n ==> #[trigger] units[j] != 0,
        n == units.len() || units[n] == 0,
    ensures
        terminated_len(units) == n,
    decreases units.len(),
{
    if n > 0 {
        let rest = units.subrange(1, units.len() as int);
        assert forall|j: int| 0 <= j < n - 1 implies #[trigger] rest[j] != 0 by {
            assert(rest[j] == units[j + 1]);
        }
        lemma_terminated_len(rest, n - 1);
    }
}

/// Encoding a text that is extended by a character at its end.
pub proof fn lemma_encode_utf16_push(text: Seq<char>, c: char)
    ensures
        encode_utf16(text.push(c)) == encode_utf16(text) + encode_utf16_char(c),
    decreases text.len(),
{
    let whole = text.push(c);
    if text.len() == 0 {
        assert(encode_utf16(whole.subrange(1, whole.len() as int)) =~= Seq::<u16>::empty());
    } else {
        let tail = text.subrange(1, text.len() as int);
        lemma_encode_utf16_push(tail, c);
        assert(whole.subrange(1, whole.len() as int) =~= tail.push(c));
    }
}

/// The units of a character decode to that character, whatever follows them.
pub proof fn lemma_decode_after_char(c: char, rest: Seq<u16>)
    ensures
        decode_utf16_lossy(encode_utf16_char(c) + rest) == seq![c] + decode_utf16_lossy(rest),
{
    let units = encode_utf16_char(c) + rest;
    let v = c as u32;
    if v < 0x10000 {
        assert(units.subrange(1, units.len() as int) =~= rest);
    } else {
        assert(units.subrange(2, units.len() as int) =~= rest);
    }
}

/// The units of a text decode to that text, whatever follows them.
pub proof fn lemma_decode_after_text(text: Seq<char>, rest: Seq<u16>)
    ensures
        decode_utf16_lossy(encode_utf16(text) + rest) == text + decode_utf16_lossy(rest),
    decreases text.len(),
{
    if text.len() > 0 {
        let tail = text.subrange(1, text.len() as int);
        let after = encode_utf16(tail) + rest;
        lemma_decode_after_text(tail, rest);
        lemma_decode_after_char(text[0], after);
        assert(encode_utf16(text) + rest =~= encode_utf16_char(text[0]) + after);
        assert(seq![text[0]] + (tail + decode_utf16_lossy(rest)) =~= text + decode_utf16_lossy(
            rest,
        ));
    }
}

/// No unit of the encoding of a text without NUL is zero.
pub proof fn lemma_encode_utf16_nonzero(text: Seq<char>)
    requires
        no_nul(text),
    ensures
        forall|j: int| 0 <= j < encode_utf16(text).len() ==> #[trigger] encode_utf16(text)[j] != 0,
    decreases text.len(),
{
    if text.len() > 0 {
        let tail = text.subrange(1, text.len() as int);
        assert forall|i: int| 0 <= i < tail.len() implies #[trigger] tail[i] != '\0' by {
            assert(tail[i] == text[i + 1]);
        }
        lemma_encode_utf16_nonzero(tail);
        let head = encode_utf16_char(text[0]);
        assert(text[0] as u32 != 0) by {
            vstd::utf8::char_u32_cast(text[0], text[0] as u32);
        }
        assert forall|j: int| 0 <= j < head.len() implies #[trigger] head[j] != 0 by {
            vstd::utf8::char_is_scalar(text[0]);
        }
        let whole = encode_utf16(text);
        assert forall|j: int| 0 <= j < whole.len() implies #[trigger] whole[j] != 0 by {
            if j >= head.len() {
                assert(whole[j] == encode_utf16(tail)[j - head.len()]);
            }
        }
    }
}

/// A text without NUL that was stored in wide form, with anything behind its
/// terminator, reads back unchanged.
pub proof fn lemma_wide_round_trip(text: Seq<char>, buffer: Vec<u16>, behind: Seq<u16>)
    requires
        no_nul(text),
        buffer@ == wide_form(text) + behind,
    ensures
        wide_text(Some(buffer)) == text,
{
    let units = encode_utf16(text);
    lemma_encode_utf16_nonzero(text);
    assert forall|j: int| 0 <= j < units.len() implies #[trigger] buffer@[j] != 0 by {
        assert(buffer@[j] == units[j]);
    }
    lemma_terminated_len(buffer@, units.len() as int);
    assert(until_nul(buffer@) =~= units);
    lemma_decode_after_text(text, Seq::<u16>::empty());
}

/// `char::from_u32` of the standard library: a number is a character exactly
/// when it is a Unicode scalar value, that is at most 0x10FFFF and no
/// surrogate.
pub assume_specification[ char::from_u32 ](i: u32) -> (c: Option<char>)
    ensures
        c == if i <= 0xD7FF || (0xE000 <= i && i <= 0x10FFFF) {
            Some(i as char)
        } else {
            None::<char>
        },
;

/// The number of code units before the terminator of `units`.
pub fn wide_len(units: &[u16]) -> (n: usize)
    ensures
        n == terminated_len(units@),
        n <= units@.len(),
{
    let mut n: usize = 0;
    while n < units.len() && units[n] != 0
        invariant
            n <= units@.len(),
            forall|j: int| 0 <= j < n ==> #[trigger] units@[j] != 0,
        decreases units@.len() - n,
    {
        n = n + 1;
    }
    proof {
        lemma_terminated_len(units@, n as int);
    }
    n
}

/// The text that the first `end` code units of `units` spell.
pub fn decode_wide(units: &[u16], end: usize) -> (text: String)
    requires
        end <= units@.len(),
    ensures
        text@ == decode_utf16_lossy(units@.take(end as int)),
{
    let ghost all = units@.take(end as int);
    let mut text = String::new();
    let mut i: usize = 0;
    proof {
        assert(all.subrange(0, end as int) =~= all);
    }
    while i < end
        invariant
            i <= end <= units@.len(),
            all == units@.take(end as int),
            text@ + decode_utf16_lossy(all.subrange(i as int, end as int)) == decode_utf16_lossy(
                all,
            ),
        decreases end - i,
    {
        let ghost rest = all.subrange(i as int, end as int);
        let ghost before = text@;
        let unit = units[i];
        if unit < 0xD800 || unit > 0xDFFF {
            let c = char::from_u32(unit as u32).unwrap();
            text.push(c);
            i = i + 1;
            proof {
                assert(rest.subrange(1, rest.len() as int) =~= all.subrange(i as int, end as int));
                assert(before.push(c) + decode_utf16_lossy(all.subrange(i as int, end as int))
                    =~= before + decode_utf16_lossy(rest));
            }
        } else if unit <= 0xDBFF && i + 1 < end && 0xDC00 <= units[i + 1] && units[i + 1]
            <= 0xDFFF {
            let low = units[i + 1];
            let scalar: u32 = 0x10000 + (unit as u32 - 0xD800) * 0x400 + (low as u32 - 0xDC00);
            let c = char::from_u32(scalar).unwrap();
            text.push(c);
            i = i + 2;
            proof {
                assert(rest.subrange(2, rest.len() as int) =~= all.subrange(i as int, end as int));
                assert(before.push(c) + decode_utf16_lossy(all.subrange(i as int, end as int))
                    =~= before + decode_utf16_lossy(rest));
            }
        } else {
            text.push('\u{FFFD}');
            i = i + 1;
            proof {
                assert(rest.subrange(1, rest.len() as int) =~= all.subrange(i as int, end as int));
                assert(before.push(replacement()) + decode_utf16_lossy(
                    all.subrange(i as int, end as int),
                ) =~= before + decode_utf16_lossy(rest));
            }
        }
    }
    text
}

/// The text of a wide native field, empty for a null pointer.
pub fn text_of_wide(field: &Option<Vec<u16>>) -> (text: String)
    ensures
        text@ == wide_text(*field),
{
    match field {
        Some(units) => {
            let n = wide_len(units.as_slice());
            decode_wide(units.as_slice(), n)
        },
        None => String::new(),
    }
}

/// The NUL-terminated wide form of `text`.
pub fn to_wide(text: &str) -> (units: Vec<u16>)
    ensures
        units@ == wide_form(text@),
{
    let mut units: Vec<u16> = Vec::new();
    for c in it: text.chars()
        invariant
            it.seq() == text@,
            units@ == encode_utf16(it.seq().take(it.index())),
    {
        let ghost seen = it.seq().take(it.index());
        let v: u32 = c as u32;
        if v < 0x10000 {
            units.push(v as u16);
        } else {
            units.push((0xD800 + (v - 0x10000) / 0x400) as u16);
            units.push((0xDC00 + (v - 0x10000) % 0x400) as u16);
        }
        proof {
            lemma_encode_utf16_push(seen, c);
            assert(it.seq().take(it.index() + 1) =~= seen.push(c));
        }
    }
    proof {
        assert(text@.take(text@.len() as int) =~= text@);
    }
    units.push(0);
    units
}

} // verus!
