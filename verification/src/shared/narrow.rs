//! Narrow native text: the bytes of a C string, read as UTF-8.
//!
//! A native text field is modelled as `Option<Vec<u8>>`: `None` for a null
//! pointer, otherwise the bytes that precede the terminator. A field that is
//! missing, or whose bytes are not UTF-8, reads as the empty string.
use vstd::prelude::*;
use vstd::string::StringSliceAdditionalSpecFns;
use vstd::utf8::{decode_utf8, encode_utf8, encode_utf8_decode_utf8, valid_utf8};

verus! {

/// The text of the bytes `bytes`: what they decode to as UTF-8, and the empty
/// text when they are no UTF-8.
pub open spec fn utf8_or_empty(bytes: Seq<u8>) -> Seq<char> {
    if valid_utf8(bytes) {
        decode_utf8(bytes)
    } else {
        Seq::<char>::empty()
    }
}

/// The text of a narrow native field.
pub open spec fn narrow_text(field: Option<Vec<u8>>) -> Seq<char> {
    match field {
        Some(bytes) => utf8_or_empty(bytes@),
        None => Seq::<char>::empty(),
    }
}

/// Text that was stored as UTF-8 reads back unchanged.
pub proof fn lemma_utf8_round_trip(text: Seq<char>)
    ensures
        utf8_or_empty(encode_utf8(text)) == text,
{
    vstd::utf8::encode_utf8_valid_utf8(text);
    encode_utf8_decode_utf8(text);
}

/// `core::str::from_utf8` of the standard library: it succeeds exactly on
/// well-formed UTF-8, and the string slice it then returns has the given
/// bytes.
#[verifier::external_body]
fn checked_utf8(bytes: &[u8]) -> (text: Option<&str>)
    ensures
        text is Some <==> valid_utf8(bytes@),
        text is Some ==> text->0.spec_bytes() == bytes@,
{
    match core::str::from_utf8(bytes) {
        Ok(text) => Some(text),
        Err(_) => None,
    }
}

/// The text of a run of native bytes.
pub fn text_of_bytes(bytes: &[u8]) -> (text: String)
    ensures
        text@ == utf8_or_empty(bytes@),
{
    match checked_utf8(bytes) {
        Some(decoded) => {
            proof {
                encode_utf8_decode_utf8(decoded@);
            }
            decoded.to_owned()
        },
        None => String::new(),
    }
}

/// The text of a narrow native field, empty when the field is missing or
/// malformed.
pub fn text_of_field(field: &Option<Vec<u8>>) -> (text: String)
    ensures
        text@ == narrow_text(*field),
{
    match field {
        Some(bytes) => text_of_bytes(bytes.as_slice()),
        None => String::new(),
    }
}

/// Whether two runs of bytes are the same.
pub fn same_bytes(a: &[u8], b: &[u8]) -> (same: bool)
    ensures
        same == (a@ == b@),
{
    if a.len() != b.len() {
        return false;
    }
    let mut i: usize = 0;
    while i < a.len()
        invariant
            a@.len() == b@.len(),
            i <= a@.len(),
            a@.take(i as int) == b@.take(i as int),
        decreases a@.len() - i,
    {
        if a[i] != b[i] {
            return false;
        }
        i = i + 1;
    }
    proof {
        assert(a@.take(a@.len() as int) =~= a@);
        assert(b@.take(b@.len() as int) =~= b@);
    }
    true
}

/// Whether two texts are the same, character for character.
pub fn same_text(a: &str, b: &str) -> (same: bool)
    ensures
        same == (a@ == b@),
{
    proof {
        encode_utf8_decode_utf8(a@);
        encode_utf8_decode_utf8(b@);
    }
    same_bytes(a.as_bytes(), b.as_bytes())
}

/// Whether the native bytes `bytes` spell exactly the text `text`.
pub fn bytes_spell(bytes: &[u8], text: &str) -> (same: bool)
    ensures
        same == (bytes@ == encode_utf8(text@)),
{
    same_bytes(bytes, text.as_bytes())
}

/// The NUL-terminated form of `text` as a C string holds it: its UTF-8 bytes
/// and a terminator. A text with a zero byte inside has no such form.
pub open spec fn c_string(text: Seq<char>) -> Option<Seq<u8>> {
    if encode_utf8(text).contains(0u8) {
        None
    } else {
        Some(encode_utf8(text).push(0u8))
    }
}

/// The bytes of `text` with a terminator, for a native call that takes a C
/// string; `None` when `text` holds a zero byte.
pub fn to_narrow(text: &str) -> (bytes: Option<Vec<u8>>)
    ensures
        bytes is Some <==> c_string(text@) is Some,
        bytes is Some ==> bytes->0@ == c_string(text@)->0,
{
    let source = text.as_bytes();
    let mut bytes: Vec<u8> = Vec::new();
    let mut i: usize = 0;
    while i < source.len()
        invariant
            i <= source@.len(),
            source@ == encode_utf8(text@),
            bytes@ == source@.take(i as int),
            forall|j: int| 0 <= j < i ==> #[trigger] source@[j] != 0,
        decreases source@.len() - i,
    {
        let b = source[i];
        if b == 0 {
            return None;
        }
        bytes.push(b);
        i = i + 1;
    }
    bytes.push(0);
    Some(bytes)
}

} // verus!
