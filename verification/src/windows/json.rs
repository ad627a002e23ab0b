//! JSON documents as plain data. The text is parsed by `serde_json`; what it
//! found is handed on as a value of [`Json`], which the rest of the binding
//! reads.
use crate::shared::narrow::same_text;
use vstd::prelude::*;

verus! {

/// A JSON value.
#[derive(Debug)]
pub enum Json {
    Null,
    Bool(bool),
    /// A number: its value where it is a non-negative integer of 64 bits, and
    /// the text under which the parser prints it.
    Number(Option<u64>, String),
    Text(String),
    Array(Vec<Json>),
    /// An object: its members by name, in the order in which the parser
    /// hands them out.
    Object(Vec<(String, Json)>),
}

/// `serde_json::Value`, the parser's own form of a JSON value. It is carried
/// from the parser to the copy below and read nowhere else.
#[verifier::external_type_specification]
#[verifier::external_body]
pub struct ExValue(serde_json::Value);

/// What `serde_json::from_str` makes of a text when it is asked for a
/// `serde_json::Value`: the value that the text writes, or `None` where the
/// text is no JSON document.
pub uninterp spec fn json_document(text: Seq<char>) -> Option<Json>;

/// What a `serde_json::Value` holds.
pub uninterp spec fn json_content(value: serde_json::Value) -> Json;

/// `serde_json::from_str` for a `serde_json::Value`: the value that the text
/// writes, `None` where the parser rejects the text. The result depends on
/// the text alone.
#[verifier::external_body]
fn parse_value(text: &str) -> (value: Option<serde_json::Value>)
    ensures
        value is Some <==> json_document(text@) is Some,
        value is Some ==> json_content(value->0) == json_document(text@)->0,
{
    match serde_json::from_str::<serde_json::Value>(text) {
        Ok(value) => Some(value),
        Err(_) => None,
    }
}

/// Copies what a `serde_json::Value` holds into a [`Json`], variant by
/// variant. A number is copied as what `Number::as_u64` and its `Display`
/// give, an object as the members that `Map::iter` walks.
#[verifier::external_body]
fn json_of_value(value: &serde_json::Value) -> (json: Json)
    ensures
        json == json_content(*value),
{
    match value {
        serde_json::Value::Null => Json::Null,
        serde_json::Value::Bool(b) => Json::Bool(*b),
        serde_json::Value::Number(n) => Json::Number(n.as_u64(), n.to_string()),
        serde_json::Value::String(s) => Json::Text(s.clone()),
        serde_json::Value::Array(items) => Json::Array(items.iter().map(json_of_value).collect()),
        serde_json::Value::Object(members) => Json::Object(
            members.iter().map(|(name, member)| (name.clone(), json_of_value(member))).collect(),
        ),
    }
}

/// The document that a text writes, `None` where it writes none.
pub fn parse_json(text: &str) -> (document: Option<Json>)
    ensures
        document == json_document(text@),
{
    match parse_value(text) {
        Some(value) => Some(json_of_value(&value)),
        None => None,
    }
}

/// The first member of `members` that is named `name`.
pub open spec fn member(members: Seq<(String, Json)>, name: Seq<char>) -> Option<Json>
    decreases members.len(),
{
    if members.len() == 0 {
        None
    } else if members[0].0@ == name {
        Some(members[0].1)
    } else {
        member(members.subrange(1, members.len() as int), name)
    }
}

/// The text of the member `name`, where there is such a member and it is a
/// string.
pub open spec fn text_member(members: Seq<(String, Json)>, name: Seq<char>) -> Option<Seq<char>> {
    match member(members, name) {
        Some(Json::Text(text)) => Some(text@),
        _ => None,
    }
}

/// The value of the member `name`, where there is such a member and it is a
/// non-negative integer of 64 bits.
pub open spec fn u64_member(members: Seq<(String, Json)>, name: Seq<char>) -> Option<u64> {
    match member(members, name) {
        Some(Json::Number(Some(value), _)) => Some(value),
        _ => None,
    }
}

/// The value of the member `name`, where there is such a member and it is a
/// non-negative integer of 32 bits.
pub open spec fn u32_member(members: Seq<(String, Json)>, name: Seq<char>) -> Option<u32> {
    match u64_member(members, name) {
        Some(value) => if value <= u32::MAX {
            Some(value as u32)
        } else {
            None
        },
        None => None,
    }
}

/// The text of the member `name` where it is a string, no text where the
/// member is missing or null, and `None` where it is anything else.
pub open spec fn optional_text_member(members: Seq<(String, Json)>, name: Seq<char>) -> Option<
    Option<Seq<char>>,
> {
    match member(members, name) {
        None => Some(None),
        Some(Json::Null) => Some(None),
        Some(Json::Text(text)) => Some(Some(text@)),
        _ => None,
    }
}

/// The text of the member `name` where it is a number, no text where it is
/// any other value, and `None` where the member is missing.
pub open spec fn number_text_member(members: Seq<(String, Json)>, name: Seq<char>) -> Option<
    Option<Seq<char>>,
> {
    match member(members, name) {
        None => None,
        Some(Json::Number(_, text)) => Some(Some(text@)),
        _ => Some(None),
    }
}

/// The first member of `members` that is named `name`.
pub fn find_member<'a>(members: &'a Vec<(String, Json)>, name: &str) -> (found: Option<&'a Json>)
    ensures
        found is Some <==> member(members@, name@) is Some,
        found is Some ==> *found->0 == member(members@, name@)->0,
{
    let ghost all = members@;
    let mut i: usize = 0;
    assert(all.subrange(0, all.len() as int) =~= all);
    while i < members.len()
        invariant
            i <= all.len(),
            all == members@,
            member(all, name@) == member(all.subrange(i as int, all.len() as int), name@),
        decreases all.len() - i,
    {
        let ghost rest = all.subrange(i as int, all.len() as int);
        let entry = &members[i];
        if same_text(entry.0.as_str(), name) {
            return Some(&entry.1);
        }
        i = i + 1;
        assert(rest.subrange(1, rest.len() as int) =~= all.subrange(i as int, all.len() as int));
    }
    None
}

/// The text of the member `name`, where it is a string.
pub fn get_text(members: &Vec<(String, Json)>, name: &str) -> (text: Option<String>)
    ensures
        text is Some <==> text_member(members@, name@) is Some,
        text is Some ==> text->0@ == text_member(members@, name@)->0,
{
    match find_member(members, name) {
        Some(Json::Text(text)) => Some(text.clone()),
        _ => None,
    }
}

/// The value of the member `name`, where it is a non-negative integer of 64
/// bits.
pub fn get_u64(members: &Vec<(String, Json)>, name: &str) -> (value: Option<u64>)
    ensures
        value == u64_member(members@, name@),
{
    match find_member(members, name) {
        Some(Json::Number(Some(value), _)) => Some(*value),
        _ => None,
    }
}

/// The value of the member `name`, where it is a non-negative integer of 32
/// bits.
pub fn get_u32(members: &Vec<(String, Json)>, name: &str) -> (value: Option<u32>)
    ensures
        value == u32_member(members@, name@),
{
    match get_u64(members, name) {
        Some(value) => if value <= 0xFFFF_FFFF {
            Some(value as u32)
        } else {
            None
        },
        None => None,
    }
}

/// The text of the member `name` where it is a string, no text where it is
/// missing or null, and `None` where it is anything else.
pub fn get_optional_text(members: &Vec<(String, Json)>, name: &str) -> (text: Option<
    Option<String>,
>)
    ensures
        text is Some <==> optional_text_member(members@, name@) is Some,
        text is Some ==> (text->0 is Some <==> optional_text_member(members@, name@)->0 is Some),
        text is Some && text->0 is Some ==> text->0->0@ == optional_text_member(
            members@,
            name@,
        )->0->0,
{
    match find_member(members, name) {
        None => Some(None),
        Some(Json::Null) => Some(None),
        Some(Json::Text(text)) => Some(Some(text.clone())),
        _ => None,
    }
}

/// The text of the member `name` where it is a number, no text where it is
/// another value, and `None` where it is missing.
pub fn get_number_text(members: &Vec<(String, Json)>, name: &str) -> (text: Option<Option<String>>)
    ensures
        text is Some <==> number_text_member(members@, name@) is Some,
        text is Some ==> (text->0 is Some <==> number_text_member(members@, name@)->0 is Some),
        text is Some && text->0 is Some ==> text->0->0@ == number_text_member(
            members@,
            name@,
        )->0->0,
{
    match find_member(members, name) {
        None => None,
        Some(Json::Number(_, text)) => Some(Some(text.clone())),
        _ => Some(None),
    }
}

} // verus!
