//! JSON documents, as `serde_json` reads and writes them.
use vstd::prelude::*;

verus! {

/// Stands for `serde_json::Value`, a JSON document. What it holds is seen
/// through [`text_members`] and [`rendered`].
#[verifier::external_type_specification]
#[verifier::external_body]
pub struct ExJsonValue(serde_json::Value);

/// Stands for `serde_json::Number`, a number of a JSON document. What it is
/// written as is seen through [`number_text`].
#[verifier::external_type_specification]
#[verifier::external_body]
pub struct ExJsonNumber(serde_json::Number);

/// Stands for `serde_json::Error`, which says why a text is no JSON document.
#[verifier::external_type_specification]
#[verifier::external_body]
pub struct ExJsonError(serde_json::Error);

/// The members of a JSON object that are texts, by their keys; of a document
/// that is no object, none.
pub uninterp spec fn text_members(document: serde_json::Value) -> Map<Seq<char>, Seq<char>>;

/// The members that are texts of the document that `serde_json::from_str` reads
/// from a text; nothing where it reads none.
pub uninterp spec fn document_members(text: Seq<char>) -> Option<Map<Seq<char>, Seq<char>>>;

/// The text that a document is written as, without white space.
pub uninterp spec fn rendered(document: serde_json::Value) -> Seq<char>;

/// The text that a number is written as.
pub uninterp spec fn number_text(number: serde_json::Number) -> Seq<char>;

/// Calls `serde_json::from_str` for a `serde_json::Value`. Claims that it reads
/// a document, or refuses to, by the text alone.
#[verifier::external_body]
pub(crate) fn parse_json(text: &str) -> (document: Result<serde_json::Value, serde_json::Error>)
    ensures
        match document {
            Ok(value) => document_members(text@) == Some(text_members(value)),
            Err(_) => document_members(text@) is None,
        },
{
    serde_json::from_str(text)
}

/// Calls `serde_json::Value::get` with a key, and `serde_json::Value::as_str` on
/// what that finds. Claims that this gives a copy of the member under the key
/// where there is one that is a text, and nothing else.
#[verifier::external_body]
pub(crate) fn text_member(document: &serde_json::Value, key: &str) -> (member: Option<String>)
    ensures
        match member {
            Some(text) => text_members(*document).contains_pair(key@, text@),
            None => !text_members(*document).dom().contains(key@),
        },
{
    document.get(key).and_then(|member| member.as_str()).map(|text| text.to_owned())
}

/// The hexadecimal digit of a number below sixteen.
pub open spec fn hex_digit(value: int) -> char {
    if value < 10 {
        (('0' as int) + value) as char
    } else {
        (('a' as int) + value - 10) as char
    }
}

/// How a character is written between quotation marks: a quotation mark, a
/// backslash and a control character are escaped, any other stands for itself.
pub open spec fn escaped(c: char) -> Seq<char> {
    if c == '"' || c == '\\' {
        seq!['\\', c]
    } else if c == '\u{8}' {
        seq!['\\', 'b']
    } else if c == '\t' {
        seq!['\\', 't']
    } else if c == '\n' {
        seq!['\\', 'n']
    } else if c == '\u{c}' {
        seq!['\\', 'f']
    } else if c == '\r' {
        seq!['\\', 'r']
    } else if (c as int) < 0x20 {
        seq!['\\', 'u', '0', '0', hex_digit(c as int / 16), hex_digit(c as int % 16)]
    } else {
        seq![c]
    }
}

/// A text in quotation marks.
pub open spec fn quoted(text: Seq<char>) -> Seq<char> {
    seq!['"'] + text.map_values(|c: char| escaped(c)).flatten() + seq!['"']
}

/// The decimal digits of a number.
pub open spec fn digits(number: nat) -> Seq<char>
    decreases number,
{
    if number < 10 {
        seq![hex_digit(number as int)]
    } else {
        digits(number / 10).push(hex_digit((number % 10) as int))
    }
}

/// A number in decimal notation.
pub open spec fn decimal(number: int) -> Seq<char> {
    if number < 0 {
        seq!['-'] + digits((-number) as nat)
    } else {
        digits(number as nat)
    }
}

/// Texts with commas between them.
pub open spec fn joined(texts: Seq<Seq<char>>) -> Seq<char>
    decreases texts.len(),
{
    if texts.len() == 0 {
        seq![]
    } else if texts.len() == 1 {
        texts[0]
    } else {
        joined(texts.drop_last()) + seq![','] + texts.last()
    }
}

/// An array of elements that are written as these texts.
pub open spec fn array_text(elements: Seq<Seq<char>>) -> Seq<char> {
    seq!['['] + joined(elements) + seq![']']
}

/// An object of members with these keys that are written as these texts.
pub open spec fn object_text(members: Seq<(Seq<char>, Seq<char>)>) -> Seq<char> {
    seq!['{'] + joined(
        members.map_values(|member: (Seq<char>, Seq<char>)| quoted(member.0) + seq![':'] + member.1),
    ) + seq!['}']
}

/// Whether the first difference between two texts is at `i`, and the first text
/// comes before the second there.
pub open spec fn precedes_at(a: Seq<char>, b: Seq<char>, i: int) -> bool {
    &&& 0 <= i <= a.len()
    &&& i < b.len()
    &&& a.take(i) == b.take(i)
    &&& i < a.len() ==> a[i] < b[i]
}

/// Whether a text comes before another in alphabetical order.
pub open spec fn precedes(a: Seq<char>, b: Seq<char>) -> bool {
    exists|i: int| precedes_at(a, b, i)
}

/// The members of an object, as contracts see them.
pub open spec fn member_texts(members: Seq<(&'static str, serde_json::Value)>) -> Seq<
    (Seq<char>, Seq<char>),
> {
    members.map_values(
        |member: (&'static str, serde_json::Value)| (member.0@, rendered(member.1)),
    )
}

/// Calls `serde_json::Value::from` with a text. Claims that the document is
/// written as the text in quotation marks, escaped as JSON asks.
#[verifier::external_body]
pub(crate) fn text_value(text: &str) -> (document: serde_json::Value)
    ensures
        rendered(document) == quoted(text@),
{
    serde_json::Value::from(text)
}

/// Calls `serde_json::Value::from` with an integer. Claims that the document is
/// written as the integer in decimal notation.
#[verifier::external_body]
pub(crate) fn integer_value(number: i64) -> (document: serde_json::Value)
    ensures
        rendered(document) == decimal(number as int),
{
    serde_json::Value::from(number)
}

/// Calls `serde_json::Value::from` with a copy of a number that may be missing.
/// Claims that the document is written as the number is, or as `null`.
#[verifier::external_body]
pub(crate) fn number_value(number: &Option<serde_json::Number>) -> (document: serde_json::Value)
    ensures
        rendered(document) == match number {
            Some(number) => number_text(*number),
            None => "null"@,
        },
{
    serde_json::Value::from(number.clone())
}

/// Calls `serde_json::Value::from` with a list of documents. Claims that the
/// document is written as an array of them, in order.
#[verifier::external_body]
pub(crate) fn array_value(elements: Vec<serde_json::Value>) -> (document: serde_json::Value)
    ensures
        rendered(document) == array_text(
            elements@.map_values(|element: serde_json::Value| rendered(element)),
        ),
{
    serde_json::Value::from(elements)
}

/// Calls `serde_json::Value::from_iter` with the members of an object, whose keys
/// are in alphabetical order. Claims that the document is written as an object
/// of these members, in that order.
#[verifier::external_body]
pub(crate) fn object_value(members: Vec<(&'static str, serde_json::Value)>) -> (document:
    serde_json::Value)
    requires
        forall|i: int|
            0 < i < members@.len() ==> precedes(members@[i - 1].0@, (#[trigger] members@[i]).0@),
    ensures
        rendered(document) == object_text(member_texts(members@)),
{
    serde_json::Value::from_iter(members)
}

/// Calls `serde_json::Value::to_string`. Claims that it gives the text that the
/// document is written as.
#[verifier::external_body]
pub(crate) fn render(document: &serde_json::Value) -> (text: String)
    ensures
        text@ == rendered(*document),
{
    document.to_string()
}

} // verus!
