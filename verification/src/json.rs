//! JSON text for the bodies of requests: string literals, members, objects and arrays,
//! written without white space as `serde_json` writes them.

use crate::text::{comma_joined, join_with_commas, texts};
use vstd::prelude::*;
use vstd::string::*;

verus! {

/// A character that stands in a JSON string literal as it is: not `"`, not `\`, and
/// not below the space.
pub open spec fn json_plain_char(c: char) -> bool {
    c != '"' && c != '\\' && c as u32 >= 0x20
}

/// A text that needs no escape in a JSON string literal.
pub open spec fn json_plain(text: Seq<char>) -> bool {
    forall|i: int| 0 <= i < text.len() ==> json_plain_char(#[trigger] text[i])
}

/// The JSON string literal that `serde_json` writes for a text that needs an escape: the
/// opening quote, the text with its escapes, the closing quote.
pub uninterp spec fn json_string(text: Seq<char>) -> Seq<char>;

/// The JSON string literal of a text: the text between two quotes where it needs no
/// escape.
pub open spec fn json_literal(text: Seq<char>) -> Seq<char> {
    if json_plain(text) {
        seq!['"'] + text + seq!['"']
    } else {
        json_string(text)
    }
}

/// Calls `serde_json::to_string` on a string slice.
///
/// Not proved: that the result is the text between two quotes where the text holds no
/// `"`, no `\` and no character below the space, and `json_string` of the text, a
/// function of the text alone, where it holds one. The call writes into memory, which
/// cannot fail, so the error of its signature never comes; were it to come, the empty
/// string stands for it.
#[verifier::external_body]
pub(crate) fn json_quote(text: &str) -> (literal: String)
    ensures
        literal@ == if json_plain(text@) {
            seq!['"'] + text@ + seq!['"']
        } else {
            json_string(text@)
        },
{
    serde_json::to_string(text).unwrap_or_default()
}

/// A member of an object: the name in quotes, a colon, the value's text.
pub open spec fn json_member(name: Seq<char>, value: Seq<char>) -> Seq<char> {
    seq!['"'] + name + seq!['"', ':'] + value
}

/// An object with the given members.
pub open spec fn json_object(members: Seq<Seq<char>>) -> Seq<char> {
    seq!['{'] + comma_joined(members) + seq!['}']
}

/// An array with the given items.
pub open spec fn json_array(items: Seq<Seq<char>>) -> Seq<char> {
    seq!['['] + comma_joined(items) + seq![']']
}

/// A member whose value is a string: the value becomes a string literal.
pub open spec fn json_text_member(name: Seq<char>, value: Seq<char>) -> Seq<char> {
    json_member(name, json_literal(value))
}

/// Writes a member of an object. The name must need no escape.
pub fn member(name: &str, value: &str) -> (text: String)
    ensures
        text@ == json_member(name@, value@),
{
    proof {
        reveal_strlit("\"");
        reveal_strlit("\":");
    }
    let mut text = String::from_str("\"");
    text.append(name);
    text.append("\":");
    text.append(value);
    assert(text@ =~= json_member(name@, value@));
    text
}

/// Writes a member whose value is a string.
pub fn text_member(name: &str, value: &str) -> (text: String)
    ensures
        text@ == json_text_member(name@, value@),
{
    let literal = json_quote(value);
    member(name, literal.as_str())
}

/// Writes an object with the given members.
pub fn object(members: &Vec<String>) -> (text: String)
    ensures
        text@ == json_object(texts(members@)),
{
    proof {
        reveal_strlit("{");
        reveal_strlit("}");
    }
    let inner = join_with_commas(members);
    let mut text = String::from_str("{");
    text.append(inner.as_str());
    text.append("}");
    assert(text@ =~= json_object(texts(members@)));
    text
}

/// Writes an array with the given items.
pub fn array(items: &Vec<String>) -> (text: String)
    ensures
        text@ == json_array(texts(items@)),
{
    proof {
        reveal_strlit("[");
        reveal_strlit("]");
    }
    let inner = join_with_commas(items);
    let mut text = String::from_str("[");
    text.append(inner.as_str());
    text.append("]");
    assert(text@ =~= json_array(texts(items@)));
    text
}

} // verus!
