//! JSON text for the two shapes that the wire format is made of: a string, and
//! a list of strings.

use vstd::prelude::*;

verus! {

/// The error type of `serde_json`.
#[verifier::external_type_specification]
#[verifier::external_body]
pub struct ExJsonError(serde_json::Error);

/// The JSON string literal for `text`: the text between double quotes, with
/// the characters that JSON does not take verbatim written as escapes.
pub uninterp spec fn json_string_literal(text: Seq<char>) -> Seq<char>;

/// `serde_json::to_string` on a string slice. serde_json writes the slice as
/// one JSON string literal into a byte vector. Writing to memory does not fail,
/// and a string has nothing else that could, so the result is always `Ok`. The
/// literal depends on the text alone.
#[verifier::external_body]
fn to_json_string(text: &str) -> (out: Result<String, serde_json::Error>)
    ensures
        out is Ok,
        out->Ok_0@ == json_string_literal(text@),
{
    serde_json::to_string(text)
}

/// The texts of a sequence of strings.
pub open spec fn texts(items: Seq<String>) -> Seq<Seq<char>> {
    Seq::new(items.len(), |i: int| items[i]@)
}

/// The JSON string literals of `items`, separated by commas.
pub open spec fn json_items(items: Seq<Seq<char>>) -> Seq<char>
    decreases items.len(),
{
    if items.len() == 0 {
        Seq::empty()
    } else if items.len() == 1 {
        json_string_literal(items[0])
    } else {
        json_items(items.drop_last()) + ","@ + json_string_literal(items.last())
    }
}

/// The JSON array of the string literals of `items`.
pub open spec fn json_list(items: Seq<Seq<char>>) -> Seq<char> {
    "["@ + json_items(items) + "]"@
}

/// A list field: the array, or `null` where there is none.
pub open spec fn json_optional_list(items: Option<Seq<Seq<char>>>) -> Seq<char> {
    match items {
        Some(items) => json_list(items),
        None => "null"@,
    }
}

/// A text field: the string literal, or `null` where there is none.
pub open spec fn json_optional_text(text: Option<Seq<char>>) -> Seq<char> {
    match text {
        Some(text) => json_string_literal(text),
        None => "null"@,
    }
}

/// Writes `text` as a JSON string literal.
pub fn quote(text: &str) -> (literal: String)
    ensures
        literal@ == json_string_literal(text@),
{
    match to_json_string(text) {
        Ok(literal) => literal,
        Err(_) => String::new(),
    }
}

/// Writes `items` as a JSON array of string literals.
pub fn encode_list(items: &Vec<String>) -> (text: String)
    ensures
        text@ == json_list(texts(items@)),
{
    let ghost all = texts(items@);
    let mut text = "[".to_owned();
    let mut i: usize = 0;
    while i < items.len()
        invariant
            i <= items.len(),
            all == texts(items@),
            text@ == "["@ + json_items(all.take(i as int)),
        decreases items.len() - i,
    {
        let literal = quote(items[i].as_str());
        proof {
            assert(all.take(i + 1).drop_last() == all.take(i as int));
        }
        if i > 0 {
            text.append(",");
        }
        text.append(literal.as_str());
        i += 1;
    }
    assert(all.take(i as int) == all);
    text.append("]");
    text
}

} // verus!
