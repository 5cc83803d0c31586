//! JSON text, through `serde_json`.

use vstd::prelude::*;

use crate::notation;

verus! {

/// How a character stands inside a JSON string.
pub open spec fn escape(c: char) -> Seq<char> {
    if c == '"' || c == '\\' {
        seq!['\\', c]
    } else if c == '\n' {
        seq!['\\', 'n']
    } else if c == '\r' {
        seq!['\\', 'r']
    } else if c == '\t' {
        seq!['\\', 't']
    } else if c as int == 8 {
        seq!['\\', 'b']
    } else if c as int == 12 {
        seq!['\\', 'f']
    } else if (c as int) < 32 {
        seq![
            '\\',
            'u',
            '0',
            '0',
            notation::digit(c as int / 16),
            notation::digit(c as int % 16),
        ]
    } else {
        seq![c]
    }
}

/// What stands between the quotes of a JSON string.
pub open spec fn escaped(text: Seq<char>) -> Seq<char>
    decreases text.len(),
{
    if text.len() == 0 {
        Seq::empty()
    } else {
        escaped(text.drop_last()) + escape(text.last())
    }
}

/// The compact text of the object with the one member `key`, a string.
pub open spec fn object_text(key: Seq<char>, value: Seq<char>) -> Seq<char> {
    seq!['{', '"'] + escaped(key) + seq!['"', ':', '"'] + escaped(value) + seq!['"', '}']
}

/// Whether a text stands in a JSON string as it is.
pub open spec fn is_plain(text: Seq<char>) -> bool {
    forall|i: int|
        0 <= i < text.len() ==> text[i] as int >= 32 && (#[trigger] text[i]) != '"' && text[i]
            != '\\'
}

/// A plain text needs no escape.
pub proof fn law_plain_text_is_not_escaped(text: Seq<char>)
    requires
        is_plain(text),
    ensures
        escaped(text) == text,
    decreases text.len(),
{
    if text.len() > 0 {
        let shorter = text.drop_last();
        assert forall|i: int| 0 <= i < shorter.len() implies shorter[i] as int >= 32 && (
        #[trigger] shorter[i]) != '"' && shorter[i] != '\\' by {
            assert(shorter[i] == text[i]);
        }
        law_plain_text_is_not_escaped(shorter);
        assert(text[text.len() - 1] == text.last());
        assert(shorter + seq![text.last()] == text);
    }
}

/// Builds a `serde_json::Value` object with one string member and takes the
/// text that its `Display` writes, which is compact, with the escapes of the
/// `serde_json` writer.
#[verifier::external_body]
pub(crate) fn object_with(key: &str, value: &str) -> (result: String)
    ensures
        result@ == object_text(key@, value@),
{
    let mut object = serde_json::Map::new();
    object.insert(key.to_owned(), serde_json::Value::String(value.to_owned()));
    serde_json::Value::Object(object).to_string()
}

/// The compact text of the JSON document that `text` holds, as `serde_json`
/// reads and writes it, if `text` holds one.
pub uninterp spec fn compacted(text: Seq<char>) -> Option<Seq<char>>;

/// Reads `text` with `serde_json::from_str` and takes the text that the
/// `Display` of the value writes. Nothing is claimed but that the result
/// depends on `text` alone: which texts are JSON, and how numbers are written,
/// is not stated here.
#[verifier::external_body]
pub(crate) fn compact(text: &str) -> (result: Option<String>)
    ensures
        (match result {
            Some(compact) => Some(compact@),
            None => None,
        }) == compacted(text@),
{
    let document: serde_json::Value = serde_json::from_str(text).ok()?;
    Some(document.to_string())
}

} // verus!
