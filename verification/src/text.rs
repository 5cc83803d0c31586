//! Text as the library reads it: code points, byte lengths, trimming and
//! comparison.

use vstd::prelude::*;
use vstd::string::*;
use vstd::utf8::*;

verus! {

/// The code points with the Unicode property `White_Space`.
pub open spec fn white_space(c: char) -> bool {
    ||| '\u{9}' <= c <= '\u{d}'
    ||| c == '\u{20}'
    ||| c == '\u{85}'
    ||| c == '\u{a0}'
    ||| c == '\u{1680}'
    ||| '\u{2000}' <= c <= '\u{200a}'
    ||| c == '\u{2028}'
    ||| c == '\u{2029}'
    ||| c == '\u{202f}'
    ||| c == '\u{205f}'
    ||| c == '\u{3000}'
}

/// The code points of the Unicode general category `Cc`.
pub open spec fn control(c: char) -> bool {
    c <= '\u{1f}' || '\u{7f}' <= c <= '\u{9f}'
}

/// Whether `c` is white space.
pub fn is_white_space(c: char) -> (result: bool)
    ensures
        result == white_space(c),
{
    ('\u{9}' <= c && c <= '\u{d}') || c == '\u{20}' || c == '\u{85}' || c == '\u{a0}' || c
        == '\u{1680}' || ('\u{2000}' <= c && c <= '\u{200a}') || c == '\u{2028}' || c == '\u{2029}'
        || c == '\u{202f}' || c == '\u{205f}' || c == '\u{3000}'
}

/// Whether `c` is a control code.
pub fn is_control(c: char) -> (result: bool)
    ensures
        result == control(c),
{
    c <= '\u{1f}' || ('\u{7f}' <= c && c <= '\u{9f}')
}

/// What each of the texts holds.
pub open spec fn contents(texts: Seq<String>) -> Seq<Seq<char>> {
    Seq::new(texts.len(), |i: int| texts[i]@)
}

/// `text` without the white space it starts with.
pub open spec fn trimmed_start(text: Seq<char>) -> Seq<char>
    decreases text.len(),
{
    if text.len() > 0 && white_space(text[0]) {
        trimmed_start(text.drop_first())
    } else {
        text
    }
}

/// `text` without the white space it ends with.
pub open spec fn trimmed_end(text: Seq<char>) -> Seq<char>
    decreases text.len(),
{
    if text.len() > 0 && white_space(text.last()) {
        trimmed_end(text.drop_last())
    } else {
        text
    }
}

/// `text` without the white space at either end.
pub open spec fn trimmed(text: Seq<char>) -> Seq<char> {
    trimmed_end(trimmed_start(text))
}

/// The number of bytes that `text` takes in UTF-8.
pub open spec fn byte_length(text: Seq<char>) -> nat {
    encode_utf8(text).len()
}

/// The code points of `text`.
pub fn characters(text: &str) -> (result: Vec<char>)
    ensures
        result@ == text@,
{
    let mut result: Vec<char> = Vec::new();
    for c in it: text.chars()
        invariant
            it.seq() == text@,
            result@ == text@.subrange(0, it.index() as int),
    {
        result.push(c);
    }
    assert(text@.subrange(0, text@.len() as int) == text@);
    result
}

/// `text` without the white space at either end.
pub fn trim(text: &str) -> (result: &str)
    ensures
        result@ == trimmed(text@),
{
    let characters = characters(text);
    let length: usize = characters.len();
    let mut start: usize = 0;
    assert(text@.subrange(0, length as int) == text@);
    while start < length && is_white_space(characters[start])
        invariant
            characters@ == text@,
            start <= length == text@.len(),
            trimmed_start(text@) == trimmed_start(text@.subrange(start as int, length as int)),
        decreases length - start,
    {
        let ghost rest = text@.subrange(start as int, length as int);
        assert(rest.drop_first() == text@.subrange(start + 1, length as int));
        start = start + 1;
    }
    let mut end: usize = length;
    while start < end && is_white_space(characters[end - 1])
        invariant
            characters@ == text@,
            start <= end <= length == text@.len(),
            trimmed(text@) == trimmed_end(text@.subrange(start as int, end as int)),
        decreases end,
    {
        let ghost rest = text@.subrange(start as int, end as int);
        assert(rest.drop_last() == text@.subrange(start as int, end - 1));
        end = end - 1;
    }
    text.substring_char(start, end)
}

/// The number of bytes that `text` takes in UTF-8.
pub fn length(text: &str) -> (result: usize)
    ensures
        result == byte_length(text@),
{
    text.as_bytes().len()
}

/// Whether two texts are the same.
pub fn same(left: &str, right: &str) -> (result: bool)
    ensures
        result == (left@ == right@),
{
    let a = left.as_bytes();
    let b = right.as_bytes();
    proof {
        encode_utf8_decode_utf8(left@);
        encode_utf8_decode_utf8(right@);
    }
    if a.len() != b.len() {
        return false;
    }
    let mut i: usize = 0;
    while i < a.len()
        invariant
            i <= a@.len() == b@.len(),
            a@ == encode_utf8(left@),
            b@ == encode_utf8(right@),
            forall|j: int| 0 <= j < i ==> a@[j] == b@[j],
        decreases a@.len() - i,
    {
        if a[i] != b[i] {
            return false;
        }
        i = i + 1;
    }
    assert(a@ == b@);
    true
}

/// Whether `text` is one of `texts`.
pub fn is_among(text: &str, texts: &Vec<String>) -> (result: bool)
    ensures
        result == contents(texts@).contains(text@),
{
    let mut i: usize = 0;
    while i < texts.len()
        invariant
            i <= texts@.len(),
            forall|j: int| 0 <= j < i ==> #[trigger] contents(texts@)[j] != text@,
        decreases texts@.len() - i,
    {
        if same(texts[i].as_str(), text) {
            assert(contents(texts@)[i as int] == text@);
            return true;
        }
        i = i + 1;
    }
    false
}

/// A copy of `texts`.
pub fn copies(texts: &Vec<String>) -> (result: Vec<String>)
    ensures
        contents(result@) == contents(texts@),
{
    let mut result: Vec<String> = Vec::new();
    let mut i: usize = 0;
    while i < texts.len()
        invariant
            i <= texts@.len(),
            result@.len() == i,
            forall|j: int| 0 <= j < i ==> #[trigger] result@[j]@ == texts@[j]@,
        decreases texts@.len() - i,
    {
        result.push(texts[i].clone());
        i = i + 1;
    }
    result
}

/// `middle` between `before` and `after`.
pub fn enclose(before: &str, middle: &str, after: &str) -> (result: String)
    ensures
        result@ == before@ + middle@ + after@,
{
    let mut result = before.to_owned();
    result.append(middle);
    result.append(after);
    result
}

proof fn lemma_trimmed_start_is_trimmed(text: Seq<char>)
    ensures
        trimmed_start(text).len() > 0 ==> !white_space(trimmed_start(text)[0]),
    decreases text.len(),
{
    if text.len() > 0 && white_space(text[0]) {
        lemma_trimmed_start_is_trimmed(text.drop_first());
    }
}

proof fn lemma_trimmed_end_is_trimmed(text: Seq<char>)
    ensures
        trimmed_end(text).len() > 0 ==> !white_space(trimmed_end(text).last()) && trimmed_end(
            text,
        )[0] == text[0],
    decreases text.len(),
{
    if text.len() > 0 && white_space(text.last()) {
        lemma_trimmed_end_is_trimmed(text.drop_last());
    }
}

/// Trimming a trimmed text changes nothing.
pub proof fn law_trimming_is_stable(text: Seq<char>)
    ensures
        trimmed(trimmed(text)) == trimmed(text),
{
    lemma_trimmed_start_is_trimmed(text);
    lemma_trimmed_end_is_trimmed(trimmed_start(text));
}

} // verus!
