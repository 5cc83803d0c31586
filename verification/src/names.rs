//! The rules that names, slugs, permissions and secret references obey.

use vstd::prelude::*;
use vstd::utf8::*;

use crate::text;

verus! {

/// The longest Instance key, identifier or idempotency key, in bytes.
pub const NAME_LIMIT: usize = 256;

pub open spec fn ascii_digit(c: char) -> bool {
    '0' <= c <= '9'
}

pub open spec fn ascii_lowercase(c: char) -> bool {
    'a' <= c <= 'z'
}

pub open spec fn ascii_alphanumeric(c: char) -> bool {
    ascii_digit(c) || ascii_lowercase(c) || 'A' <= c <= 'Z'
}

pub open spec fn name_character(c: char) -> bool {
    ascii_alphanumeric(c) || c == '.' || c == '_' || c == '-' || c == ':'
}

pub open spec fn slug_character(c: char) -> bool {
    ascii_lowercase(c) || ascii_digit(c) || c == '-'
}

pub open spec fn reference_character(c: char) -> bool {
    ascii_alphanumeric(c) || c == '.' || c == '_' || c == '-' || c == '/'
}

/// A key, identifier or subject: ASCII letters and digits, `.`, `_`, `-` and
/// `:`, at least one and at most `limit` of them.
pub open spec fn is_name(value: Seq<char>, limit: int) -> bool {
    &&& 0 < value.len() <= limit
    &&& forall|i: int| 0 <= i < value.len() ==> name_character(#[trigger] value[i])
}

/// Names, every one of them.
pub open spec fn are_names(values: Seq<Seq<char>>, limit: int) -> bool {
    forall|i: int| 0 <= i < values.len() ==> is_name(#[trigger] values[i], limit)
}

/// A slug: at most a hundred lower-case letters, digits and hyphens, with no
/// hyphen at either end.
pub open spec fn is_slug(value: Seq<char>) -> bool {
    &&& 0 < value.len() <= 100
    &&& forall|i: int| 0 <= i < value.len() ==> slug_character(#[trigger] value[i])
    &&& value[0] != '-'
    &&& value.last() != '-'
}

/// A permission: a name of at most two hundred characters with a dot in it.
pub open spec fn is_permission(value: Seq<char>) -> bool {
    is_name(value, 200) && value.contains('.')
}

/// An Organization name: once trimmed it is not empty, takes at most two
/// hundred bytes and holds no control code.
pub open spec fn is_organization_name(value: Seq<char>) -> bool {
    let name = text::trimmed(value);
    &&& name.len() > 0
    &&& text::byte_length(name) <= 200
    &&& forall|i: int| 0 <= i < name.len() ==> !text::control(#[trigger] name[i])
}

/// Whether `value[start..end]` is one of the segments between the slashes.
pub open spec fn is_segment(value: Seq<char>, start: int, end: int) -> bool {
    &&& 0 <= start <= end <= value.len()
    &&& start == 0 || value[start - 1] == '/'
    &&& end == value.len() || value[end] == '/'
    &&& forall|i: int| start <= i < end ==> #[trigger] value[i] != '/'
}

/// Whether a segment is one of the relative ones, `.` and `..`.
pub open spec fn is_relative(segment: Seq<char>) -> bool {
    segment == seq!['.'] || segment == seq!['.', '.']
}

/// A secret reference: a path of non-empty segments of letters, digits, `.`,
/// `_` and `-`, none of them `.` or `..`, of at most 256 characters in all.
pub open spec fn is_secret_reference(value: Seq<char>) -> bool {
    &&& 0 < value.len() <= NAME_LIMIT
    &&& value[0] != '/'
    &&& value.last() != '/'
    &&& forall|i: int|
        0 <= i < value.len() - 1 ==> !(#[trigger] value[i] == '/' && value[i + 1] == '/')
    &&& forall|start: int, end: int|
        #[trigger] is_segment(value, start, end) ==> !is_relative(value.subrange(start, end))
    &&& forall|i: int| 0 <= i < value.len() ==> reference_character(#[trigger] value[i])
}

fn is_ascii_alphanumeric(c: char) -> (result: bool)
    ensures
        result == ascii_alphanumeric(c),
{
    ('0' <= c && c <= '9') || ('a' <= c && c <= 'z') || ('A' <= c && c <= 'Z')
}

/// Text of ASCII characters takes one byte for each.
proof fn lemma_ascii_length(value: Seq<char>)
    requires
        forall|i: int| 0 <= i < value.len() ==> '\0' <= #[trigger] value[i] <= '\u{7f}',
    ensures
        text::byte_length(value) == value.len(),
{
    assert(is_ascii_chars(value));
    is_ascii_chars_encode_utf8(value);
}

/// Whether `value` is a name of at most `max` characters.
pub fn valid_name(value: &str, max: usize) -> (result: bool)
    ensures
        result == is_name(value@, max as int),
{
    proof {
        if is_name(value@, max as int) {
            lemma_ascii_length(value@);
        }
    }
    if value.is_empty() || text::length(value) > max {
        return false;
    }
    let characters = text::characters(value);
    let mut i: usize = 0;
    while i < characters.len()
        invariant
            i <= characters@.len(),
            characters@ == value@,
            forall|j: int| 0 <= j < i ==> name_character(#[trigger] value@[j]),
        decreases characters@.len() - i,
    {
        let c: char = characters[i];
        if !(is_ascii_alphanumeric(c) || c == '.' || c == '_' || c == '-' || c == ':') {
            assert(!name_character(value@[i as int]));
            return false;
        }
        i = i + 1;
    }
    proof {
        lemma_ascii_length(value@);
    }
    true
}

/// Whether every one of `values` is a name of at most `max` characters.
pub fn valid_names(values: &Vec<String>, max: usize) -> (result: bool)
    ensures
        result == are_names(text::contents(values@), max as int),
{
    let mut i: usize = 0;
    while i < values.len()
        invariant
            i <= values@.len(),
            forall|j: int|
                0 <= j < i ==> is_name(#[trigger] text::contents(values@)[j], max as int),
        decreases values@.len() - i,
    {
        if !valid_name(values[i].as_str(), max) {
            assert(!is_name(text::contents(values@)[i as int], max as int));
            return false;
        }
        i = i + 1;
    }
    true
}

/// Whether `value` is a slug.
pub fn valid_slug(value: &str) -> (result: bool)
    ensures
        result == is_slug(value@),
{
    proof {
        if is_slug(value@) {
            lemma_ascii_length(value@);
        }
    }
    if value.is_empty() || text::length(value) > 100 {
        return false;
    }
    let characters = text::characters(value);
    let mut i: usize = 0;
    while i < characters.len()
        invariant
            i <= characters@.len(),
            characters@ == value@,
            forall|j: int| 0 <= j < i ==> slug_character(#[trigger] value@[j]),
        decreases characters@.len() - i,
    {
        let c: char = characters[i];
        if !(('a' <= c && c <= 'z') || ('0' <= c && c <= '9') || c == '-') {
            assert(!slug_character(value@[i as int]));
            return false;
        }
        i = i + 1;
    }
    proof {
        lemma_ascii_length(value@);
    }
    characters[0] != '-' && characters[characters.len() - 1] != '-'
}

/// Whether `value` is a permission.
pub fn valid_permission(value: &str) -> (result: bool)
    ensures
        result == is_permission(value@),
{
    if !valid_name(value, 200) {
        return false;
    }
    let characters = text::characters(value);
    let mut i: usize = 0;
    while i < characters.len()
        invariant
            i <= characters@.len(),
            characters@ == value@,
            is_name(value@, 200),
            forall|j: int| 0 <= j < i ==> #[trigger] value@[j] != '.',
        decreases characters@.len() - i,
    {
        if characters[i] == '.' {
            assert(value@[i as int] == '.');
            return true;
        }
        i = i + 1;
    }
    false
}

/// Whether `value` is an Organization name.
pub fn valid_organization_name(value: &str) -> (result: bool)
    ensures
        result == is_organization_name(value@),
{
    let name = text::trim(value);
    if name.is_empty() || text::length(name) > 200 {
        return false;
    }
    let characters = text::characters(name);
    let mut i: usize = 0;
    while i < characters.len()
        invariant
            i <= characters@.len(),
            characters@ == name@,
            name@ == text::trimmed(value@),
            forall|j: int| 0 <= j < i ==> !text::control(#[trigger] name@[j]),
        decreases characters@.len() - i,
    {
        if text::is_control(characters[i]) {
            assert(text::control(name@[i as int]));
            return false;
        }
        i = i + 1;
    }
    true
}

/// Whether the three texts of a membership request are names.
pub fn valid_membership_request(
    idempotency_key: &str,
    organization_id: &str,
    subject: &str,
) -> (result: bool)
    ensures
        result == (is_name(idempotency_key@, NAME_LIMIT as int) && is_name(
            organization_id@,
            NAME_LIMIT as int,
        ) && is_name(subject@, NAME_LIMIT as int)),
{
    valid_name(idempotency_key, NAME_LIMIT) && valid_name(organization_id, NAME_LIMIT)
        && valid_name(subject, NAME_LIMIT)
}

/// Whether none of the segments of `value` that end before `limit` is
/// relative.
spec fn segments_before_are_proper(value: Seq<char>, limit: int) -> bool {
    forall|start: int, end: int|
        #[trigger] is_segment(value, start, end) && end < limit ==> !is_relative(
            value.subrange(start, end),
        )
}

/// Whether one of the segments of `value` is `.` or `..`.
fn has_relative_segment(value: &Vec<char>) -> (result: bool)
    ensures
        result == exists|start: int, end: int| #[trigger]
            is_segment(value@, start, end) && is_relative(value@.subrange(start, end)),
{
    let length: usize = value.len();
    let mut start: usize = 0;
    let mut end: usize = 0;
    while end < length
        invariant
            start <= end <= length == value@.len(),
            start == 0 || value@[start - 1] == '/',
            forall|i: int| start <= i < end ==> #[trigger] value@[i] != '/',
            segments_before_are_proper(value@, end as int),
        decreases length - end,
    {
        if value[end] == '/' {
            assert(is_segment(value@, start as int, end as int));
            if relative_segment(value, start, end) {
                return true;
            }
            proof {
                lemma_segment_ending_here_is_unique(value@, start as int, end as int);
            }
            start = end + 1;
        } else {
            assert(forall|other: int| !#[trigger] is_segment(value@, other, end as int));
        }
        end = end + 1;
    }
    assert(is_segment(value@, start as int, end as int));
    proof {
        lemma_segment_ending_here_is_unique(value@, start as int, end as int);
    }
    relative_segment(value, start, end)
}

proof fn lemma_segment_ending_here_is_unique(value: Seq<char>, start: int, end: int)
    requires
        is_segment(value, start, end),
    ensures
        forall|other: int| #[trigger] is_segment(value, other, end) ==> other == start,
{
    assert forall|other: int| #[trigger] is_segment(value, other, end) implies other == start by {
        if other < start {
            assert(value[start - 1] == '/');
        } else if start < other {
            assert(value[other - 1] == '/');
        }
    }
}

fn relative_segment(value: &Vec<char>, start: usize, end: usize) -> (result: bool)
    requires
        start <= end <= value@.len(),
    ensures
        result == is_relative(value@.subrange(start as int, end as int)),
{
    let ghost segment = value@.subrange(start as int, end as int);
    let length: usize = end - start;
    proof {
        assert(segment.len() == length);
        assert(length >= 1 ==> segment[0] == value@[start as int]);
        assert(length >= 2 ==> segment[1] == value@[start + 1]);
        assert(seq!['.'].len() == 1 && seq!['.', '.'].len() == 2);
        assert(seq!['.'][0] == '.' && seq!['.', '.'][0] == '.' && seq!['.', '.'][1] == '.');
        assert(length == 1 && segment[0] == '.' ==> segment == seq!['.']);
        assert(length == 2 && segment[0] == '.' && segment[1] == '.' ==> segment == seq![
            '.',
            '.',
        ]);
    }
    if length == 1 {
        value[start] == '.'
    } else if length == 2 {
        value[start] == '.' && value[start + 1] == '.'
    } else {
        false
    }
}

/// Whether `reference` is a secret reference.
pub fn valid_secret_reference(reference: &str) -> (result: bool)
    ensures
        result == is_secret_reference(reference@),
{
    proof {
        if is_secret_reference(reference@) {
            lemma_ascii_length(reference@);
        }
    }
    if reference.is_empty() || text::length(reference) > NAME_LIMIT {
        return false;
    }
    let characters = text::characters(reference);
    let length: usize = characters.len();
    if characters[0] == '/' || characters[length - 1] == '/' {
        return false;
    }
    let mut i: usize = 0;
    while i < length
        invariant
            i <= length == characters@.len(),
            characters@ == reference@,
            forall|j: int| 0 <= j < i ==> reference_character(#[trigger] reference@[j]),
            forall|j: int|
                0 <= j < i && j < length - 1 ==> !(#[trigger] reference@[j] == '/' && reference@[j
                    + 1] == '/'),
        decreases length - i,
    {
        let c: char = characters[i];
        if !(is_ascii_alphanumeric(c) || c == '.' || c == '_' || c == '-' || c == '/') {
            assert(!reference_character(reference@[i as int]));
            return false;
        }
        if c == '/' && i + 1 < length && characters[i + 1] == '/' {
            assert(reference@[i as int] == '/' && reference@[i + 1] == '/');
            return false;
        }
        i = i + 1;
    }
    proof {
        lemma_ascii_length(reference@);
    }
    !has_relative_segment(&characters)
}

/// An Organization name is as good as its trimmed form.
pub proof fn law_trimmed_name_is_as_valid(value: Seq<char>)
    ensures
        is_organization_name(text::trimmed(value)) == is_organization_name(value),
{
    text::law_trimming_is_stable(value);
}

} // verus!
