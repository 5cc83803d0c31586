//! Generated identifiers: a prefix and eighteen random bytes in hexadecimal.

use vstd::prelude::*;

use crate::failure::OrganizationError;
use crate::names;
use crate::notation;

verus! {

/// The error of the operating system's random source.
#[verifier::external_type_specification]
#[verifier::external_body]
pub struct RandomSourceError(getrandom::Error);

/// Fills eighteen bytes with `getrandom::fill`. Nothing is claimed of what
/// the bytes are: they come from the operating system's random source, which
/// may also be unavailable.
#[verifier::external_body]
fn random_bytes() -> (result: Result<[u8; 18], getrandom::Error>) {
    let mut bytes = [0_u8; 18];
    getrandom::fill(&mut bytes)?;
    Ok(bytes)
}

/// The identifier made of `prefix` and `bytes`.
pub open spec fn identifier_text(prefix: Seq<char>, bytes: Seq<u8>) -> Seq<char> {
    prefix + notation::hexadecimal(bytes)
}

/// Whether `id` can come out of [`random_id`]: the prefix, then eighteen bytes
/// in hexadecimal.
pub open spec fn is_generated(id: Seq<char>, prefix: Seq<char>) -> bool {
    exists|bytes: Seq<u8>| bytes.len() == 18 && id == #[trigger] identifier_text(prefix, bytes)
}

/// The identifier made of `prefix` and `bytes`.
pub fn identifier(prefix: &str, bytes: &[u8]) -> (result: String)
    ensures
        result@ == identifier_text(prefix@, bytes@),
{
    let mut id = prefix.to_owned();
    notation::append_hexadecimal(&mut id, bytes);
    id
}

/// What comes of a draw from the random source: the identifier made of exactly
/// the bytes that it delivered, or the failure where it delivered none.
pub fn identifier_from(
    prefix: &str,
    drawn: Result<[u8; 18], getrandom::Error>,
) -> (result: Result<String, OrganizationError>)
    ensures
        match drawn {
            Ok(bytes) => result matches Ok(id) && id@ == identifier_text(prefix@, bytes@),
            Err(_) => result == Err::<String, OrganizationError>(OrganizationError::Random),
        },
{
    match drawn {
        Ok(bytes) => Ok(identifier(prefix, &bytes)),
        Err(_) => Err(OrganizationError::Random),
    }
}

/// A new identifier with the given prefix: [`identifier_from`] on a draw. The
/// only failure is that the random source is unavailable.
pub fn random_id(prefix: &str) -> (result: Result<String, OrganizationError>)
    ensures
        match result {
            Ok(id) => is_generated(id@, prefix@),
            Err(error) => error == OrganizationError::Random,
        },
{
    identifier_from(prefix, random_bytes())
}

/// An identifier is its prefix and two lower-case hexadecimal digits for each
/// byte, leading zeros among them.
pub proof fn law_identifier_has_two_digits_for_each_byte(prefix: Seq<char>, bytes: Seq<u8>, i: int)
    requires
        0 <= i < bytes.len(),
    ensures
        ({
            let id = identifier_text(prefix, bytes);
            let at = prefix.len() + 2 * i;
            &&& id.len() == prefix.len() + 2 * bytes.len()
            &&& id.take(prefix.len() as int) == prefix
            &&& id[at] == notation::digit(bytes[i] as int / 16)
            &&& id[at + 1] == notation::digit(bytes[i] as int % 16)
        }),
{
    let id = identifier_text(prefix, bytes);
    notation::lemma_hexadecimal_shape(bytes);
    notation::lemma_hexadecimal_digits(bytes, i);
    assert(id.take(prefix.len() as int) =~= prefix);
    assert(id[prefix.len() + 2 * i] == notation::hexadecimal(bytes)[2 * i]);
    assert(id[prefix.len() + 2 * i + 1] == notation::hexadecimal(bytes)[2 * i + 1]);
}

/// Identifiers with one prefix repeat only where the random bytes do.
pub proof fn law_identifiers_differ_with_their_bytes(
    prefix: Seq<char>,
    left: Seq<u8>,
    right: Seq<u8>,
)
    requires
        left != right,
    ensures
        identifier_text(prefix, left) != identifier_text(prefix, right),
{
    let a = identifier_text(prefix, left);
    let b = identifier_text(prefix, right);
    if a == b {
        assert(a.subrange(prefix.len() as int, a.len() as int) == notation::hexadecimal(left));
        assert(b.subrange(prefix.len() as int, b.len() as int) == notation::hexadecimal(right));
        notation::lemma_hexadecimal_injective(left, right);
    }
}

/// A generated identifier is a name that requests may carry, as long as its
/// prefix is one and leaves room for the thirty-six digits.
pub proof fn law_generated_identifiers_are_names(id: Seq<char>, prefix: Seq<char>)
    requires
        is_generated(id, prefix),
        names::is_name(prefix, names::NAME_LIMIT - 36),
    ensures
        names::is_name(id, names::NAME_LIMIT as int),
{
    let bytes = choose|bytes: Seq<u8>|
        bytes.len() == 18 && id == #[trigger] identifier_text(prefix, bytes);
    notation::lemma_hexadecimal_shape(bytes);
    assert forall|i: int| 0 <= i < id.len() implies names::name_character(#[trigger] id[i]) by {
        if i < prefix.len() {
            assert(id[i] == prefix[i]);
        } else {
            assert(id[i] == notation::hexadecimal(bytes)[i - prefix.len()]);
        }
    }
}

} // verus!
