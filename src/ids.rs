//! Post identifiers: random version-4 UUIDs held as a `u128`, with their
//! hyphenated text form.
use vstd::prelude::*;

verus! {

#[verifier::external_type_specification]
#[verifier::external_body]
pub struct ExUuidError(uuid::Error);

/// The version nibble of an identifier says 4 (random) and its variant bits
/// say RFC 4122.
pub open spec fn is_v4(v: u128) -> bool {
    (v >> 76u128) & 0xfu128 == 4 && (v >> 62u128) & 3u128 == 2
}

/// Lower-case hexadecimal digit for a value below 16.
pub open spec fn hex_digit(n: u128) -> char {
    if n < 10 {
        ((n + 48) as u8) as char
    } else {
        ((n + 87) as u8) as char
    }
}

/// The `i`-th of the 32 hex digits of `v`, most significant first.
pub open spec fn nibble(v: u128, i: int) -> u128 {
    (v >> ((31 - i) * 4) as u128) & 0xfu128
}

/// Positions of the four hyphens in the hyphenated form.
pub open spec fn is_hyphen_pos(k: int) -> bool {
    k == 8 || k == 13 || k == 18 || k == 23
}

/// Index of the hex digit shown at text position `k` (not a hyphen).
pub open spec fn digit_at(k: int) -> int {
    if k < 8 {
        k
    } else if k < 13 {
        k - 1
    } else if k < 18 {
        k - 2
    } else if k < 23 {
        k - 3
    } else {
        k - 4
    }
}

/// The hyphenated lower-case text of an identifier:
/// `xxxxxxxx-xxxx-xxxx-xxxx-xxxxxxxxxxxx`, 36 characters.
pub open spec fn uuid_text(v: u128) -> Seq<char> {
    Seq::new(
        36,
        |k: int|
            if is_hyphen_pos(k) {
                '-'
            } else {
                hex_digit(nibble(v, digit_at(k)))
            },
    )
}

/// Relies on uuid::Uuid::new_v4 (read back with Uuid::as_u128): random bits
/// with the version nibble set to 4 and the variant bits to RFC 4122.
#[verifier::external_body]
pub(crate) fn random_id() -> (r: u128)
    ensures
        is_v4(r),
{
    uuid::Uuid::new_v4().as_u128()
}

/// Relies on uuid::Uuid::from_u128 and the `Display` impl of uuid::Uuid: the
/// value's bytes big-endian, written in hyphenated lower-case hex.
#[verifier::external_body]
pub(crate) fn id_text(v: u128) -> (r: String)
    ensures
        r@ == uuid_text(v),
{
    uuid::Uuid::from_u128(v).to_string()
}

/// The value that a text denotes as a UUID (simple, hyphenated, braced or
/// URN form, hex digits in either case), where it denotes one.
pub uninterp spec fn uuid_parsed(s: Seq<char>) -> Option<u128>;

/// Relies on uuid::Uuid::parse_str (read back with Uuid::as_u128): the result
/// depends on the text alone, the hyphenated form of a value parses back to
/// that value, and the empty text is refused.
#[verifier::external_body]
pub(crate) fn parse_id(s: &str) -> (r: Result<u128, uuid::Error>)
    ensures
        r.is_ok() <==> uuid_parsed(s@) is Some,
        r matches Ok(v) ==> uuid_parsed(s@) == Some(v),
        s@.len() == 0 ==> r.is_err(),
        forall|v: u128| #[trigger] uuid_text(v) == s@ ==> (r is Ok && r->Ok_0 == v),
{
    match uuid::Uuid::parse_str(s) {
        Ok(u) => Ok(u.as_u128()),
        Err(e) => Err(e),
    }
}

} // verus!
