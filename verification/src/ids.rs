//! Identifiers are UUIDs, carried as their 128-bit value (`Uuid::as_u128`,
//! whose order is the order of the UUIDs).  Parsing and printing go through
//! the `uuid` crate.
use uuid::Uuid;
use vstd::prelude::*;

verus! {

/// What `Uuid::parse_str` gives for a text: the UUID's value, or the text of
/// its error.
pub uninterp spec fn uuid_parse_str(s: Seq<char>) -> Result<u128, Seq<char>>;

pub open spec fn hex_char(d: int) -> char {
    if d < 10 {
        crate::money::digit_char(d)
    } else if d == 10 {
        'a'
    } else if d == 11 {
        'b'
    } else if d == 12 {
        'c'
    } else if d == 13 {
        'd'
    } else if d == 14 {
        'e'
    } else {
        'f'
    }
}

/// The last `count` hexadecimal digits of `n`, most significant first.
pub open spec fn hex_digits(n: nat, count: nat) -> Seq<char>
    decreases count,
{
    if count == 0 {
        Seq::empty()
    } else {
        hex_digits(n / 16, (count - 1) as nat).push(hex_char((n % 16) as int))
    }
}

/// The hyphenated lower-case form of a UUID: 32 hexadecimal digits in groups
/// of 8, 4, 4, 4 and 12.
pub open spec fn uuid_text(u: u128) -> Seq<char> {
    let h = hex_digits(u as nat, 32);
    h.subrange(0, 8) + seq!['-'] + h.subrange(8, 12) + seq!['-'] + h.subrange(12, 16) + seq!['-']
        + h.subrange(16, 20) + seq!['-'] + h.subrange(20, 32)
}

/// `Uuid::parse_str` reads the text as the UUID `u`.
pub open spec fn parses_back_to(s: Seq<char>, u: u128) -> bool {
    uuid_parse_str(s) matches Ok(v) && v == u
}

/// Parses a UUID with `Uuid::parse_str`.
/// Trusted: the result is what `parse_str` gives (its error as text).
/// Which texts parse is not stated here.
#[verifier::external_body]
pub(crate) fn parse_uuid_text(s: &str) -> (r: Result<u128, String>)
    ensures
        match r {
            Ok(u) => uuid_parse_str(s@) matches Ok(v) && v == u,
            Err(e) => uuid_parse_str(s@) matches Err(m) && m == e@,
        },
{
    match Uuid::parse_str(s) {
        Ok(u) => Ok(u.as_u128()),
        Err(e) => Err(e.to_string()),
    }
}

/// Prints a UUID with its `Display` (`to_string`).
/// Trusted: the text is the hyphenated lower-case form, and `parse_str`
/// reads it back as the same UUID.
#[verifier::external_body]
pub(crate) fn uuid_to_text(u: u128) -> (r: String)
    ensures
        r@ == uuid_text(u),
        parses_back_to(r@, u),
{
    Uuid::from_u128(u).to_string()
}

} // verus!
