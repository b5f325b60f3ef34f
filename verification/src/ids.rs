//! Identifiers: UUIDs are carried as their 128-bit value.

use vstd::prelude::*;

verus! {

/// The value of the UUID written in `text`, when `text` is a UUID in one of
/// the forms that the uuid crate accepts.
pub uninterp spec fn parsed_uuid(text: Seq<char>) -> Option<u128>;

/// Lower-case hexadecimal digit for `n` in `0..16`.
pub open spec fn hex_char(n: int) -> char {
    if n < 10 {
        (48 + n) as char
    } else {
        (87 + n) as char
    }
}

/// The `j`-th hexadecimal digit of `id`, most significant first.
pub open spec fn uuid_nibble(id: u128, j: int) -> int {
    (id as int / vstd::arithmetic::power::pow(16, (31 - j) as nat)) % 16
}

/// Position of the hexadecimal digit shown at character `i` of the
/// hyphenated form.
pub open spec fn digit_at(i: int) -> int {
    i - (if i > 23 {
        4int
    } else if i > 18 {
        3int
    } else if i > 13 {
        2int
    } else if i > 8 {
        1int
    } else {
        0int
    })
}

/// The hyphenated lower-case form of a UUID, such as
/// `67e55044-10b1-426f-9247-bb680e5fe0c8`.
pub open spec fn uuid_text(id: u128) -> Seq<char> {
    Seq::new(
        36,
        |i: int|
            if i == 8 || i == 13 || i == 18 || i == 23 {
                '-'
            } else {
                hex_char(uuid_nibble(id, digit_at(i)))
            },
    )
}

/// Reads a UUID with `uuid::Uuid::parse_str`; `None` when the text is no
/// UUID. The result is named by `parsed_uuid`, nothing more is claimed.
#[verifier::external_body]
pub(crate) fn uuid_from_str(text: &str) -> (res: Option<u128>)
    ensures
        res == parsed_uuid(text@),
{
    uuid::Uuid::parse_str(text).ok().map(|u| u.as_u128())
}

/// Writes a UUID with `uuid::Uuid`'s `Display`: the hyphenated lower-case
/// form, which `uuid::Uuid::parse_str` reads back as the same UUID.
#[verifier::external_body]
pub(crate) fn uuid_to_string(id: u128) -> (res: String)
    ensures
        res@ == uuid_text(id),
        parsed_uuid(res@) == Some(id),
{
    uuid::Uuid::from_u128(id).to_string()
}

/// A version-4 UUID of the RFC 4122 variant: version nibble 4 (the high
/// nibble of byte 6) and variant bits `10` (the top bits of byte 8).
pub open spec fn is_v4_uuid(id: u128) -> bool {
    &&& (id >> 76u128) & 0xfu128 == 4u128
    &&& (id >> 62u128) & 0x3u128 == 2u128
}

/// A fresh random UUID from `uuid::Uuid::new_v4`: its version and variant
/// bits are those of a version-4 UUID; nothing is claimed of its random
/// bits.
#[verifier::external_body]
pub(crate) fn new_random_uuid() -> (res: u128)
    ensures
        is_v4_uuid(res),
{
    uuid::Uuid::new_v4().as_u128()
}

} // verus!
