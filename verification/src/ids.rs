//! Identifiers and clock readings.
//!
//! Every entity of a project (project, media asset, track, clip, suggestion,
//! snapshot, export) is identified by the 128-bit value of a UUID, and every
//! timestamp is a count of milliseconds since the Unix epoch (UTC).

use vstd::prelude::*;
use crate::text::spec_digit;

verus! {

/// Lower-case hexadecimal digit of `d` (for `d < 16`).
pub open spec fn spec_hex_digit(d: nat) -> char {
    if d < 10 { spec_digit(d) }
    else if d == 10 { 'a' }
    else if d == 11 { 'b' }
    else if d == 12 { 'c' }
    else if d == 13 { 'd' }
    else if d == 14 { 'e' }
    else { 'f' }
}

/// The `i`-th hexadecimal digit (0 = most significant) of a 128-bit value.
pub open spec fn spec_nibble(v: u128, i: int) -> nat {
    ((v >> ((4 * (31 - i)) as u128)) & 0xf) as nat
}

/// Position of the hex digit shown at column `j` of the hyphenated form.
pub open spec fn spec_uuid_column(j: int) -> int {
    if j < 8 { j } else if j < 13 { j - 1 } else if j < 18 { j - 2 } else if j < 23 { j - 3 } else { j - 4 }
}

/// Hyphenated lower-case text of a UUID: `xxxxxxxx-xxxx-xxxx-xxxx-xxxxxxxxxxxx`,
/// the digits of the value from the most significant one.
pub open spec fn spec_uuid_text(v: u128) -> Seq<char> {
    Seq::new(36, |j: int|
        if j == 8 || j == 13 || j == 18 || j == 23 { '-' }
        else { spec_hex_digit(spec_nibble(v, spec_uuid_column(j))) })
}

/// `uuid::Uuid::new_v4`: a random version-4 UUID. The version nibble is 4 and
/// the variant bits are `10`; the other 122 bits are random and nothing is
/// promised of them.
#[verifier::external_body]
pub(crate) fn new_id() -> (r: u128)
    ensures
        (r >> 76u128) & 0xf == 4,
        (r >> 62u128) & 0x3 == 2,
{
    uuid::Uuid::new_v4().as_u128()
}

/// `uuid::Uuid` display (`to_string` of `Uuid::from_u128`): the hyphenated
/// lower-case hexadecimal form of the value.
#[verifier::external_body]
pub(crate) fn uuid_string(v: u128) -> (r: String)
    ensures
        r@ == spec_uuid_text(v),
{
    uuid::Uuid::from_u128(v).to_string()
}

/// `chrono::Utc::now`, as milliseconds since the Unix epoch. The reading
/// depends on the clock; nothing is promised of it.
#[verifier::external_body]
pub(crate) fn now_ms() -> (r: i64) {
    chrono::Utc::now().timestamp_millis()
}

} // verus!
