//! Identifiers and timestamps. Identifiers are UUIDs held as 128-bit integers;
//! timestamps are microseconds since the Unix epoch.

use vstd::prelude::*;
use crate::json::spec_hex_digit;

verus! {

/// A fresh time-ordered UUID (version 7) from `uuid::Uuid::now_v7`. It depends on the
/// clock and on chance, so nothing is stated of it.
#[verifier::external_body]
pub(crate) fn new_id() -> u128 {
    uuid::Uuid::now_v7().as_u128()
}

/// The current time from `chrono::Utc::now`, in microseconds since the Unix epoch. It
/// depends on the clock, so nothing is stated of it.
#[verifier::external_body]
pub(crate) fn now_micros() -> i64 {
    chrono::Utc::now().timestamp_micros()
}

/// The `count` lowercase hexadecimal digits of `n`, most significant first.
pub open spec fn spec_hex_of(n: nat, count: nat) -> Seq<char>
    decreases count,
{
    if count == 0 {
        Seq::empty()
    } else {
        spec_hex_of(n / 16, (count - 1) as nat).push(spec_hex_digit((n % 16) as u32))
    }
}

/// The hyphenated lowercase text of a UUID: its 32 hexadecimal digits, most
/// significant first, in groups of 8, 4, 4, 4 and 12 joined by `-`.
pub open spec fn spec_uuid_text(id: u128) -> Seq<char> {
    let h = spec_hex_of(id as nat, 32);
    h.subrange(0, 8) + "-"@ + h.subrange(8, 12) + "-"@ + h.subrange(12, 16) + "-"@ + h.subrange(16, 20) + "-"@
        + h.subrange(20, 32)
}

/// `uuid::Uuid::from_u128` and its `Display`: the hyphenated lowercase text of the
/// identifier's 128 bits, most significant first.
#[verifier::external_body]
pub(crate) fn uuid_text(id: u128) -> (r: String)
    ensures
        r@ == spec_uuid_text(id),
{
    uuid::Uuid::from_u128(id).to_string()
}

} // verus!
