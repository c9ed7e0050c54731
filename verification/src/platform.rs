//! The calls that this library makes into std's clock and hash maps and into
//! the `uuid` crate. Each function here is trusted: its contract states what
//! the called function's documentation promises, and nothing checks it.
use vstd::arithmetic::power::pow;
use vstd::prelude::*;

use std::collections::hash_map::RandomState;
use std::collections::HashMap;
use std::time::{Duration, Instant};
use vstd::std_specs::hash::{builds_valid_hashers, obeys_key_model};

verus! {

#[verifier::external_type_specification]
#[verifier::external_body]
pub struct ExInstant(Instant);

/// A universally unique identifier, held as its 128 bits (the first byte
/// of the identifier is the most significant byte).
#[derive(Debug, PartialEq, Eq, Clone, Copy, Hash)]
pub struct Uuid(pub u128);

impl Uuid {
    /// The identifier with the given bits.
    pub fn from_u128(bits: u128) -> (r: Uuid)
        ensures
            r.0 == bits,
    {
        Uuid(bits)
    }

    /// The bits of the identifier.
    pub fn as_u128(&self) -> (r: u128)
        ensures
            r == self.0,
    {
        self.0
    }
}

/// The lower-case hexadecimal digit for `n`, for `n` below 16.
pub open spec fn hex_digit(n: int) -> char {
    if n < 10 {
        ('0' as int + n) as char
    } else {
        ('a' as int + n - 10) as char
    }
}

/// The `k`-th of the 32 hexadecimal digits of `bits`, counting from the most
/// significant one.
pub open spec fn uuid_nibble(bits: u128, k: int) -> int {
    (bits as int / pow(16, (31 - k) as nat)) % 16
}

/// The number of hyphens before position `i` of the hyphenated text.
pub open spec fn hyphens_before(i: int) -> int {
    if i > 23 {
        4
    } else if i > 18 {
        3
    } else if i > 13 {
        2
    } else if i > 8 {
        1
    } else {
        0
    }
}

/// The hyphenated text of the identifier with these bits: its 32 lower-case
/// hexadecimal digits, most significant first, in groups of 8, 4, 4, 4 and
/// 12 joined by hyphens (36 characters in all).
pub open spec fn uuid_text(bits: u128) -> Seq<char> {
    Seq::new(
        36,
        |i: int|
            if i == 8 || i == 13 || i == 18 || i == 23 {
                '-'
            } else {
                hex_digit(uuid_nibble(bits, i - hyphens_before(i)))
            },
    )
}

/// Calls `uuid::Uuid::to_string` on the identifier with these bits. Claims
/// the hyphenated lower-case form that `uuid`'s `Display` writes.
#[verifier::external_body]
pub(crate) fn uuid_to_string(bits: u128) -> (s: String)
    ensures
        s@ == uuid_text(bits),
{
    uuid::Uuid::from_u128(bits).to_string()
}

/// Calls `Instant::elapsed`: the time that has passed since `instant`.
/// It depends on the clock, so nothing is claimed of the result.
#[verifier::external_body]
pub(crate) fn instant_elapsed(instant: &Instant) -> Duration {
    instant.elapsed()
}

/// The whole number of nanoseconds in a duration, as `Duration::as_nanos`
/// gives it.
pub uninterp spec fn duration_nanos(duration: Duration) -> u128;

/// Calls `Duration::as_nanos`: the whole number of nanoseconds in `duration`.
/// Claims that it depends on the duration alone (it is named
/// `duration_nanos`).
#[verifier::external_body]
pub(crate) fn duration_as_nanos(duration: &Duration) -> (r: u128)
    ensures
        r == duration_nanos(*duration),
{
    duration.as_nanos()
}

/// `entries` lists every entry of `map` exactly once, in some order.
pub open spec fn lists_entries<K, V>(map: Map<K, V>, entries: Seq<(K, V)>) -> bool {
    &&& entries.len() == map.dom().len()
    &&& forall|i: int|
        0 <= i < entries.len() ==> {
            &&& map.contains_key((#[trigger] entries[i]).0)
            &&& map[entries[i].0] == entries[i].1
        }
    &&& forall|i: int, j: int|
        0 <= i < entries.len() && 0 <= j < entries.len() && i != j ==> (#[trigger] entries[i]).0
            != (#[trigger] entries[j]).0
    &&& forall|k: K| #[trigger] map.contains_key(k) ==> exists|i: int| 0 <= i < entries.len() && entries[i].0 == k
}

/// Calls `HashMap::into_iter` and collects the entries it yields. Claims,
/// where the key type obeys the hash map's key model, that each entry is
/// yielded once; the order is left open.
#[verifier::external_body]
pub(crate) fn hash_map_entries<K, V>(map: HashMap<K, V>) -> (entries: Vec<(K, V)>)
    ensures
        obeys_key_model::<K>() && builds_valid_hashers::<RandomState>() ==> lists_entries(
            map@,
            entries@,
        ),
{
    map.into_iter().collect()
}

} // verus!
