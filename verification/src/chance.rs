//! The sources of chance and of fresh identifiers. Everything here is taken
//! on trust from the crates that provide it: nothing in this file is proved.
//!
//! The thread's generator and the identifiers draw on the random source of
//! the operating system and panic if it fails. No argument decides that, so
//! no precondition can rule it out.

use rand::seq::SliceRandom;
use rand::Rng;
use rand::SeedableRng;
use vstd::prelude::*;

verus! {

/// The order that `rand`'s slice shuffle leaves `items` in when it is driven
/// by a `ChaCha12Rng` seeded with `seed` through `seed_from_u64`, with `rand`
/// in the version this crate is locked to and built with its default
/// features.
pub uninterp spec fn seeded_shuffle(seed: u64, items: Seq<usize>) -> Seq<usize>;

/// Whether `c` is one of `0`-`9` or `a`-`f`.
pub open spec fn is_lower_hex(c: char) -> bool {
    ('0' <= c && c <= '9') || ('a' <= c && c <= 'f')
}

/// Whether `c` may stand at place `i` of a hyphenated identifier: a hyphen
/// at the places 8, 13, 18 and 23, a hexadecimal digit elsewhere.
pub open spec fn fits_place(i: int, c: char) -> bool {
    if i == 8 || i == 13 || i == 18 || i == 23 {
        c == '-'
    } else {
        is_lower_hex(c)
    }
}

/// Whether `s` is a version-4 identifier in hyphenated lower-case form:
/// thirty-six characters in groups of 8, 4, 4, 4 and 12 hexadecimal digits,
/// the third group starting with `4` and the fourth with `8`, `9`, `a` or `b`.
pub open spec fn is_hyphenated_v4(s: Seq<char>) -> bool {
    &&& s.len() == 36
    &&& forall|i: int| 0 <= i < 36 ==> fits_place(i, #[trigger] s[i])
    &&& s[14] == '4'
    &&& (s[19] == '8' || s[19] == '9' || s[19] == 'a' || s[19] == 'b')
}

/// Calls `rand::rng().random_range(0..n)`: a number below `n`, drawn from the
/// thread's generator. The range must not be empty. Which number comes back
/// is not stated.
#[verifier::external_body]
pub(crate) fn random_below(n: usize) -> (r: usize)
    requires
        n > 0,
    ensures
        r < n,
{
    rand::rng().random_range(0..n)
}

/// Calls `rand::rng().random()` for a `u64`, to seed a shuffle with. Nothing
/// is stated of the value.
#[verifier::external_body]
pub(crate) fn random_seed() -> u64 {
    rand::rng().random()
}

/// Calls `SliceRandom::shuffle` on `items` with a `rand_chacha::ChaCha12Rng`
/// built by `seed_from_u64(seed)`. The generator is documented as
/// deterministic and portable, so the resulting order is a function of the
/// seed and the items; it is named, not described. The shuffle only swaps
/// elements, so the items are the same ones as before.
#[verifier::external_body]
pub(crate) fn shuffle_seeded(items: &mut Vec<usize>, seed: u64)
    ensures
        final(items)@ == seeded_shuffle(seed, old(items)@),
        final(items)@.to_multiset() == old(items)@.to_multiset(),
{
    let mut rng = rand_chacha::ChaCha12Rng::seed_from_u64(seed);
    items.shuffle(&mut rng);
}

/// Calls `uuid::Uuid::new_v4().to_string()`: a random version-4 identifier,
/// which `uuid` prints hyphenated and in lower case. Which identifier comes
/// back is not stated; two calls may or may not differ.
#[verifier::external_body]
pub(crate) fn fresh_session_id() -> (id: String)
    ensures
        is_hyphenated_v4(id@),
{
    uuid::Uuid::new_v4().to_string()
}

} // verus!
