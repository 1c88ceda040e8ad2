//! Utility functions for the flight tracker app.

use crate::text::is_lower_alnum;
use std::hash::{BuildHasher, Hasher};
use vstd::prelude::*;

verus! {

/// Relies on `std::collections::hash_map::RandomState`: each instance is
/// seeded from fresh OS-provided randomness, and the finish value of a
/// hasher built from it depends on that seed alone. Nothing is promised of
/// the value: callers treat it as an arbitrary `u64`.
#[verifier::external_body]
pub(crate) fn random_seed() -> u64 {
    std::collections::hash_map::RandomState::new().build_hasher().finish()
}

/// Relies on `String`'s `FromIterator<char>` implementation: collecting
/// characters yields the string of exactly those characters, in order.
#[verifier::external_body]
pub(crate) fn chars_to_string(v: &Vec<char>) -> (s: String)
    ensures
        s@ == v@,
{
    v.iter().collect()
}

/// One step of a mixed linear congruential generator, to stretch a random
/// seed over many draws.
fn next_state(s: u64) -> u64 {
    s.wrapping_mul(6364136223846793005).wrapping_add(1442695040888963407)
}

/// Generate a random alphanumeric string of given length.
///
/// Every character is a lowercase letter or a digit; the choice is seeded
/// from OS randomness, so nothing more is stated of the content.
pub fn rand_string(len: usize) -> (r: String)
    ensures
        r@.len() == len,
        forall|i: int| 0 <= i < r@.len() ==> is_lower_alnum(r@[i]),
{
    let mut state = random_seed();
    let mut out: Vec<char> = Vec::new();
    let mut k: usize = 0;
    while k < len
        invariant
            k <= len,
            out@.len() == k,
            forall|i: int| 0 <= i < out@.len() ==> is_lower_alnum(out@[i]),
        decreases len - k,
    {
        state = next_state(state);
        let d = (state % 36) as u8;
        let c = if d < 26 {
            (97u8 + d) as char
        } else {
            (48u8 + (d - 26)) as char
        };
        assert(is_lower_alnum(c));
        out.push(c);
        k = k + 1;
    }
    chars_to_string(&out)
}

/// Simple greeting, kept for compatibility with the frontend.
pub fn greet(name: &str) -> (g: String)
    ensures
        g@ == "Hello, "@ + name@ + "! You've been greeted from Rust!"@,
{
    String::from_str("Hello, ").concat(name).concat("! You've been greeted from Rust!")
}

} // verus!
