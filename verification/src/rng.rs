//! The two places randomness enters the lobby: suffixes that free a
//! colliding display name, and the joker's sample of wrong options. Both
//! come from the `rand` crate behind trusted wrappers whose contracts state
//! only what holds of every outcome.

use vstd::prelude::*;

verus! {

/// An ASCII alphanumeric character: one of A-Z, a-z or 0-9, the alphabet
/// that name-collision suffixes are drawn from.
pub open spec fn alnum_char(c: char) -> bool {
    ||| 'A' <= c && c <= 'Z'
    ||| 'a' <= c && c <= 'z'
    ||| '0' <= c && c <= '9'
}

/// Relies on rand's `DistString` impl for `Alphanumeric`: a string of
/// exactly `length` random characters drawn from A-Z, a-z and 0-9 (ASCII,
/// so one character per sampled byte), for any `length`.
#[verifier::external_body]
pub(crate) fn generate_random_string(length: usize) -> (r: String)
    ensures
        r@.len() == length,
        forall|i: int| 0 <= i < r@.len() ==> alnum_char(#[trigger] r@[i]),
{
    rand::distributions::DistString::sample_string(
        &rand::distributions::Alphanumeric,
        &mut rand::thread_rng(),
        length,
    )
}

/// Relies on rand's `SliceRandom::choose_multiple`: with a slice of at
/// least two elements, two elements at distinct positions, in random order.
#[verifier::external_body]
pub(crate) fn choose_two(options: &Vec<usize>) -> (r: Vec<usize>)
    requires
        options@.len() >= 2,
    ensures
        r@.len() == 2,
        options@.contains(r@[0]),
        options@.contains(r@[1]),
        r@[0] != r@[1] || !options@.no_duplicates(),
{
    let mut rng = rand::thread_rng();
    rand::seq::SliceRandom::choose_multiple(options.as_slice(), &mut rng, 2).copied().collect()
}

} // verus!
