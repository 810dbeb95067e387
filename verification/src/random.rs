//! Names for randomly placed temporary directories.

use rand::distr::Alphanumeric;
use rand::rngs::{StdRng, SysRng};
use rand::{RngExt, SeedableRng};
use vstd::prelude::*;

verus! {

/// The number of characters of a random directory name.
pub const RANDOM_NAME_LEN: usize = 5;

/// An ASCII letter or digit.
pub open spec fn is_alphanumeric(c: char) -> bool {
    ('a' <= c && c <= 'z') || ('A' <= c && c <= 'Z') || ('0' <= c && c <= '9')
}

/// A name that a random temporary directory may get: five ASCII letters or
/// digits.
pub open spec fn is_random_name(name: Seq<char>) -> bool {
    &&& name.len() == RANDOM_NAME_LEN
    &&& forall|i: int| 0 <= i < name.len() ==> is_alphanumeric(#[trigger] name[i])
}

/// `rand::rngs::StdRng`, the generator random names are drawn from.
#[verifier::external_type_specification]
#[verifier::external_body]
pub struct ExStdRng(StdRng);

/// Seeds a `rand::rngs::StdRng` from the operating system's generator, with
/// `SeedableRng::try_from_rng(&mut SysRng)`. The operating system may fail
/// to give a seed; its error then comes back as its raw error code (where it
/// has one) and its description. Whether seeding fails, and what the error
/// says, depends on the machine: nothing is stated of it.
#[verifier::external_body]
pub(crate) fn seeded_rng() -> (r: Result<StdRng, (Option<i32>, String)>) {
    match StdRng::try_from_rng(&mut SysRng) {
        Ok(rng) => Ok(rng),
        Err(err) => Err((err.raw_os_error(), err.to_string())),
    }
}

/// Draws one character from `rand::distr::Alphanumeric` with
/// `RngExt::sample`. Which character comes out is left open; the contract
/// states what holds of every outcome: an ASCII letter or digit.
#[verifier::external_body]
fn random_alphanumeric(rng: &mut StdRng) -> (c: char)
    ensures
        is_alphanumeric(c),
{
    char::from(rng.sample(Alphanumeric))
}

/// Calls `String::push`: `c` is appended to `s`.
#[verifier::external_body]
fn push_char(s: &mut String, c: char)
    ensures
        final(s)@ == old(s)@.push(c),
{
    s.push(c);
}

/// A random directory name: `RANDOM_NAME_LEN` characters drawn from `rng`,
/// each an ASCII letter or digit.
pub fn random_name(rng: &mut StdRng) -> (name: String)
    ensures
        is_random_name(name@),
{
    let mut name = String::new();
    let mut i: usize = 0;
    while i < RANDOM_NAME_LEN
        invariant
            i <= RANDOM_NAME_LEN,
            name@.len() == i,
            forall|j: int| 0 <= j < i ==> is_alphanumeric(#[trigger] name@[j]),
        decreases RANDOM_NAME_LEN - i,
    {
        let c = random_alphanumeric(rng);
        push_char(&mut name, c);
        i = i + 1;
    }
    name
}

} // verus!
