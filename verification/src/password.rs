//! Credential generation.
//!
//! Every provisioning call draws a fresh 12-character alphanumeric
//! password. Uniqueness across calls, not secrecy-grade entropy, is the
//! requirement here; the source is unpredictable but deliberately not
//! claimed to be cryptographically strong, and a stronger generator could
//! replace it without changing the contract. Because the alphabet is
//! alphanumeric only, a generated password can never carry a quote or
//! separator into an interpolated statement.

use rand::distr::SampleString;
use vstd::prelude::*;

verus! {

/// ASCII letters and digits: the password alphabet.
pub open spec fn spec_alphanumeric_char(c: char) -> bool {
    ||| 'a' <= c <= 'z'
    ||| 'A' <= c <= 'Z'
    ||| '0' <= c <= '9'
}

/// What every generated password looks like: exactly 12 characters, all
/// alphanumeric. Nothing further is knowable of a random value.
pub open spec fn spec_valid_password(s: Seq<char>) -> bool {
    &&& s.len() == 12
    &&& forall|i: int| 0 <= i < s.len() ==> spec_alphanumeric_char(s[i])
}

/// Relies on rand's `Alphanumeric` distribution through
/// `SampleString::sample_string`: the result has exactly `len`
/// characters, each uniformly drawn from a-z, A-Z and 0-9. The value
/// depends on the generator's state, so nothing is stated of it.
#[verifier::external_body]
fn sample_alphanumeric(len: usize) -> (r: String)
    ensures
        r@.len() == len as nat,
        forall|i: int| 0 <= i < r@.len() ==> spec_alphanumeric_char(r@[i]),
{
    rand::distr::Alphanumeric.sample_string(&mut rand::rng(), len)
}

/// Generates a fresh password: 12 characters from the alphanumeric
/// alphabet. Pure generation, no side effects beyond consuming
/// randomness; two calls may (and almost surely do) return different
/// values, which is what password rotation relies on.
pub fn generate_password() -> (r: String)
    ensures
        spec_valid_password(r@),
{
    sample_alphanumeric(12)
}

} // verus!
