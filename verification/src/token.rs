//! Generation of confirmation tokens: fixed-length, alphanumeric, drawn
//! from a cryptographically strong random source.

use vstd::prelude::*;
use rand::Rng;
use crate::strutil::push_char;

verus! {

/// The exact length of a confirmation token, in characters.
pub const TOKEN_LENGTH: usize = 25;

/// An ASCII letter or digit.
pub open spec fn is_alphanumeric_char(c: char) -> bool {
    let u = c as int;
    (65 <= u && u <= 90) || (97 <= u && u <= 122) || (48 <= u && u <= 57)
}

/// A well-shaped confirmation token: exactly `TOKEN_LENGTH` characters,
/// all of them ASCII letters or digits.
pub open spec fn spec_token_is_valid(s: Seq<char>) -> bool {
    s.len() == TOKEN_LENGTH && forall|i: int| 0 <= i < s.len() ==> is_alphanumeric_char(s[i])
}

/// Relies on rand's `Alphanumeric` distribution over `u8`: every sample is
/// the ASCII code of a letter or digit, drawn uniformly by the thread-local
/// cryptographically strong generator.
#[verifier::external_body]
fn sample_alphanumeric() -> (b: u8)
    ensures
        (65 <= b && b <= 90) || (97 <= b && b <= 122) || (48 <= b && b <= 57),
{
    rand::thread_rng().sample(rand::distributions::Alphanumeric)
}

/// A fresh random token: exactly `TOKEN_LENGTH` alphanumeric characters.
pub fn generate_subscription_token() -> (t: String)
    ensures
        spec_token_is_valid(t@),
{
    let mut t = String::new();
    let mut i: usize = 0;
    while i < TOKEN_LENGTH
        invariant
            i <= TOKEN_LENGTH,
            t@.len() == i,
            forall|j: int| 0 <= j < t@.len() ==> is_alphanumeric_char(t@[j]),
        decreases TOKEN_LENGTH - i,
    {
        let b = sample_alphanumeric();
        push_char(&mut t, b as char);
        i += 1;
    }
    t
}

} // verus!
