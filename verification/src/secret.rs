//! Random secret generation.
//!
//! New passwords are fixed-length alphanumeric strings drawn from an unbiased
//! random source.  The sampling of a single character is trusted to the
//! outside random-number crate; the assembly of the full secret is verified.

use rand::RngExt;
use vstd::prelude::*;

verus! {

/// The length of every generated secret.
pub const SECRET_LEN: usize = 12;

/// An ASCII letter or digit.
pub open spec fn is_alnum_char(c: char) -> bool {
    ||| 97 <= c as int && c as int <= 122  // 'a' ..= 'z'
    ||| 65 <= c as int && c as int <= 90  // 'A' ..= 'Z'
    ||| 48 <= c as int && c as int <= 57  // '0' ..= '9'
}

/// What every generated secret looks like: twelve alphanumeric characters.
pub open spec fn valid_secret(s: Seq<char>) -> bool {
    &&& s.len() == SECRET_LEN
    &&& forall|i: int| 0 <= i < s.len() ==> is_alnum_char(#[trigger] s[i])
}

/// Relies on rand's `Alphanumeric` distribution: every sample is uniformly
/// drawn from the ASCII letters and digits.  Nothing is assumed beyond the
/// sampled character being alphanumeric.
#[verifier::external_body]
fn sample_alnum_char() -> (c: char)
    ensures
        is_alnum_char(c),
{
    char::from(rand::rng().sample(rand::distr::Alphanumeric))
}

/// Relies on `String::push`: appends exactly the given character.
#[verifier::external_body]
fn push_char(s: &mut String, c: char)
    ensures
        final(s)@ == old(s)@.push(c),
{
    s.push(c)
}

/// Generate a fresh secret: twelve characters, each an independently drawn
/// ASCII letter or digit.
pub fn get_random_password() -> (r: String)
    ensures
        valid_secret(r@),
{
    let mut r = String::new();
    let mut i: usize = 0;
    while i < SECRET_LEN
        invariant
            i <= SECRET_LEN,
            r@.len() == i,
            forall|j: int| 0 <= j < r@.len() ==> is_alnum_char(#[trigger] r@[j]),
        decreases SECRET_LEN - i,
    {
        let c = sample_alnum_char();
        push_char(&mut r, c);
        i = i + 1;
    }
    r
}

} // verus!
