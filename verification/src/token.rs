//! Confirmation tokens: fixed-length strings over the alphanumeric alphabet.

use rand::Rng;
use vstd::prelude::*;
use crate::charset::is_alphanumeric;

verus! {

/// The number of characters of a confirmation token.
pub const TOKEN_LENGTH: usize = 25;

/// `s` has the shape of a confirmation token: [`TOKEN_LENGTH`] letters and
/// digits.
pub open spec fn is_token(s: Seq<char>) -> bool {
    &&& s.len() == TOKEN_LENGTH
    &&& forall|i: int| 0 <= i < s.len() ==> is_alphanumeric(#[trigger] s[i])
}

/// `String::push` appends one character to the end of the string.
pub assume_specification[ String::push ](s: &mut String, ch: char)
    ensures
        final(s)@ == old(s)@.push(ch),
;

/// Draws one character from the thread-local generator of `rand`, with
/// `rand::Rng::sample` on `rand::distributions::Alphanumeric`. That
/// distribution picks a byte from a table of the 62 ASCII letters and
/// digits, so the character is one of them; which one is left open.
/// `rand::thread_rng` panics where the operating system hands out no seed.
#[verifier::external_body]
fn sample_alphanumeric() -> (c: char)
    ensures
        is_alphanumeric(c),
{
    char::from(rand::thread_rng().sample(rand::distributions::Alphanumeric))
}

/// Makes a fresh confirmation token from [`TOKEN_LENGTH`] draws of the
/// thread-local generator of `rand`, which the operating system seeds.
/// Nothing of the subscriber enters a token.
pub fn generate_subscription_token() -> (token: String)
    ensures
        is_token(token@),
{
    let mut token = String::new();
    let mut i: usize = 0;
    while i < TOKEN_LENGTH
        invariant
            i <= TOKEN_LENGTH,
            token@.len() == i,
            forall|k: int| 0 <= k < i ==> is_alphanumeric(#[trigger] token@[k]),
        decreases TOKEN_LENGTH - i,
    {
        let c = sample_alphanumeric();
        token.push(c);
        i += 1;
    }
    token
}

} // verus!
