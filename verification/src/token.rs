//! Generation of fixed-length random tokens over a fixed alphabet.
//!
//! Two alphabets are in use: passwords draw from letters, digits and a fixed
//! set of punctuation symbols; retrieval handles draw from letters and digits
//! only. A token's characters are drawn independently, so nothing beyond its
//! length and its alphabet can be promised about it.

use vstd::prelude::*;

verus! {

/// The alphabet that generated passwords draw from: the upper-case and
/// lower-case letters, the ten digits, and eleven punctuation symbols.
pub open spec fn password_alphabet() -> Seq<char> {
    "ABCDEFGHIJKLMNOPQRSTUVWXYZabcdefghijklmnopqrstuvwxyz0123456789)(*&^%$#@!~"@
}

/// The alphabet that generated handles draw from: the upper-case and
/// lower-case letters and the ten digits.
pub open spec fn handle_alphabet() -> Seq<char> {
    "ABCDEFGHIJKLMNOPQRSTUVWXYZabcdefghijklmnopqrstuvwxyz0123456789"@
}

/// Relies on `rand::random_range`: a draw from the thread-local random
/// number generator, uniform over `0..bound`; it panics on an empty range,
/// hence the precondition. Nothing relates two draws, so the contract only
/// bounds the result.
#[verifier::external_body]
fn random_index(bound: usize) -> (r: usize)
    requires
        bound > 0,
    ensures
        r < bound,
{
    rand::random_range(0..bound)
}

/// Relies on `String::push`: appends the given character to the end of the
/// string.
#[verifier::external_body]
fn push_char(s: &mut String, c: char)
    ensures
        final(s)@ == old(s)@.push(c),
{
    s.push(c);
}

/// Returns a string of exactly `len` characters, each drawn independently
/// at random from the non-empty alphabet `charset`.
fn generate(len: usize, charset: &str) -> (r: String)
    requires
        charset@.len() > 0,
    ensures
        r@.len() == len,
        forall|i: int| 0 <= i < len ==> charset@.contains(#[trigger] r@[i]),
{
    let n = charset.unicode_len();
    let mut out = String::new();
    let mut i: usize = 0;
    while i < len
        invariant
            i <= len,
            out@.len() == i,
            n == charset@.len(),
            n > 0,
            forall|k: int| 0 <= k < i ==> charset@.contains(#[trigger] out@[k]),
        decreases len - i,
    {
        let idx = random_index(n);
        let c = charset.get_char(idx);
        assert(charset@.contains(c)) by {
            assert(charset@[idx as int] == c);
        }
        push_char(&mut out, c);
        i = i + 1;
    }
    out
}

/// Returns a fresh random password of exactly `len` characters, each drawn
/// from the password alphabet.
pub fn generate_password(len: usize) -> (r: String)
    ensures
        r@.len() == len,
        forall|i: int| 0 <= i < len ==> password_alphabet().contains(#[trigger] r@[i]),
{
    let charset = "ABCDEFGHIJKLMNOPQRSTUVWXYZabcdefghijklmnopqrstuvwxyz0123456789)(*&^%$#@!~";
    proof {
        reveal_strlit("ABCDEFGHIJKLMNOPQRSTUVWXYZabcdefghijklmnopqrstuvwxyz0123456789)(*&^%$#@!~");
    }
    generate(len, charset)
}

/// Returns a fresh random retrieval handle of exactly `len` characters, each
/// drawn from the handle alphabet.
pub fn generate_hash(len: usize) -> (r: String)
    ensures
        r@.len() == len,
        forall|i: int| 0 <= i < len ==> handle_alphabet().contains(#[trigger] r@[i]),
{
    let charset = "ABCDEFGHIJKLMNOPQRSTUVWXYZabcdefghijklmnopqrstuvwxyz0123456789";
    proof {
        reveal_strlit("ABCDEFGHIJKLMNOPQRSTUVWXYZabcdefghijklmnopqrstuvwxyz0123456789");
    }
    generate(len, charset)
}

} // verus!
