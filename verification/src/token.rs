//! Random tokens: the identifier at the head of a material and the tail of
//! each short reference.
//!
//! The random letters come from the `rand` crate. Nothing is known of a token
//! but its length and its alphabet, and whatever is built from a token is
//! specified for every token of that shape.

use crate::text::chars_of;
use rand::distributions::{Alphanumeric, DistString};
use rand::thread_rng;
use vstd::prelude::*;

verus! {

/// An ASCII letter or digit.
pub open spec fn is_alphanumeric(c: char) -> bool {
    ('a' <= c <= 'z') || ('A' <= c <= 'Z') || ('0' <= c <= '9')
}

/// A lower-case ASCII letter or a digit.
pub open spec fn is_token_char(c: char) -> bool {
    ('a' <= c <= 'z') || ('0' <= c <= '9')
}

/// A token of `length` characters.
pub open spec fn is_token(token: Seq<char>, length: nat) -> bool {
    &&& token.len() == length
    &&& forall|i: int| 0 <= i < token.len() ==> is_token_char(#[trigger] token[i])
}

/// The lower-case form of an ASCII capital; any other character is itself.
pub open spec fn lower(c: char) -> char {
    if 'A' <= c <= 'Z' {
        ((c as u8) + 32) as char
    } else {
        c
    }
}

/// A text with its ASCII capitals in lower case.
pub open spec fn lowercase(s: Seq<char>) -> Seq<char> {
    Seq::new(s.len(), |i: int| lower(s[i]))
}

/// Calls `DistString::sample_string` on `rand::distributions::Alphanumeric`
/// with the generator of `rand::thread_rng`. The contract claims that the
/// string has `length` characters and that each is an ASCII letter or digit;
/// which ones is left open. The call panics where the system gives the
/// generator no seed.
#[verifier::external_body]
fn sample_alphanumeric(length: usize) -> (sample: String)
    ensures
        sample@.len() == length,
        forall|i: int| 0 <= i < sample@.len() ==> is_alphanumeric(#[trigger] sample@[i]),
{
    Alphanumeric.sample_string(&mut thread_rng(), length)
}

/// The lower-case form of an ASCII capital; any other character is itself.
pub fn lower_char(c: char) -> (out: char)
    ensures
        out == lower(c),
{
    if 'A' <= c && c <= 'Z' {
        ((c as u8) + 32) as char
    } else {
        c
    }
}

/// A text with its ASCII capitals in lower case.
pub fn to_ascii_lowercase(s: &str) -> (out: String)
    ensures
        out@ == lowercase(s@),
{
    let chars = chars_of(s);
    let mut out = String::new();
    let mut i: usize = 0;
    while i < chars.len()
        invariant
            i <= chars.len(),
            chars@ == s@,
            out@ =~= lowercase(s@).take(i as int),
        decreases chars.len() - i,
    {
        out.push(lower_char(chars[i]));
        i += 1;
    }
    out
}

/// Letters and digits in lower case make a token.
pub proof fn lemma_lowercase_is_token(sample: Seq<char>)
    requires
        forall|i: int| 0 <= i < sample.len() ==> is_alphanumeric(#[trigger] sample[i]),
    ensures
        is_token(lowercase(sample), sample.len()),
{
    assert forall|i: int| 0 <= i < sample.len() implies is_token_char(
        #[trigger] lowercase(sample)[i],
    ) by {
        let c = sample[i];
        assert(is_alphanumeric(c));
        if 'A' <= c <= 'Z' {
            let code = c as u8;
            assert(65 <= code <= 90);
        }
    }
}

/// A fresh random token of `length` lower-case letters and digits, in the
/// style of the identifiers that the editor makes up.
pub fn generate_godot_uid(length: usize) -> (uid: String)
    ensures
        is_token(uid@, length as nat),
{
    let sample = sample_alphanumeric(length);
    proof {
        lemma_lowercase_is_token(sample@);
    }
    to_ascii_lowercase(sample.as_str())
}

} // verus!
