//! Random identifiers for laps and connected clients.

use vstd::prelude::*;

verus! {

/// The characters an identifier is made of: `_`, `-`, digits and ASCII letters.
pub open spec fn is_id_char(c: char) -> bool {
    c == '_' || c == '-' || ('0' <= c && c <= '9') || ('a' <= c && c <= 'z') || ('A' <= c
        && c <= 'Z')
}

/// Whether `s` has the shape of a generated identifier: 21 characters from the alphabet above.
pub open spec fn is_fresh_id_shape(s: Seq<char>) -> bool {
    s.len() == 21 && forall|i: int| 0 <= i < s.len() ==> is_id_char(#[trigger] s[i])
}

/// A new random identifier from `nanoid::format` with the operating system's random
/// source (`nanoid::rngs::default`), the URL-safe alphabet `nanoid::alphabet::SAFE`
/// (64 characters) and 21 characters: what the crate's `nanoid!()` macro expands to.
/// The claim: the result has 21 characters, each from that alphabet, as the crate's
/// source shows (the alphabet's size is a power of two, so each of the 21 random bytes
/// picks one character). Which characters come is chance.
#[verifier::external_body]
pub(crate) fn fresh_id() -> (r: String)
    ensures
        is_fresh_id_shape(r@),
{
    nanoid::format(nanoid::rngs::default, &nanoid::alphabet::SAFE, 21)
}

} // verus!
