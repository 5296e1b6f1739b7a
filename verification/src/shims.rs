//! The calls this library makes into other crates.
//!
//! Verus does not read the bodies in this file: each contract is a claim about
//! the crate that is called, taken from that crate's source.

use base64::engine::general_purpose::STANDARD;
use base64::{DecodeError, Engine};
use rand::seq::SliceRandom;
use vstd::prelude::*;

verus! {

/// Calls `uuid::Uuid::new_v4` and writes the identifier with `Display`.
///
/// Claimed: the text is 36 characters long, the length of the hyphenated form
/// that `Display` for `Uuid` writes. Which identifier comes out is left open:
/// it is drawn at random.
#[verifier::external_body]
pub(crate) fn fresh_uuid() -> (id: String)
    ensures
        id@.len() == 36,
{
    uuid::Uuid::new_v4().to_string()
}

/// `after` holds the elements of `before`, each once: position `i` of
/// `after` has what stood at position `p[i]` of `before`.
pub open spec fn is_rearrangement<T>(after: Seq<T>, before: Seq<T>, p: Seq<int>) -> bool {
    &&& p.len() == before.len()
    &&& after.len() == before.len()
    &&& p.no_duplicates()
    &&& forall|i: int|
        0 <= i < p.len() ==> 0 <= #[trigger] p[i] < before.len() && after[i] == before[p[i]]
}

/// Calls `rand::seq::SliceRandom::shuffle` on the vector, with the generator
/// of `rand::thread_rng`.
///
/// Claimed: the vector holds afterwards what it held before, in some order.
/// The shuffle only swaps elements of the slice, so every element stays, once.
/// Which order comes out is left open.
#[verifier::external_body]
pub(crate) fn shuffle<T>(v: &mut Vec<T>)
    ensures
        exists|p: Seq<int>| is_rearrangement(final(v)@, old(v)@, p),
{
    v.shuffle(&mut rand::thread_rng());
}

/// Why a text is no base64: the four complaints of the decoder, with the
/// positions and bytes it names.
#[derive(Debug, Clone, Copy, PartialEq, Eq, Structural)]
pub enum DecodeFailure {
    /// A byte outside the alphabet, or padding in the wrong place: the
    /// offset and the byte.
    InvalidByte(usize, u8),
    /// The count of symbols fits no whole number of bytes.
    InvalidLength(usize),
    /// The last symbol carries bits that would be lost: the offset and the
    /// byte.
    InvalidLastSymbol(usize, u8),
    /// The padding is missing or wrong.
    InvalidPadding,
}

/// What the standard base64 alphabet with padding makes of `text`: the bytes
/// it stands for, or why it stands for none.
pub uninterp spec fn base64_decoded(text: Seq<char>) -> Result<Seq<u8>, DecodeFailure>;

/// Calls `base64::Engine::decode` on the engine
/// `base64::engine::general_purpose::STANDARD`.
///
/// Claimed: the call's result is a function of the text alone, named
/// `base64_decoded`. The bytes come back as they are; the decoder's error
/// comes back variant by variant, with its fields.
#[verifier::external_body]
pub(crate) fn base64_decode(text: &str) -> (r: Result<Vec<u8>, DecodeFailure>)
    ensures
        match r {
            Ok(bytes) => base64_decoded(text@) == Ok::<Seq<u8>, DecodeFailure>(bytes@),
            Err(failure) => base64_decoded(text@) == Err::<Seq<u8>, DecodeFailure>(failure),
        },
{
    match STANDARD.decode(text) {
        Ok(bytes) => Ok(bytes),
        Err(DecodeError::InvalidByte(at, byte)) => Err(DecodeFailure::InvalidByte(at, byte)),
        Err(DecodeError::InvalidLength(n)) => Err(DecodeFailure::InvalidLength(n)),
        Err(DecodeError::InvalidLastSymbol(at, byte)) => {
            Err(DecodeFailure::InvalidLastSymbol(at, byte))
        },
        Err(DecodeError::InvalidPadding) => Err(DecodeFailure::InvalidPadding),
    }
}

} // verus!
