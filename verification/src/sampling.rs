//! A uniform random pick from the emotion catalog.
//!
//! Exactly one call leaves the verified world here: drawing one machine
//! word from the thread-local generator. Everything after the draw — the
//! reduction to a catalog position and the lookup — is verified. Because
//! 32 divides 2^32 evenly, reducing a uniform 32-bit draw modulo 32 keeps
//! the pick uniform over the catalog.

use vstd::prelude::*;

use crate::emotions::Emotion;
use crate::emotions::emotion_index;
use crate::emotions::emotion_from_index;

verus! {

/// Relies on rand::random: one value drawn from the thread-local
/// generator. Nothing can be promised of a random draw, so its contract
/// is empty; callers must hold for every value that comes back.
#[verifier::external_body]
fn draw_u32() -> u32 {
    rand::random::<u32>()
}

/// A catalog emotion picked uniformly at random. Whatever the generator
/// returns, the result is a catalog emotion; its position in the catalog
/// is the draw reduced modulo the catalog size.
pub fn random_emotion() -> (e: Emotion)
    ensures
        0 <= emotion_index(e) < 32,
{
    let x = draw_u32();
    let i = (x % 32) as usize;
    emotion_from_index(i)
}

} // verus!
