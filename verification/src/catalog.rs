//! The fixed table binding each of the 32 emotions to its canonical
//! position on the wheel.
//!
//! Every canonical position lies on an exact polar grid: its angle is an
//! integer multiple of one eighth of a half turn (`angle_eighths` times
//! pi / 8 radians) and its weight is an integer number of tenths
//! (`weight_tenths` / 10). Holding the grid coordinates as integers keeps
//! the table exact; a host that needs the positions as radians and weights
//! scales the two fields itself.

use vstd::prelude::*;

use crate::emotions::Emotion;

verus! {

/// The canonical position of a catalog emotion, held exactly.
///
/// The angle in radians is `angle_eighths` times pi / 8; the weight is
/// `weight_tenths` / 10. The catalog uses angles in `[-8, 8]` eighths
/// (one full turn centred on zero) and weights of 2, 5 and 8 tenths.
#[derive(Copy, Clone, Debug, PartialEq, Eq, Structural)]
pub struct CatalogWheel {
    pub angle_eighths: i8,
    pub weight_tenths: u8,
}

/// The canonical position of each emotion: eight families of three
/// intensities, one family every 45 degrees, with weights 0.8, 0.5 and 0.2
/// from the intense to the mild variant.
pub open spec fn spec_catalog(e: Emotion) -> CatalogWheel {
    match e {
        Emotion::Ecstasy => CatalogWheel { angle_eighths: 4, weight_tenths: 8 },
        Emotion::Joy => CatalogWheel { angle_eighths: 4, weight_tenths: 5 },
        Emotion::Serenity => CatalogWheel { angle_eighths: 4, weight_tenths: 2 },
        Emotion::Love => CatalogWheel { angle_eighths: 3, weight_tenths: 5 },
        Emotion::Admiration => CatalogWheel { angle_eighths: 2, weight_tenths: 8 },
        Emotion::Trust => CatalogWheel { angle_eighths: 2, weight_tenths: 5 },
        Emotion::Acceptance => CatalogWheel { angle_eighths: 2, weight_tenths: 2 },
        Emotion::Submission => CatalogWheel { angle_eighths: 1, weight_tenths: 5 },
        Emotion::Terror => CatalogWheel { angle_eighths: 0, weight_tenths: 8 },
        Emotion::Fear => CatalogWheel { angle_eighths: 0, weight_tenths: 5 },
        Emotion::Apprehension => CatalogWheel { angle_eighths: 0, weight_tenths: 2 },
        Emotion::Awe => CatalogWheel { angle_eighths: -1i8, weight_tenths: 5 },
        Emotion::Amazement => CatalogWheel { angle_eighths: -2i8, weight_tenths: 8 },
        Emotion::Surprise => CatalogWheel { angle_eighths: -2i8, weight_tenths: 5 },
        Emotion::Distraction => CatalogWheel { angle_eighths: -2i8, weight_tenths: 2 },
        Emotion::Disapproval => CatalogWheel { angle_eighths: -3i8, weight_tenths: 5 },
        Emotion::Grief => CatalogWheel { angle_eighths: -4i8, weight_tenths: 8 },
        Emotion::Sadness => CatalogWheel { angle_eighths: -4i8, weight_tenths: 5 },
        Emotion::Pensiveness => CatalogWheel { angle_eighths: -4i8, weight_tenths: 2 },
        Emotion::Remorse => CatalogWheel { angle_eighths: -5i8, weight_tenths: 5 },
        Emotion::Loathing => CatalogWheel { angle_eighths: -6i8, weight_tenths: 8 },
        Emotion::Disgust => CatalogWheel { angle_eighths: -6i8, weight_tenths: 5 },
        Emotion::Boredom => CatalogWheel { angle_eighths: -6i8, weight_tenths: 2 },
        Emotion::Contempt => CatalogWheel { angle_eighths: -7i8, weight_tenths: 5 },
        Emotion::Rage => CatalogWheel { angle_eighths: -8i8, weight_tenths: 8 },
        Emotion::Anger => CatalogWheel { angle_eighths: -8i8, weight_tenths: 5 },
        Emotion::Annoyance => CatalogWheel { angle_eighths: -8i8, weight_tenths: 2 },
        Emotion::Aggressiveness => CatalogWheel { angle_eighths: 7, weight_tenths: 5 },
        Emotion::Vigilance => CatalogWheel { angle_eighths: 6, weight_tenths: 8 },
        Emotion::Anticipation => CatalogWheel { angle_eighths: 6, weight_tenths: 5 },
        Emotion::Interest => CatalogWheel { angle_eighths: 6, weight_tenths: 2 },
        Emotion::Optimism => CatalogWheel { angle_eighths: 5, weight_tenths: 5 },
    }
}

/// The canonical wheel position bound to an emotion. Total: every variant
/// has exactly one entry, and the table never changes.
pub fn catalog(e: Emotion) -> (w: CatalogWheel)
    ensures
        w == spec_catalog(e),
{
    match e {
        Emotion::Ecstasy => CatalogWheel { angle_eighths: 4, weight_tenths: 8 },
        Emotion::Joy => CatalogWheel { angle_eighths: 4, weight_tenths: 5 },
        Emotion::Serenity => CatalogWheel { angle_eighths: 4, weight_tenths: 2 },
        Emotion::Love => CatalogWheel { angle_eighths: 3, weight_tenths: 5 },
        Emotion::Admiration => CatalogWheel { angle_eighths: 2, weight_tenths: 8 },
        Emotion::Trust => CatalogWheel { angle_eighths: 2, weight_tenths: 5 },
        Emotion::Acceptance => CatalogWheel { angle_eighths: 2, weight_tenths: 2 },
        Emotion::Submission => CatalogWheel { angle_eighths: 1, weight_tenths: 5 },
        Emotion::Terror => CatalogWheel { angle_eighths: 0, weight_tenths: 8 },
        Emotion::Fear => CatalogWheel { angle_eighths: 0, weight_tenths: 5 },
        Emotion::Apprehension => CatalogWheel { angle_eighths: 0, weight_tenths: 2 },
        Emotion::Awe => CatalogWheel { angle_eighths: -1, weight_tenths: 5 },
        Emotion::Amazement => CatalogWheel { angle_eighths: -2, weight_tenths: 8 },
        Emotion::Surprise => CatalogWheel { angle_eighths: -2, weight_tenths: 5 },
        Emotion::Distraction => CatalogWheel { angle_eighths: -2, weight_tenths: 2 },
        Emotion::Disapproval => CatalogWheel { angle_eighths: -3, weight_tenths: 5 },
        Emotion::Grief => CatalogWheel { angle_eighths: -4, weight_tenths: 8 },
        Emotion::Sadness => CatalogWheel { angle_eighths: -4, weight_tenths: 5 },
        Emotion::Pensiveness => CatalogWheel { angle_eighths: -4, weight_tenths: 2 },
        Emotion::Remorse => CatalogWheel { angle_eighths: -5, weight_tenths: 5 },
        Emotion::Loathing => CatalogWheel { angle_eighths: -6, weight_tenths: 8 },
        Emotion::Disgust => CatalogWheel { angle_eighths: -6, weight_tenths: 5 },
        Emotion::Boredom => CatalogWheel { angle_eighths: -6, weight_tenths: 2 },
        Emotion::Contempt => CatalogWheel { angle_eighths: -7, weight_tenths: 5 },
        Emotion::Rage => CatalogWheel { angle_eighths: -8, weight_tenths: 8 },
        Emotion::Anger => CatalogWheel { angle_eighths: -8, weight_tenths: 5 },
        Emotion::Annoyance => CatalogWheel { angle_eighths: -8, weight_tenths: 2 },
        Emotion::Aggressiveness => CatalogWheel { angle_eighths: 7, weight_tenths: 5 },
        Emotion::Vigilance => CatalogWheel { angle_eighths: 6, weight_tenths: 8 },
        Emotion::Anticipation => CatalogWheel { angle_eighths: 6, weight_tenths: 5 },
        Emotion::Interest => CatalogWheel { angle_eighths: 6, weight_tenths: 2 },
        Emotion::Optimism => CatalogWheel { angle_eighths: 5, weight_tenths: 5 },
    }
}

/// The catalog is injective: no two emotions share a canonical position,
/// so the table is a bijection between the 32 variants and the 32 grid
/// points it uses.
pub proof fn lemma_catalog_injective(e1: Emotion, e2: Emotion)
    ensures
        spec_catalog(e1) == spec_catalog(e2) ==> e1 == e2,
{
}

/// Every canonical position lies on the documented grid: an angle within
/// one turn of zero and a weight of 0.2, 0.5 or 0.8.
pub proof fn lemma_catalog_in_range(e: Emotion)
    ensures
        -8 <= spec_catalog(e).angle_eighths <= 8,
        spec_catalog(e).weight_tenths == 2 || spec_catalog(e).weight_tenths == 5
            || spec_catalog(e).weight_tenths == 8,
{
}

} // verus!
