//! The closed set of 32 labelled emotions and their fixed enumeration order.

use vstd::prelude::*;

verus! {

/// Each of the emotions portrayed on Plutchik's emotion wheel.
#[derive(Copy, Clone, Debug, PartialEq, Eq, Hash, Structural)]
pub enum Emotion {
    Ecstasy,
    Joy,
    Serenity,
    Love,
    Admiration,
    Trust,
    Acceptance,
    Submission,
    Terror,
    Fear,
    Apprehension,
    Awe,
    Amazement,
    Surprise,
    Distraction,
    Disapproval,
    Grief,
    Sadness,
    Pensiveness,
    Remorse,
    Loathing,
    Disgust,
    Boredom,
    Contempt,
    Rage,
    Anger,
    Annoyance,
    Aggressiveness,
    Vigilance,
    Anticipation,
    Interest,
    Optimism,
}

/// Position of an emotion in the fixed catalog enumeration order.
/// This order is the tie-break rule of the nearest-neighbour search.
pub open spec fn emotion_index(e: Emotion) -> int {
    match e {
        Emotion::Ecstasy => 0,
        Emotion::Joy => 1,
        Emotion::Serenity => 2,
        Emotion::Love => 3,
        Emotion::Admiration => 4,
        Emotion::Trust => 5,
        Emotion::Acceptance => 6,
        Emotion::Submission => 7,
        Emotion::Terror => 8,
        Emotion::Fear => 9,
        Emotion::Apprehension => 10,
        Emotion::Awe => 11,
        Emotion::Amazement => 12,
        Emotion::Surprise => 13,
        Emotion::Distraction => 14,
        Emotion::Disapproval => 15,
        Emotion::Grief => 16,
        Emotion::Sadness => 17,
        Emotion::Pensiveness => 18,
        Emotion::Remorse => 19,
        Emotion::Loathing => 20,
        Emotion::Disgust => 21,
        Emotion::Boredom => 22,
        Emotion::Contempt => 23,
        Emotion::Rage => 24,
        Emotion::Anger => 25,
        Emotion::Annoyance => 26,
        Emotion::Aggressiveness => 27,
        Emotion::Vigilance => 28,
        Emotion::Anticipation => 29,
        Emotion::Interest => 30,
        Emotion::Optimism => 31,
    }
}

/// Every emotion has an index in `[0, 32)`.
pub proof fn lemma_emotion_index_bounds(e: Emotion)
    ensures
        0 <= emotion_index(e) < 32,
{
}

/// Two emotions with the same catalog position are the same emotion:
/// the enumeration order is a bijection between the 32 variants and `[0, 32)`.
pub proof fn lemma_emotion_index_injective(e1: Emotion, e2: Emotion)
    ensures
        emotion_index(e1) == emotion_index(e2) ==> e1 == e2,
{
}

/// The emotion standing at position `i` of the catalog enumeration.
pub fn emotion_from_index(i: usize) -> (e: Emotion)
    requires
        i < 32,
    ensures
        emotion_index(e) == i as int,
{
    if i == 0 {
        Emotion::Ecstasy
    } else if i == 1 {
        Emotion::Joy
    } else if i == 2 {
        Emotion::Serenity
    } else if i == 3 {
        Emotion::Love
    } else if i == 4 {
        Emotion::Admiration
    } else if i == 5 {
        Emotion::Trust
    } else if i == 6 {
        Emotion::Acceptance
    } else if i == 7 {
        Emotion::Submission
    } else if i == 8 {
        Emotion::Terror
    } else if i == 9 {
        Emotion::Fear
    } else if i == 10 {
        Emotion::Apprehension
    } else if i == 11 {
        Emotion::Awe
    } else if i == 12 {
        Emotion::Amazement
    } else if i == 13 {
        Emotion::Surprise
    } else if i == 14 {
        Emotion::Distraction
    } else if i == 15 {
        Emotion::Disapproval
    } else if i == 16 {
        Emotion::Grief
    } else if i == 17 {
        Emotion::Sadness
    } else if i == 18 {
        Emotion::Pensiveness
    } else if i == 19 {
        Emotion::Remorse
    } else if i == 20 {
        Emotion::Loathing
    } else if i == 21 {
        Emotion::Disgust
    } else if i == 22 {
        Emotion::Boredom
    } else if i == 23 {
        Emotion::Contempt
    } else if i == 24 {
        Emotion::Rage
    } else if i == 25 {
        Emotion::Anger
    } else if i == 26 {
        Emotion::Annoyance
    } else if i == 27 {
        Emotion::Aggressiveness
    } else if i == 28 {
        Emotion::Vigilance
    } else if i == 29 {
        Emotion::Anticipation
    } else if i == 30 {
        Emotion::Interest
    } else {
        Emotion::Optimism
    }
}

/// The full list of Plutchik's labelled emotions, in catalog order.
pub fn all_emotions() -> (v: Vec<Emotion>)
    ensures
        v@.len() == 32,
        forall|i: int| 0 <= i < 32 ==> emotion_index(#[trigger] v@[i]) == i,
        forall|e: Emotion| v@.contains(e),
{
    let mut v: Vec<Emotion> = Vec::new();
    let mut i: usize = 0;
    while i < 32
        invariant
            i <= 32,
            v@.len() == i as int,
            forall|k: int| 0 <= k < i as int ==> emotion_index(#[trigger] v@[k]) == k,
        decreases 32 - i,
    {
        let e = emotion_from_index(i);
        v.push(e);
        i = i + 1;
    }
    proof {
        assert forall|e: Emotion| v@.contains(e) by {
            let i = emotion_index(e);
            lemma_emotion_index_bounds(e);
            lemma_emotion_index_injective(e, v@[i]);
            assert(v@[i] == e);
        }
    }
    v
}

} // verus!
