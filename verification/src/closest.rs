//! Nearest-neighbour selection against the catalog.
//!
//! The geometric difference between a wheel and each of the 32 canonical
//! positions is a real-valued measurement; the host hands it in as one
//! comparison key per catalog emotion, in catalog order, where a smaller
//! key means a closer position (any order-preserving integer encoding of
//! the differences serves). Which emotion wins, and in what order the `n`
//! closest come back, is decided and proved here: smallest key first, and
//! among equal keys the earlier catalog entry first.

use vstd::prelude::*;

use crate::emotions::Emotion;
use crate::emotions::emotion_index;
use crate::emotions::emotion_from_index;
use crate::emotions::lemma_emotion_index_bounds;
use crate::emotions::lemma_emotion_index_injective;

verus! {

/// The strict total order that the nearest-neighbour search ranks catalog
/// positions by: the smaller difference key first, and between equal keys
/// the earlier catalog position first.
pub open spec fn ranked_before(d: Seq<u32>, i: int, j: int) -> bool {
    d[i] < d[j] || (d[i] == d[j] && i < j)
}

/// The single catalog emotion closest to the measured wheel: the one whose
/// difference key is minimal, with ties broken in favour of the earlier
/// catalog entry.
pub fn closest_emotion(differences: &Vec<u32>) -> (e: Emotion)
    requires
        differences@.len() == 32,
    ensures
        0 <= emotion_index(e) < 32,
        forall|j: int| 0 <= j < 32 ==> differences@[emotion_index(e)] <= #[trigger] differences@[j],
        forall|j: int| 0 <= j < emotion_index(e) ==> #[trigger] differences@[j] > differences@[
            emotion_index(e)
        ],
{
    let mut best: usize = 0;
    let mut j: usize = 1;
    while j < 32
        invariant
            differences@.len() == 32,
            best < j <= 32,
            forall|t: int|
                0 <= t < j as int && t != best as int ==> ranked_before(
                    differences@,
                    best as int,
                    t,
                ),
        decreases 32 - j,
    {
        if differences[j] < differences[best] {
            proof {
                assert forall|t: int|
                    0 <= t < j as int + 1 && t != j as int implies ranked_before(
                    differences@,
                    j as int,
                    t,
                ) by {
                    if t != best as int {
                        assert(ranked_before(differences@, best as int, t));
                    }
                }
            }
            best = j;
        }
        j = j + 1;
    }
    proof {
        assert forall|t: int| 0 <= t < 32 implies differences@[best as int]
            <= differences@[t] by {
            if t != best as int {
                assert(ranked_before(differences@, best as int, t));
            }
        }
        assert forall|t: int| 0 <= t < best as int implies differences@[t] > differences@[
            best as int
        ] by {
            assert(ranked_before(differences@, best as int, t));
        }
    }
    emotion_from_index(best)
}

/// The ranking rule picks a unique winner: an emotion ranked before every
/// other catalog position is the only one with that property, so every
/// search that breaks ties by catalog order returns the same closest
/// emotion.
pub proof fn lemma_closest_unique(d: Seq<u32>, e1: Emotion, e2: Emotion)
    requires
        forall|j: int| 0 <= j < 32 ==> d[emotion_index(e1)] <= #[trigger] d[j],
        forall|j: int| 0 <= j < emotion_index(e1) ==> #[trigger] d[j] > d[emotion_index(e1)],
        forall|j: int| 0 <= j < 32 ==> d[emotion_index(e2)] <= #[trigger] d[j],
        forall|j: int| 0 <= j < emotion_index(e2) ==> #[trigger] d[j] > d[emotion_index(e2)],
    ensures
        e1 == e2,
{
    lemma_emotion_index_bounds(e1);
    lemma_emotion_index_bounds(e2);
    assert(d[emotion_index(e1)] <= d[emotion_index(e2)]);
    assert(d[emotion_index(e2)] <= d[emotion_index(e1)]);
    if emotion_index(e1) < emotion_index(e2) {
        assert(d[emotion_index(e1)] > d[emotion_index(e2)]);
    } else if emotion_index(e2) < emotion_index(e1) {
        assert(d[emotion_index(e2)] > d[emotion_index(e1)]);
    }
    lemma_emotion_index_injective(e1, e2);
}

/// The `n` catalog emotions closest to the measured wheel, closest first.
///
/// The result is the prefix of length `min(n, 32)` of the full catalog
/// ranked by `ranked_before`: it is strictly ordered, repeats no emotion,
/// every emotion left out ranks after every emotion returned, and a count
/// of 32 or more returns the whole catalog, each emotion exactly once.
pub fn closest_emotions(differences: &Vec<u32>, n: usize) -> (v: Vec<Emotion>)
    requires
        differences@.len() == 32,
    ensures
        v@.len() == (if n < 32 { n as int } else { 32 }),
        forall|a: int, b: int|
            0 <= a < b < v@.len() ==> ranked_before(
                differences@,
                emotion_index(v@[a]),
                emotion_index(v@[b]),
            ),
        forall|a: int, b: int| 0 <= a < b < v@.len() ==> v@[a] != v@[b],
        forall|a: int, e: Emotion|
            0 <= a < v@.len() && !v@.contains(e) ==> ranked_before(
                differences@,
                emotion_index(v@[a]),
                emotion_index(e),
            ),
        n >= 32 ==> forall|e: Emotion| v@.contains(e),
{
    let mut idx: Vec<usize> = Vec::new();
    let mut i: usize = 0;
    while i < 32
        invariant
            i <= 32,
            idx@.len() == i as int,
            forall|p: int| 0 <= p < i as int ==> idx@[p] == p,
        decreases 32 - i,
    {
        idx.push(i);
        i = i + 1;
    }
    proof {
        assert forall|w: usize| w < 32 implies idx@.contains(w) by {
            assert(idx@[w as int] == w);
        }
    }
    let mut s: usize = 0;
    while s < 32
        invariant
            differences@.len() == 32,
            idx@.len() == 32,
            s <= 32,
            forall|p: int| 0 <= p < 32 ==> #[trigger] idx@[p] < 32,
            forall|p: int, q: int| 0 <= p < q < 32 ==> idx@[p] != idx@[q],
            forall|w: usize| w < 32 ==> idx@.contains(w),
            forall|a: int, b: int|
                0 <= a < b < s as int ==> ranked_before(
                    differences@,
                    idx@[a] as int,
                    idx@[b] as int,
                ),
            forall|a: int, b: int|
                0 <= a < s as int && s as int <= b < 32 ==> ranked_before(
                    differences@,
                    idx@[a] as int,
                    idx@[b] as int,
                ),
        decreases 32 - s,
    {
        let mut m: usize = s;
        let mut j: usize = s + 1;
        while j < 32
            invariant
                differences@.len() == 32,
                idx@.len() == 32,
                forall|p: int| 0 <= p < 32 ==> #[trigger] idx@[p] < 32,
                forall|p: int, q: int| 0 <= p < q < 32 ==> idx@[p] != idx@[q],
                s <= m < j <= 32,
                forall|t: int|
                    s as int <= t < j as int && t != m as int ==> ranked_before(
                        differences@,
                        idx@[m as int] as int,
                        idx@[t] as int,
                    ),
            decreases 32 - j,
        {
            let ij = idx[j];
            let im = idx[m];
            if differences[ij] < differences[im] || (differences[ij] == differences[im] && ij
                < im) {
                proof {
                    assert forall|t: int|
                        s as int <= t < j as int + 1 && t != j as int implies ranked_before(
                        differences@,
                        idx@[j as int] as int,
                        idx@[t] as int,
                    ) by {
                        if t != m as int {
                            assert(ranked_before(
                                differences@,
                                idx@[m as int] as int,
                                idx@[t] as int,
                            ));
                        }
                    }
                }
                m = j;
            }
            j = j + 1;
        }
        let ghost prev = idx@;
        let vs = idx[s];
        let vm = idx[m];
        idx[s] = vm;
        idx[m] = vs;
        proof {
            assert forall|p: int, q: int| 0 <= p < q < 32 implies idx@[p] != idx@[q] by {
                assert(prev[p as int] != prev[q as int] || p == q);
            }
            assert forall|w: usize| w < 32 implies idx@.contains(w) by {
                assert(prev.contains(w));
                let p = choose|p: int| 0 <= p < prev.len() && prev[p] == w;
                if p == s as int {
                    assert(idx@[m as int] == w);
                } else if p == m as int {
                    assert(idx@[s as int] == w);
                } else {
                    assert(idx@[p] == w);
                }
            }
        }
        s = s + 1;
    }
    let count: usize = if n < 32 {
        n
    } else {
        32
    };
    let mut v: Vec<Emotion> = Vec::new();
    let mut k: usize = 0;
    while k < count
        invariant
            k <= count <= 32,
            differences@.len() == 32,
            idx@.len() == 32,
            forall|p: int| 0 <= p < 32 ==> #[trigger] idx@[p] < 32,
            forall|w: usize| w < 32 ==> idx@.contains(w),
            forall|a: int, b: int|
                0 <= a < b < 32 ==> ranked_before(differences@, idx@[a] as int, idx@[b] as int),
            v@.len() == k as int,
            forall|a: int| 0 <= a < k as int ==> emotion_index(#[trigger] v@[a]) == idx@[a] as int,
        decreases count - k,
    {
        let ii = idx[k];
        let e = emotion_from_index(ii);
        v.push(e);
        k = k + 1;
    }
    proof {
        assert forall|a: int, b: int|
            0 <= a < b < v@.len() implies ranked_before(
            differences@,
            emotion_index(v@[a]),
            emotion_index(v@[b]),
        ) by {
            assert(ranked_before(differences@, idx@[a] as int, idx@[b] as int));
        }
        assert forall|a: int, b: int| 0 <= a < b < v@.len() implies v@[a] != v@[b] by {
            assert(ranked_before(differences@, idx@[a] as int, idx@[b] as int));
        }
        assert forall|a: int, e: Emotion|
            0 <= a < v@.len() && !v@.contains(e) implies ranked_before(
            differences@,
            emotion_index(v@[a]),
            emotion_index(e),
        ) by {
            lemma_emotion_index_bounds(e);
            let w = emotion_index(e);
            assert(idx@.contains(w as usize));
            let p = choose|p: int| 0 <= p < idx@.len() && idx@[p] == w as usize;
            if p < count as int {
                lemma_emotion_index_injective(e, v@[p]);
                assert(v@[p] == e);
                assert(false);
            }
        }
        if n >= 32 {
            assert forall|e: Emotion| v@.contains(e) by {
                lemma_emotion_index_bounds(e);
                let w = emotion_index(e);
                assert(idx@.contains(w as usize));
                let p = choose|p: int| 0 <= p < idx@.len() && idx@[p] == w as usize;
                lemma_emotion_index_injective(e, v@[p]);
                assert(v@[p] == e);
            }
        }
    }
    v
}

} // verus!
