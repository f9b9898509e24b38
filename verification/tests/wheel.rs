use std::f32::consts::PI;

use plutchik::CatalogWheel;
use plutchik::Emotion;
use plutchik::all_emotions;
use plutchik::catalog;
use plutchik::closest_emotion;
use plutchik::closest_emotions;
use plutchik::emotion_from_index;
use plutchik::random_emotion;

/// A catalog position scaled out of the integer grid: radians and weight.
fn wheel_of(c: CatalogWheel) -> (f32, f32) {
    (PI * (c.angle_eighths as f32) / 8.0, (c.weight_tenths as f32) / 10.0)
}

fn to_cartesian(w: (f32, f32)) -> [f32; 2] {
    [w.0.cos() * w.1, w.0.sin() * w.1]
}

/// Normalized distance between two polar points: the magnitude of the
/// vector separating their Cartesian projections, halved.
fn difference(a: (f32, f32), b: (f32, f32)) -> f32 {
    let av = to_cartesian(a);
    let bv = to_cartesian(b);
    let dv = [av[0] - bv[0], av[1] - bv[1]];
    (dv[0].powf(2.0) + dv[1].powf(2.0)).sqrt() / 2.0
}

/// One difference key per catalog emotion, in catalog order. The keys are
/// the bit patterns of the (non-negative) differences, which order exactly
/// as the differences do.
fn keys_for(query: (f32, f32)) -> Vec<u32> {
    all_emotions()
        .into_iter()
        .map(|e| difference(wheel_of(catalog(e)), query).to_bits())
        .collect()
}

#[test]
fn catalog_matches_reference_wheel() {
    let expected: [(Emotion, f32, f32); 32] = [
        (Emotion::Ecstasy, PI * 0.5, 0.8),
        (Emotion::Joy, PI * 0.5, 0.5),
        (Emotion::Serenity, PI * 0.5, 0.2),
        (Emotion::Love, PI * 0.375, 0.5),
        (Emotion::Admiration, PI * 0.25, 0.8),
        (Emotion::Trust, PI * 0.25, 0.5),
        (Emotion::Acceptance, PI * 0.25, 0.2),
        (Emotion::Submission, PI * 0.125, 0.5),
        (Emotion::Terror, PI * 0.0, 0.8),
        (Emotion::Fear, PI * 0.0, 0.5),
        (Emotion::Apprehension, PI * 0.0, 0.2),
        (Emotion::Awe, PI * -0.125, 0.5),
        (Emotion::Amazement, PI * -0.25, 0.8),
        (Emotion::Surprise, PI * -0.25, 0.5),
        (Emotion::Distraction, PI * -0.25, 0.2),
        (Emotion::Disapproval, PI * -0.375, 0.5),
        (Emotion::Grief, PI * -0.5, 0.8),
        (Emotion::Sadness, PI * -0.5, 0.5),
        (Emotion::Pensiveness, PI * -0.5, 0.2),
        (Emotion::Remorse, PI * -0.625, 0.5),
        (Emotion::Loathing, PI * -0.75, 0.8),
        (Emotion::Disgust, PI * -0.75, 0.5),
        (Emotion::Boredom, PI * -0.75, 0.2),
        (Emotion::Contempt, PI * -0.875, 0.5),
        (Emotion::Rage, PI * -1.0, 0.8),
        (Emotion::Anger, PI * -1.0, 0.5),
        (Emotion::Annoyance, PI * -1.0, 0.2),
        (Emotion::Aggressiveness, PI * 0.875, 0.5),
        (Emotion::Vigilance, PI * 0.75, 0.8),
        (Emotion::Anticipation, PI * 0.75, 0.5),
        (Emotion::Interest, PI * 0.75, 0.2),
        (Emotion::Optimism, PI * 0.625, 0.5),
    ];
    for (e, radians, weight) in expected {
        let (r, w) = wheel_of(catalog(e));
        assert_eq!(r, radians, "angle of {:?}", e);
        assert_eq!(w, weight, "weight of {:?}", e);
    }
}

#[test]
fn catalog_positions_are_all_distinct() {
    let wheels: Vec<CatalogWheel> = all_emotions().into_iter().map(catalog).collect();
    for i in 0..wheels.len() {
        for j in 0..i {
            assert_ne!(wheels[i], wheels[j]);
        }
    }
}

#[test]
fn all_emotions_come_in_the_fixed_order() {
    let order = vec![
        Emotion::Ecstasy,
        Emotion::Joy,
        Emotion::Serenity,
        Emotion::Love,
        Emotion::Admiration,
        Emotion::Trust,
        Emotion::Acceptance,
        Emotion::Submission,
        Emotion::Terror,
        Emotion::Fear,
        Emotion::Apprehension,
        Emotion::Awe,
        Emotion::Amazement,
        Emotion::Surprise,
        Emotion::Distraction,
        Emotion::Disapproval,
        Emotion::Grief,
        Emotion::Sadness,
        Emotion::Pensiveness,
        Emotion::Remorse,
        Emotion::Loathing,
        Emotion::Disgust,
        Emotion::Boredom,
        Emotion::Contempt,
        Emotion::Rage,
        Emotion::Anger,
        Emotion::Annoyance,
        Emotion::Aggressiveness,
        Emotion::Vigilance,
        Emotion::Anticipation,
        Emotion::Interest,
        Emotion::Optimism,
    ];
    assert_eq!(all_emotions(), order);
}

#[test]
fn emotion_from_index_walks_the_catalog_order() {
    let order = all_emotions();
    for (i, e) in order.iter().enumerate() {
        assert_eq!(emotion_from_index(i), *e);
    }
}

#[test]
fn closest_emotion_picks_the_smallest_key() {
    let mut keys = vec![10u32; 32];
    keys[13] = 3;
    assert_eq!(closest_emotion(&keys), Emotion::Surprise);
}

#[test]
fn closest_emotion_breaks_ties_by_catalog_order() {
    let mut keys = vec![5u32; 32];
    keys[2] = 1;
    keys[7] = 1;
    assert_eq!(closest_emotion(&keys), Emotion::Serenity);
}

#[test]
fn equal_keys_keep_the_catalog_order() {
    let keys = vec![7u32; 32];
    assert_eq!(closest_emotions(&keys, 32), all_emotions());
}

#[test]
fn zero_count_returns_nothing() {
    let keys = vec![7u32; 32];
    assert_eq!(closest_emotions(&keys, 0), Vec::<Emotion>::new());
}

#[test]
fn count_truncates_and_saturates() {
    let mut keys = vec![9u32; 32];
    keys[4] = 0;
    keys[30] = 1;
    keys[0] = 2;
    let three = closest_emotions(&keys, 3);
    assert_eq!(
        three,
        vec![Emotion::Admiration, Emotion::Interest, Emotion::Ecstasy]
    );
    assert_eq!(closest_emotions(&keys, 100).len(), 32);
}

#[test]
fn full_ranking_returns_each_emotion_exactly_once() {
    let keys = keys_for((1.1, 0.6));
    let ranked = closest_emotions(&keys, 32);
    assert_eq!(ranked.len(), 32);
    for e in all_emotions() {
        assert_eq!(ranked.iter().filter(|&&r| r == e).count(), 1);
    }
}

#[test]
fn ecstasy_matches_its_own_catalog_position() {
    assert_eq!(
        catalog(Emotion::Ecstasy),
        CatalogWheel { angle_eighths: 4, weight_tenths: 8 }
    );
    let query = (PI * 0.5, 0.8);
    assert_eq!(wheel_of(catalog(Emotion::Ecstasy)), query);
    let keys = keys_for(query);
    assert_eq!(keys[0], 0, "an exact match has difference zero");
    assert_eq!(closest_emotion(&keys), Emotion::Ecstasy);
}

#[test]
fn angle_zero_ranks_the_exact_match_first() {
    // Query at the canonical Fear position. Fear matches exactly; the next
    // closest are the same-weight neighbours one sector away (chord
    // 2 * 0.5 * sin(pi/16), about 0.098 normalized), which sit closer than
    // the other two members of the fear family at radial offset 0.15.
    let keys = keys_for((0.0, 0.5));
    assert_eq!(keys[9], 0, "an exact match has difference zero");
    let three = closest_emotions(&keys, 3);
    assert_eq!(three.len(), 3);
    assert_eq!(three[0], Emotion::Fear, "the exact match ranks first");
    assert!(three.contains(&Emotion::Submission));
    assert!(three.contains(&Emotion::Awe));
    let five = closest_emotions(&keys, 5);
    assert!(five.contains(&Emotion::Terror));
    assert!(five.contains(&Emotion::Apprehension));
}

#[test]
fn random_emotion_comes_from_the_catalog() {
    let order = all_emotions();
    for _ in 0..16 {
        assert!(order.contains(&random_emotion()));
    }
}
