//! Plutchik's wheel of emotions: a fixed catalog of 32 named emotions laid
//! out on a polar grid, together with nearest-neighbour selection over
//! difference keys and a uniform random pick from the catalog.

pub mod catalog;
pub mod closest;
pub mod emotions;
pub mod sampling;

pub use catalog::CatalogWheel;
pub use catalog::catalog;
pub use closest::closest_emotion;
pub use closest::closest_emotions;
pub use emotions::Emotion;
pub use emotions::all_emotions;
pub use emotions::emotion_from_index;
pub use sampling::random_emotion;
