//! Loader core for glTF 2.0 bone animations: extracts the first animation
//! clip's keyframe channels per node and resamples them onto one shared,
//! evenly spaced time grid, so a player can step poses frame by frame.
//!
//! Float values (timestamps, vectors, quaternions) are carried as their
//! IEEE-754 single-precision bit patterns. Every decision — which resampling
//! policy applies, exact-key matching, neighbour search — is made on integers
//! and verified; the float arithmetic itself sits behind a small set of
//! trusted wrappers over std and glam.

pub mod bits;
pub mod channel;
pub mod extract;
pub mod grid;
pub mod laws;
pub mod lookup;
pub mod paths;
pub mod resample;
pub mod skin;

pub use channel::{AnimationError, BoneAnimationChannel, ChannelSource, Keyframes, TimestampSource};
pub use extract::grab_animations;
pub use paths::file_name_from_path;
pub use resample::finalize_animations;
pub use skin::is_model_skinned;
