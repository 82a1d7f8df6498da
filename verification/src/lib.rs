//! Metaball scalar fields in fixed-point arithmetic.
//!
//! Circular influence sources live on the torus `[-1, 1] x [-1, 1]`. The
//! library samples their summed inverse-square field on a fixed lattice,
//! packs the samples into a triangle-list buffer of per-vertex intensities,
//! and moves the sources under pairwise forces. Every quantity is an integer
//! count of `UNIT`-ths, so results are exact and identical on every machine.

pub mod contour;
pub mod field;
pub mod fixed;
pub mod mesh;
pub mod motion;
pub mod root;
pub mod state;
pub mod torus;

pub use field::Circle;
pub use motion::MotionError;
pub use motion::MovingCircle;
pub use state::MetaballState;
