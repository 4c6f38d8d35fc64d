//! Interaction and stereo-camera core for an XR runtime layer.
//!
//! All geometry is exact fixed-point arithmetic: a scalar stores a real
//! quantity multiplied by `math::SCALE` (lengths in milliunits, rotation
//! quaternion components in thousandths).  Projection-matrix entries, which
//! are ratios of those scalars, are kept as exact rational numbers.

pub mod camera;
pub mod geom;
pub mod interaction;
pub mod math;
pub mod proj;
pub mod room;
