//! Satellite ground-track and look-angle support library.
//!
//! The floating-point trigonometry of the tracking pipeline (orbital
//! propagation, sidereal time, the coordinate conversions themselves)
//! stays outside the verified core; this crate verifies the parts that
//! can be stated over plain integers: a fixed-point model of the
//! angle-normalization arithmetic, the azimuth quadrant correction, and
//! the pixel-plotting helpers that turn coordinates into image positions.

pub mod angle;
pub mod plot;
pub mod plot_legacy;
pub mod solver;
