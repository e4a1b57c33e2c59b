//! Core of an escape-time fractal tile renderer.
//!
//! A tile request asks for a square RGBA image of a generalized Mandelbrot
//! set.  The numeric sampling (the floating-point escape loop, coordinate
//! mapping and magnitude smoothing) is performed by the embedding caller,
//! which hands this library plain iteration counts and pre-scaled palette
//! indices.  Everything downstream of those samples is verified here: request
//! validation, border-ring geometry and uniformity detection, the interior
//! resolution policy, the mask of per-pixel results, and the rendering of the
//! mask into an opaque RGBA byte buffer.

pub mod laws;
pub mod mask;
pub mod palette;
pub mod params;
pub mod render;

pub use mask::CellKind;
pub use mask::EscapeCell;
pub use mask::Mask;
pub use mask::MaskCell;
pub use mask::border_uniform;
pub use mask::is_border;
pub use params::NUM_COLOR_CHANNELS;
pub use params::PALETTE_SCALE_FACTOR;
pub use params::TileError;
pub use params::TileParams;
pub use render::InteriorPlan;
pub use render::plan_interior;
pub use render::render;
