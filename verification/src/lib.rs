//! A staged controller that turns a raster image into a vector path document
//! through incremental, interruptible steps suitable for a cooperative host
//! loop. The controller owns stage sequencing (clustering, optional
//! re-clustering, path emission), a transparency-aware color-keying heuristic,
//! and a progress estimator that blends the sub-phases into one 0-100 scale.
//! The pixel-region clustering and path simplification themselves are done by
//! the `visioncortex` engine behind a small trusted boundary.

pub mod color;
pub mod image;
pub mod keying;
pub mod engine;
pub mod svg;
pub mod converter;
