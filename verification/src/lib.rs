//! Combines two raster images into one whose pixels alternate between
//! the two sources.
//!
//! The pipeline runs in four stages: a format gate refuses inputs whose
//! declared container formats differ; the dimension reconciler picks the
//! smaller-area `(width, height)` pair and resamples the other image to
//! match it exactly; the pixel interleaver alternates 4-byte RGBA pixels
//! of the two flattened buffers along the flat byte offset; and the
//! assembler wraps the interleaved buffer, refusing data larger than the
//! reserved capacity. Decoding and encoding the image files themselves
//! is left to the caller at the boundary.

pub mod artifact;
pub mod dimensions;
pub mod errors;
pub mod interleave;
pub mod pipeline;
pub mod raster;
