//! A lazily sampled cubic Bezier segment and the colour arithmetic of the
//! drawing surface that strokes it.
pub mod color;
pub mod curve;
