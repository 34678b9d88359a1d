//! Verified core of a real-time mono audio effects processor.
//!
//! One effect at a time turns an input stream into an output stream, sample by
//! sample. The crate holds the parts of that job that are decided by integers
//! and text: which effect an identifier selects, the state each effect carries
//! from one sample to the next, and the per-cycle loop that feeds a buffer
//! through the active effect in order. Samples travel through it as bit
//! patterns; arithmetic on their values is left to the host that owns the
//! audio connection.

pub mod effects;
pub mod processing;
pub mod sample;
pub mod text;
