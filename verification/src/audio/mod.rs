//! Media units between decoder and output.
//!
//! Samples are of any copyable type: the bookkeeping here moves them and never
//! computes with them.
pub mod decode;
pub mod dsp;
pub mod format;
pub mod frame;
pub mod opus;
pub mod pipeline;
pub mod resample;
