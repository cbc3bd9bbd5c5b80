//! A safe, verified model of an x264 encoding session: colorspace geometry,
//! picture buffers, encoder parameters, NAL payload copies and the
//! encode/flush protocol.
//!
//! The engine itself is driven from outside the library; every decision taken
//! on what it reports is made here, under a contract.

pub mod colorspace;
pub mod encoder;
pub mod nal;
pub mod param;
pub mod picture;
