//! Format compatibility and command planning for a small media converter.
//!
//! The library decides which output formats may be offered for an input
//! file, validates a chosen conversion, plans the transcoder's command line
//! and classifies how the transcoder ended. Starting the transcoder itself is
//! left to the caller.

pub mod convert;
pub mod format;
pub mod outcome;
pub mod path;
pub mod session;
pub mod text;
