//! Core logic of a webcam viewer: pixel-format negotiation, frame-buffer
//! well-formedness, and the state the user interface displays.
//!
//! Device access and rendering are left to the surrounding application;
//! this crate decides what to request, what to accept, and what to show.

pub mod format;
pub mod frame;
pub mod viewer;
