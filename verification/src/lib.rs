//! A verified controller for a program that opens a window, builds a
//! two-stage shader pipeline, uploads one triangle and draws it until the
//! window is closed.
//!
//! The crate performs no input or output. It decides, one step at a time,
//! which window-system or graphics-device call comes next, and what the
//! answer to that call means; a thin shell performs the calls.

pub mod config;
pub mod diagnostic;
pub mod driver;
pub mod failure;
pub mod geometry;
pub mod handles;
pub mod input;
pub mod laws;
pub mod protocol;
