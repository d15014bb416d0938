//! The core of a small terminal text viewer: what to draw for a given
//! state, and how the state answers to keys and resizes.
//!
//! Nothing in this library touches a terminal or a file. It computes frames
//! as lists of [`editor::terminal::Command`] values and takes input as
//! [`editor::event::Input`] values; the program around it performs the one
//! and supplies the other.

pub mod editor;
