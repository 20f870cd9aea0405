//! An action-dispatch event loop for a terminal application, together with
//! the lifecycle manager for an external automation session.
//!
//! The crate holds the decision logic only: classifying terminal events into
//! actions, resolving multi-key chords against a keybinding table, folding
//! actions over the registered view components, and planning the start-up and
//! teardown of the external driver session. All input, rendering and process
//! control stay with the caller, which performs the effects these functions
//! decide on.

pub mod action;
pub mod app;
pub mod component;
pub mod errors;
pub mod events;
pub mod keys;
pub mod session;
pub mod views;
