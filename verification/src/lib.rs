//! State machine and data model of a terminal editor that builds a flat
//! key-value mapping and writes it out as a JSON object.
//!
//! The crate holds what the editor decides: which screen is active, what a key
//! press does to the edit buffers, the store and the exit flags, and how the
//! store is laid out as text. Terminal input and drawing belong to the program
//! built on top of it.

pub mod app;
pub mod json;
pub mod keys;
pub mod laws;
pub mod model;
pub mod screens;
pub mod store;
pub mod text;
pub mod ui;
