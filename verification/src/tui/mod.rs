//! The terminal interface: what each key does, how the screen state moves,
//! and the text each part of the screen shows.
//!
//! Drawing, reading keys and running loads happen outside the library.
pub mod action;
pub mod app;
pub mod event;
pub mod view;
