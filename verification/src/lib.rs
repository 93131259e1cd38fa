//! Verified core of the EMSYS command-line and terminal client.
pub mod application;
pub mod cli;
pub mod context;
pub mod infrastructure;
pub mod lookup;
pub mod text;
pub mod tui;
