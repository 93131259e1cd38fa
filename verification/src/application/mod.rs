//! Use cases shared by the command line and the terminal interface.
pub mod income_statement;
