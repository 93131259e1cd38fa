//! Data exchanged with the EMSYS API and Firebase, and the rules that shape it.
pub mod json;
pub mod chart_account;
pub mod employee;
pub mod invoice;
pub mod income_statement;
pub mod journal;
pub mod config;
pub mod api;
pub mod auth;
