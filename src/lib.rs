//! Verified core of a small cluster diagnostic: which queries are made, where
//! the credentials file is found, how outputs are decoded and how the report
//! text is laid out.

pub mod status;
pub mod checks;
pub mod config;
pub mod outcome;
pub mod report;
pub mod laws;
