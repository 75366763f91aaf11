//! Verified core of the cosmostrix terminal renderer's command line and
//! benchmark logic.

pub mod chars;
pub mod config;
pub mod colorize;
pub mod help;
pub mod stats;
pub mod bench;
pub mod report;
