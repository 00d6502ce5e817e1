//! Section model of a Microsoft SQL Server monitoring collector: which query a
//! section runs, how its header line reads, and whether its rows may be emitted.

pub mod config;
pub mod constants;
pub mod emit;
pub mod ms_sql;
pub mod text;
pub mod utils;
