pub mod error;
pub mod laws;
pub mod section;
pub mod sqls;
