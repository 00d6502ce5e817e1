pub mod ms_sql;
pub mod section;
