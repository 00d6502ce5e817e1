use vstd::prelude::*;

verus! {

/// Extension of a user-supplied query file, with its dot.
pub const SQL_QUERY_EXTENSION: &'static str = ".sql";

/// Timestamp written into a header when the clock cannot be read.
pub const FALLBACK_TIMESTAMP: u64 = 0;

} // verus!
