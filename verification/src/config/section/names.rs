use vstd::prelude::*;

verus! {

pub const INSTANCE: &'static str = "instance";

pub const DATABASES: &'static str = "databases";

pub const COUNTERS: &'static str = "counters";

pub const BLOCKED_SESSIONS: &'static str = "blocked_sessions";

pub const TRANSACTION_LOG: &'static str = "transactionlogs";

pub const CLUSTERS: &'static str = "clusters";

pub const MIRRORING: &'static str = "mirroring";

pub const AVAILABILITY_GROUPS: &'static str = "availability_groups";

pub const CONNECTIONS: &'static str = "connections";

pub const TABLE_SPACES: &'static str = "tablespaces";

pub const DATAFILES: &'static str = "datafiles";

pub const BACKUP: &'static str = "backup";

pub const JOBS: &'static str = "jobs";

} // verus!
