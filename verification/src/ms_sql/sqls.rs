use crate::ms_sql::error::Error;
use vstd::prelude::*;

verus! {

/// The built-in queries, one per known section.
#[derive(Debug, PartialEq, Eq, Structural, Clone, Copy, Hash)]
pub enum Id {
    InstanceProperties,
    Counters,
    Backup,
    BlockedSessions,
    Databases,
    Connections,
    TransactionLogs,
    Datafiles,
    TableSpaces,
    Clusters,
    Jobs,
    Mirroring,
    AvailabilityGroups,
}

pub const QUERY_INSTANCE_PROPERTIES: &'static str =
    "SELECT SERVERPROPERTY('InstanceName') AS InstanceName, SERVERPROPERTY('ProductVersion') AS ProductVersion, SERVERPROPERTY('MachineName') AS MachineName, SERVERPROPERTY('Edition') AS Edition, SERVERPROPERTY('ProductLevel') AS ProductLevel, SERVERPROPERTY('ComputerNamePhysicalNetBIOS') AS NetBios";

pub const QUERY_COUNTERS: &'static str =
    "SELECT counter_name, object_name, instance_name, cntr_value FROM sys.dm_os_performance_counters WHERE object_name NOT LIKE '%Deprecated%'";

pub const QUERY_BACKUP: &'static str =
    "SELECT database_name, CONVERT(VARCHAR, DATEADD(s, MAX(DATEDIFF(s, '19700101', backup_finish_date)), '19700101'), 120) AS last_backup_date, type, machine_name FROM msdb.dbo.backupset GROUP BY database_name, type, machine_name";

pub const QUERY_BLOCKED_SESSIONS: &'static str =
    "SELECT session_id, wait_duration_ms, wait_type, blocking_session_id FROM sys.dm_os_waiting_tasks WHERE blocking_session_id <> 0";

pub const QUERY_DATABASES: &'static str =
    "SELECT name, DATABASEPROPERTYEX(name, 'Status') AS Status, DATABASEPROPERTYEX(name, 'Recovery') AS Recovery, DATABASEPROPERTYEX(name, 'IsAutoClose') AS auto_close, DATABASEPROPERTYEX(name, 'IsAutoShrink') AS auto_shrink FROM master.dbo.sysdatabases";

pub const QUERY_CONNECTIONS: &'static str =
    "SELECT name AS DbName, CAST((SELECT COUNT(dbid) AS Num_Of_Connections FROM sys.sysprocesses WHERE dbid > 0 AND name = DB_NAME(dbid) GROUP BY dbid) AS BIGINT) AS NumberOfConnections FROM sys.databases";

pub const QUERY_TRANSACTION_LOGS: &'static str =
    "SELECT name, physical_name, CAST(max_size AS BIGINT) AS MaxSize, CAST(size AS BIGINT) AS AllocatedSize, CAST(FILEPROPERTY(name, 'spaceused') AS BIGINT) AS UsedSize, CASE WHEN max_size = '-1' OR max_size = '268435456' THEN '1' ELSE '0' END AS Unlimited FROM sys.database_files WHERE type_desc = 'LOG'";

pub const QUERY_DATAFILES: &'static str =
    "SELECT name, physical_name, CAST(max_size AS BIGINT) AS MaxSize, CAST(size AS BIGINT) AS AllocatedSize, CAST(FILEPROPERTY(name, 'spaceused') AS BIGINT) AS UsedSize, CASE WHEN max_size = '-1' OR max_size = '268435456' THEN '1' ELSE '0' END AS Unlimited FROM sys.database_files WHERE type_desc = 'ROWS'";

pub const QUERY_TABLE_SPACES: &'static str = "EXEC sp_spaceused";

pub const QUERY_CLUSTERS: &'static str =
    "SELECT nodename AS node_name, SERVERPROPERTY('ComputerNamePhysicalNetBIOS') AS active_node FROM sys.dm_os_cluster_nodes";

pub const QUERY_JOBS: &'static str =
    "SELECT sj.job_id, sj.name AS job_name, sj.enabled AS job_enabled, CAST(sjs.next_run_date AS VARCHAR(8)) AS next_run_date, CAST(sjs.next_run_time AS VARCHAR(6)) AS next_run_time, sjserver.last_run_outcome, sjserver.last_outcome_message, CAST(sjserver.last_run_date AS VARCHAR(8)) AS last_run_date, CAST(sjserver.last_run_time AS VARCHAR(6)) AS last_run_time, sjserver.last_run_duration, ss.enabled AS schedule_enabled, CONVERT(VARCHAR, CURRENT_TIMESTAMP, 20) AS server_current_time FROM dbo.sysjobs sj LEFT JOIN dbo.sysjobschedules sjs ON sj.job_id = sjs.job_id LEFT JOIN dbo.sysjobservers sjserver ON sj.job_id = sjserver.job_id LEFT JOIN dbo.sysschedules ss ON sjs.schedule_id = ss.schedule_id ORDER BY sj.name, sjs.next_run_date ASC, sjs.next_run_time ASC";

pub const QUERY_MIRRORING: &'static str =
    "SELECT @@SERVERNAME AS server_name, DB_NAME(database_id) AS database_name, mirroring_state, mirroring_state_desc, mirroring_role, mirroring_role_desc, mirroring_safety_level, mirroring_safety_level_desc, mirroring_partner_name, mirroring_partner_instance, mirroring_witness_name, mirroring_witness_state, mirroring_witness_state_desc FROM sys.database_mirroring WHERE mirroring_state IS NOT NULL";

pub const QUERY_AVAILABILITY_GROUPS: &'static str =
    "SELECT GroupsName.name, Groups.primary_replica, Groups.synchronization_health, Groups.synchronization_health_desc, Groups.primary_recovery_health_desc FROM sys.dm_hadr_availability_group_states Groups INNER JOIN master.sys.availability_groups GroupsName ON Groups.group_id = GroupsName.group_id";

/// The built-in text of the query `id`.
pub open spec fn query_text(id: Id) -> Seq<char> {
    match id {
        Id::InstanceProperties => QUERY_INSTANCE_PROPERTIES@,
        Id::Counters => QUERY_COUNTERS@,
        Id::Backup => QUERY_BACKUP@,
        Id::BlockedSessions => QUERY_BLOCKED_SESSIONS@,
        Id::Databases => QUERY_DATABASES@,
        Id::Connections => QUERY_CONNECTIONS@,
        Id::TransactionLogs => QUERY_TRANSACTION_LOGS@,
        Id::Datafiles => QUERY_DATAFILES@,
        Id::TableSpaces => QUERY_TABLE_SPACES@,
        Id::Clusters => QUERY_CLUSTERS@,
        Id::Jobs => QUERY_JOBS@,
        Id::Mirroring => QUERY_MIRRORING@,
        Id::AvailabilityGroups => QUERY_AVAILABILITY_GROUPS@,
    }
}

/// Looks up the built-in text of a query. Every id has one, so the lookup
/// never fails.
pub fn find_known_query(id: Id) -> (found: Result<&'static str, Error>)
    ensures
        found is Ok,
        found->Ok_0@ == query_text(id),
{
    let text = match id {
        Id::InstanceProperties => QUERY_INSTANCE_PROPERTIES,
        Id::Counters => QUERY_COUNTERS,
        Id::Backup => QUERY_BACKUP,
        Id::BlockedSessions => QUERY_BLOCKED_SESSIONS,
        Id::Databases => QUERY_DATABASES,
        Id::Connections => QUERY_CONNECTIONS,
        Id::TransactionLogs => QUERY_TRANSACTION_LOGS,
        Id::Datafiles => QUERY_DATAFILES,
        Id::TableSpaces => QUERY_TABLE_SPACES,
        Id::Clusters => QUERY_CLUSTERS,
        Id::Jobs => QUERY_JOBS,
        Id::Mirroring => QUERY_MIRRORING,
        Id::AvailabilityGroups => QUERY_AVAILABILITY_GROUPS,
    };
    Ok(text)
}

} // verus!
