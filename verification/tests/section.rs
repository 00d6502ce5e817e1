use check_sql::config::ms_sql::Config;
use check_sql::config::section::{self, names};
use check_sql::ms_sql::error::Error;
use check_sql::ms_sql::section::{get_sql_id, Section, SectionKind};
use check_sql::ms_sql::sqls::{self, find_known_query};
use std::time::{Duration, UNIX_EPOCH};

fn sync_section(name: &str) -> Section {
    Section::new(&section::SectionBuilder::new(name).build(), 100)
}

fn async_section(name: &str, cache_age: u32) -> Section {
    Section::new(&section::SectionBuilder::new(name).set_async().build(), cache_age)
}

#[test]
fn test_section_header() {
    let section = Section::make_instance_section();
    assert_eq!(section.to_plain_header(), "<<<mssql_instance:sep(124)>>>\n");
    assert_eq!(section.to_work_header(), "<<<mssql_instance:sep(124)>>>\n");

    let section = Section::new(
        &section::SectionBuilder::new("backup").set_async().build(),
        100,
    );
    assert_eq!(section.to_plain_header(), "<<<mssql_backup:sep(124)>>>\n");
    assert!(section
        .to_work_header()
        .starts_with("<<<mssql_backup:cached("));
    assert!(section.to_work_header().ends_with("100):sep(124)>>>\n"));
}

#[test]
fn test_section_select_query() {
    let mk_section = |name: &str| Section::new(&section::SectionBuilder::new(name).build(), 100);
    let test_set: &[(&str, sqls::Id)] = &[
        (names::INSTANCE, sqls::Id::InstanceProperties),
        (names::DATABASES, sqls::Id::Databases),
        (names::COUNTERS, sqls::Id::Counters),
        (names::BLOCKED_SESSIONS, sqls::Id::BlockedSessions),
        (names::TRANSACTION_LOG, sqls::Id::TransactionLogs),
        (names::CLUSTERS, sqls::Id::Clusters),
        (names::MIRRORING, sqls::Id::Mirroring),
        (names::AVAILABILITY_GROUPS, sqls::Id::AvailabilityGroups),
        (names::CONNECTIONS, sqls::Id::Connections),
        (names::TABLE_SPACES, sqls::Id::TableSpaces),
        (names::DATAFILES, sqls::Id::Datafiles),
        (names::BACKUP, sqls::Id::Backup),
        (names::JOBS, sqls::Id::Jobs),
    ];
    for (name, ids) in test_set {
        assert_eq!(
            mk_section(name).select_query(None).unwrap(),
            find_known_query(*ids).unwrap()
        );
    }
    assert_eq!(mk_section("no_name").select_query(None), None)
}

#[test]
fn test_work_sections() {
    let config = Config::default();
    assert_eq!(config.all_sections().len(), 13);
}

/// We test only few parameters
#[test]
fn test_get_ids() {
    assert_eq!(get_sql_id(names::JOBS).unwrap(), sqls::Id::Jobs);
    assert_eq!(
        get_sql_id(section::names::MIRRORING).unwrap(),
        sqls::Id::Mirroring
    );
    assert_eq!(
        get_sql_id(names::AVAILABILITY_GROUPS).unwrap(),
        sqls::Id::AvailabilityGroups
    );
    assert_eq!(get_sql_id(names::COUNTERS).unwrap(), sqls::Id::Counters);
    assert_eq!(get_sql_id(names::CLUSTERS).unwrap(), sqls::Id::Clusters);
    assert_eq!(
        get_sql_id(names::CONNECTIONS).unwrap(),
        sqls::Id::Connections
    );
    assert!(get_sql_id("").is_none());
}

#[test]
fn test_get_ids_is_exact_and_case_sensitive() {
    assert_eq!(get_sql_id("instance"), Some(sqls::Id::InstanceProperties));
    assert_eq!(get_sql_id("backup"), Some(sqls::Id::Backup));
    assert_eq!(get_sql_id("blocked_sessions"), Some(sqls::Id::BlockedSessions));
    assert_eq!(get_sql_id("databases"), Some(sqls::Id::Databases));
    assert_eq!(get_sql_id("transactionlogs"), Some(sqls::Id::TransactionLogs));
    assert_eq!(get_sql_id("datafiles"), Some(sqls::Id::Datafiles));
    assert_eq!(get_sql_id("tablespaces"), Some(sqls::Id::TableSpaces));
    assert_eq!(get_sql_id("Jobs"), None);
    assert_eq!(get_sql_id("jobs "), None);
    assert_eq!(get_sql_id("job"), None);
    assert_eq!(get_sql_id("no_name"), None);
}

#[test]
fn test_known_queries_differ_and_are_not_empty() {
    let ids = [
        sqls::Id::InstanceProperties,
        sqls::Id::Counters,
        sqls::Id::Backup,
        sqls::Id::BlockedSessions,
        sqls::Id::Databases,
        sqls::Id::Connections,
        sqls::Id::TransactionLogs,
        sqls::Id::Datafiles,
        sqls::Id::TableSpaces,
        sqls::Id::Clusters,
        sqls::Id::Jobs,
        sqls::Id::Mirroring,
        sqls::Id::AvailabilityGroups,
    ];
    for (i, a) in ids.iter().enumerate() {
        let text = find_known_query(*a).unwrap();
        assert!(!text.is_empty());
        for b in ids.iter().skip(i + 1) {
            assert_ne!(text, find_known_query(*b).unwrap());
        }
    }
}

#[test]
fn test_kind_follows_cache_age() {
    let instance = Section::make_instance_section();
    assert_eq!(instance.name(), "instance");
    assert_eq!(instance.sep(), '|');
    assert_eq!(instance.kind(), &SectionKind::Sync);
    assert_eq!(instance.cache_age(), 0);

    let cached = async_section("backup", 100);
    assert_eq!(cached.name(), "backup");
    assert_eq!(cached.kind(), &SectionKind::Async);
    assert_eq!(cached.cache_age(), 100);

    let zero = async_section("backup", 0);
    assert_eq!(zero.kind(), &SectionKind::Async);
    assert_eq!(zero.cache_age(), 0);
}

#[test]
fn test_sync_configuration_drops_cache_age() {
    let section = sync_section("backup");
    assert_eq!(section.kind(), &SectionKind::Sync);
    assert_eq!(section.cache_age(), 0);
    assert_eq!(section.to_work_header(), "<<<mssql_backup:sep(124)>>>\n");
    assert_eq!(section.work_header_at(Some(1700000000)), section.to_plain_header());
}

#[test]
fn test_work_header_at_a_given_time() {
    let section = async_section("backup", 100);
    assert_eq!(
        section.work_header_at(Some(1700000000)),
        "<<<mssql_backup:cached(1700000000,100):sep(124)>>>\n"
    );
    assert_eq!(
        section.work_header_at(Some(u64::MAX)),
        "<<<mssql_backup:cached(18446744073709551615,100):sep(124)>>>\n"
    );
    assert_eq!(
        async_section("jobs", u32::MAX).work_header_at(Some(7)),
        "<<<mssql_jobs:cached(7,4294967295):sep(9)>>>\n"
    );
}

#[test]
fn test_work_header_when_the_clock_fails() {
    let section = async_section("backup", 100);
    assert_eq!(
        section.work_header_at(None),
        "<<<mssql_backup:cached(0,100):sep(124)>>>\n"
    );
}

#[test]
fn test_cached_mark_in_headers() {
    let cached = async_section("backup", 100);
    assert!(!cached.to_plain_header().contains(":cached("));
    assert!(cached.to_work_header().contains(":cached("));
    let plain = sync_section("backup");
    assert!(!plain.to_plain_header().contains(":cached("));
    assert!(!plain.to_work_header().contains(":cached("));
    let odd = sync_section("a:cached(b");
    assert!(odd.to_plain_header().contains(":cached("));
}

#[test]
fn test_header_separator_codes() {
    let comma = Section::new(&section::SectionBuilder::new("counters").sep(',').build(), 0);
    assert_eq!(comma.to_plain_header(), "<<<mssql_counters:sep(44)>>>\n");
    let tab = sync_section("mirroring");
    assert_eq!(tab.sep(), '\t');
    assert_eq!(tab.to_plain_header(), "<<<mssql_mirroring:sep(9)>>>\n");
    let nul = Section::new(&section::SectionBuilder::new("x").sep('\0').build(), 0);
    assert_eq!(nul.to_plain_header(), "<<<mssql_x:sep(0)>>>\n");
    let wide = Section::new(&section::SectionBuilder::new("x").sep('\u{10FFFF}').build(), 0);
    assert_eq!(wide.to_plain_header(), "<<<mssql_x:sep(1114111)>>>\n");
}

#[test]
fn test_emit_header() {
    assert_eq!(check_sql::emit::header("", '|'), "<<<mssql_:sep(124)>>>\n");
    assert_eq!(check_sql::emit::header("name", 'd'), "<<<mssql_name:sep(100)>>>\n");
}

#[test]
fn test_first_line() {
    let line = || "agent enabled".to_string();
    assert_eq!(sync_section("jobs").first_line(line), "agent enabled");
    assert_eq!(sync_section("mirroring").first_line(line), "agent enabled");
    assert_eq!(sync_section("backup").first_line(line), "");
    assert_eq!(sync_section("availability_groups").first_line(line), "");
    assert_eq!(sync_section("JOBS").first_line(line), "");
    assert_eq!(Section::make_instance_section().first_line(line), "");
}

#[test]
fn test_first_line_calls_only_where_needed() {
    let calls = std::cell::Cell::new(0);
    let line = || {
        calls.set(calls.get() + 1);
        String::new()
    };
    sync_section("backup").first_line(&line);
    assert_eq!(calls.get(), 0);
    sync_section("jobs").first_line(&line);
    assert_eq!(calls.get(), 1);
}

#[test]
fn test_main_db() {
    assert_eq!(sync_section("jobs").main_db(), Some("msdb".to_string()));
    assert_eq!(sync_section("mirroring").main_db(), Some("master".to_string()));
    assert_eq!(sync_section("backup").main_db(), None);
    assert_eq!(sync_section("availability_groups").main_db(), None);
    assert_eq!(Section::make_instance_section().main_db(), None);
}

#[test]
fn test_validate_rows_empty() {
    for name in ["backup", "jobs", "instance", "no_name"] {
        assert!(matches!(
            sync_section(name).validate_rows(vec![]),
            Err(Error::EmptyResult)
        ));
        assert!(matches!(
            sync_section(name).validate_rows(vec![vec![]]),
            Err(Error::EmptyResult)
        ));
        assert!(matches!(
            sync_section(name).validate_rows(vec![vec![], vec![]]),
            Err(Error::EmptyResult)
        ));
    }
    for name in ["mirroring", "availability_groups"] {
        assert!(sync_section(name).validate_rows(vec![]).unwrap().is_empty());
        let rows = sync_section(name).validate_rows(vec![vec![], vec![]]).unwrap();
        assert_eq!(rows.len(), 2);
        assert!(rows[0].is_empty());
    }
}

#[test]
fn test_accepts_rows() {
    for name in ["backup", "jobs", "instance", "no_name"] {
        let section = sync_section(name);
        assert!(!section.accepts_rows::<u8>(&vec![]));
        assert!(!section.accepts_rows::<u8>(&vec![vec![]]));
        assert!(!section.accepts_rows(&vec![vec![], vec![1u8]]));
        assert!(section.accepts_rows(&vec![vec![1u8]]));
        assert!(section.accepts_rows(&vec![vec![1u8, 2u8], vec![]]));
    }
    for name in ["mirroring", "availability_groups"] {
        let section = sync_section(name);
        assert!(section.accepts_rows::<u8>(&vec![]));
        assert!(section.accepts_rows::<u8>(&vec![vec![]]));
        assert!(section.accepts_rows(&vec![vec![], vec![1u8]]));
        assert!(section.accepts_rows(&vec![vec![1u8]]));
    }
}

#[test]
fn test_validate_rows_twice() {
    let section = sync_section("backup");
    assert!(section.validate_rows(vec![]).is_err());
    assert!(section.validate_rows(vec![]).is_err());
    let section = sync_section("mirroring");
    assert_eq!(section.validate_rows(vec![]).unwrap().len(), 0);
    assert_eq!(section.validate_rows(vec![]).unwrap().len(), 0);
}

#[test]
fn test_select_query_twice() {
    let section = sync_section("backup");
    assert_eq!(section.select_query(None), section.select_query(None));
    assert_eq!(
        section.select_query(Some("select 1".to_string())),
        section.select_query(Some("select 1".to_string()))
    );
}

#[test]
fn test_provided_query_wins() {
    let provided = Some("select 1".to_string());
    assert_eq!(sync_section("backup").select_query(provided.clone()), provided);
    assert_eq!(sync_section("no_name").select_query(provided.clone()), provided);
    assert_eq!(
        sync_section("no_name").select_query(Some(String::new())),
        Some(String::new())
    );
}

#[test]
fn test_instance_query_is_never_replaced() {
    let built_in = find_known_query(sqls::Id::InstanceProperties).unwrap();
    let section = Section::make_instance_section();
    assert_eq!(section.select_query(None).unwrap(), built_in);
    assert_eq!(
        section.select_query(Some("select 1".to_string())).unwrap(),
        built_in
    );
    assert_eq!(section.provided_query_file(), None);
}

#[test]
fn test_provided_query_file() {
    assert_eq!(
        sync_section("backup").provided_query_file(),
        Some("backup.sql".to_string())
    );
    assert_eq!(
        sync_section("BackUp").provided_query_file(),
        Some("backup.sql".to_string())
    );
    assert_eq!(
        sync_section("No_Name").provided_query_file(),
        Some("no_name.sql".to_string())
    );
}

#[test]
fn test_error_messages() {
    assert_eq!(Error::EmptyResult.message(), "No output from query");
    assert_eq!(Error::NotFound.message(), "Query not found");
}

#[test]
fn test_default_config() {
    let config = Config::default();
    assert_eq!(config.cache_age(), 600);
    let sections = config.all_sections();
    assert_eq!(sections[0].name(), "instance");
    assert_eq!(sections[0].kind(), section::SectionKind::Sync);
    assert_eq!(sections[8].name(), "connections");
    assert_eq!(sections[8].kind(), section::SectionKind::Sync);
    assert_eq!(sections[9].name(), "tablespaces");
    assert_eq!(sections[9].kind(), section::SectionKind::Async);
    assert_eq!(sections[12].name(), "jobs");
    assert_eq!(sections[12].kind(), section::SectionKind::Async);
    assert_eq!(sections[12].sep(), '\t');
    for s in sections {
        assert!(get_sql_id(s.name()).is_some());
    }
}

#[test]
fn test_clock() {
    let now = check_sql::utils::get_utc_now();
    assert!(now.is_some());
    assert!(now.unwrap() > 1_000_000_000);
}

#[test]
fn test_elapsed_seconds() {
    let elapsed_seconds = check_sql::utils::elapsed_seconds;
    assert_eq!(elapsed_seconds(Ok(Duration::from_secs(90))), Some(90));
    assert_eq!(elapsed_seconds(Ok(Duration::new(5, 999_999_999))), Some(5));
    assert_eq!(elapsed_seconds(Ok(Duration::from_millis(999))), Some(0));
    let later = UNIX_EPOCH + Duration::from_secs(10);
    assert_eq!(elapsed_seconds(later.duration_since(UNIX_EPOCH)), Some(10));
    assert_eq!(elapsed_seconds(UNIX_EPOCH.duration_since(later)), None);
}
