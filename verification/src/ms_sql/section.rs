use crate::config::section::names;
use crate::constants::{FALLBACK_TIMESTAMP, SQL_QUERY_EXTENSION};
use crate::emit::{header, header_text};
use crate::ms_sql::error::Error;
use crate::ms_sql::sqls;
use crate::text::{decimal, lowercase, opt_text, push_decimal, to_lowercase};
use crate::utils::get_utc_now;
use vstd::prelude::*;
use vstd::string::*;

verus! {

/// `tiberius::Row`, one row of a query's result. The section model hands rows
/// on and never looks into one.
#[verifier::external_type_specification]
#[verifier::external_body]
pub struct ExRow(tiberius::Row);

/// Whether a section's output is fresh on every run or may come from a cache.
#[derive(Debug, PartialEq, Eq, Structural, Clone, Copy)]
pub enum SectionKind {
    Sync,
    Async,
}

/// A section as a mathematical value.
pub struct SectionView {
    pub name: Seq<char>,
    pub sep: char,
    pub cache_age: Option<u32>,
}

/// One section of a monitoring run: its name, the separator of its fields,
/// and, if its output may be cached, for how many seconds.
#[derive(Debug, Clone)]
pub struct Section {
    name: String,
    sep: char,
    cache_age: Option<u32>,
}

impl View for Section {
    type V = SectionView;

    closed spec fn view(&self) -> SectionView {
        SectionView { name: self.name@, sep: self.sep, cache_age: self.cache_age }
    }
}

pub const CACHED_OPEN: &'static str = ":cached(";

pub const CACHED_COMMA: &'static str = ",";

pub const CACHED_CLOSE: &'static str = ")";

pub const MAIN_DB_OF_JOBS: &'static str = "msdb";

pub const MAIN_DB_OF_MIRRORING: &'static str = "master";

/// The section that a configured section and a cache age make: the age is
/// kept only if the configuration declares the section asynchronous.
pub open spec fn section_of(config: crate::config::section::SectionView, cache_age: u32) -> SectionView {
    SectionView {
        name: config.name,
        sep: config.sep,
        cache_age: if config.kind == crate::config::section::SectionKind::Async {
            Some(cache_age)
        } else {
            None
        },
    }
}

/// A section is asynchronous exactly if it has a cache age.
pub open spec fn kind_of(section: SectionView) -> SectionKind {
    if section.cache_age is Some {
        SectionKind::Async
    } else {
        SectionKind::Sync
    }
}

/// The cache age as reported: zero stands for "not cached".
pub open spec fn reported_cache_age(section: SectionView) -> u32 {
    match section.cache_age {
        Some(age) => age,
        None => 0,
    }
}

/// The header without any word on caching.
pub open spec fn plain_header_text(section: SectionView) -> Seq<char> {
    header_text(section.name, section.sep)
}

/// What a cached section adds to its name in a header written at `now`.
pub open spec fn cached_text(cache_age: Option<u32>, now: u64) -> Seq<char> {
    match cache_age {
        Some(age) => CACHED_OPEN@ + decimal(now as nat) + CACHED_COMMA@ + decimal(age as nat)
            + CACHED_CLOSE@,
        None => Seq::empty(),
    }
}

/// The header written at `now`, which tells of the cache if there is one.
pub open spec fn work_header_text(section: SectionView, now: u64) -> Seq<char> {
    header_text(section.name + cached_text(section.cache_age, now), section.sep)
}

/// The timestamp that a clock reading stands for.
pub open spec fn timestamp_of(clock: Option<u64>) -> u64 {
    match clock {
        Some(now) => now,
        None => FALLBACK_TIMESTAMP,
    }
}

/// The sections whose output starts with a line of their own.
pub open spec fn has_first_line(name: Seq<char>) -> bool {
    name == names::JOBS@ || name == names::MIRRORING@
}

/// The database a section has to be queried in, if it is not the default one.
pub open spec fn main_db_of(name: Seq<char>) -> Option<Seq<char>> {
    if name == names::JOBS@ {
        Some(MAIN_DB_OF_JOBS@)
    } else if name == names::MIRRORING@ {
        Some(MAIN_DB_OF_MIRRORING@)
    } else {
        None
    }
}

/// The sections that may rightly have no rows at all.
pub open spec fn may_be_empty(name: Seq<char>) -> bool {
    name == names::MIRRORING@ || name == names::AVAILABILITY_GROUPS@
}

/// The rows of a section are fit to be emitted: the first group has a row,
/// or the section may be empty.
pub open spec fn rows_accepted<T>(name: Seq<char>, rows: Seq<Vec<T>>) -> bool {
    (rows.len() > 0 && rows[0]@.len() > 0) || may_be_empty(name)
}

/// The verdict on the rows of a section: the rows themselves where they are
/// accepted, else the error of an empty result.
pub open spec fn validated_rows(name: Seq<char>, rows: Vec<Vec<tiberius::Row>>) -> Result<
    Vec<Vec<tiberius::Row>>,
    Error,
> {
    if rows_accepted(name, rows@) {
        Ok(rows)
    } else {
        Err(Error::EmptyResult)
    }
}

/// The query id registered for a section name, by exact match.
pub open spec fn sql_id_of(name: Seq<char>) -> Option<sqls::Id> {
    if name == names::INSTANCE@ {
        Some(sqls::Id::InstanceProperties)
    } else if name == names::COUNTERS@ {
        Some(sqls::Id::Counters)
    } else if name == names::BACKUP@ {
        Some(sqls::Id::Backup)
    } else if name == names::BLOCKED_SESSIONS@ {
        Some(sqls::Id::BlockedSessions)
    } else if name == names::DATABASES@ {
        Some(sqls::Id::Databases)
    } else if name == names::CONNECTIONS@ {
        Some(sqls::Id::Connections)
    } else if name == names::TRANSACTION_LOG@ {
        Some(sqls::Id::TransactionLogs)
    } else if name == names::DATAFILES@ {
        Some(sqls::Id::Datafiles)
    } else if name == names::TABLE_SPACES@ {
        Some(sqls::Id::TableSpaces)
    } else if name == names::CLUSTERS@ {
        Some(sqls::Id::Clusters)
    } else if name == names::JOBS@ {
        Some(sqls::Id::Jobs)
    } else if name == names::MIRRORING@ {
        Some(sqls::Id::Mirroring)
    } else if name == names::AVAILABILITY_GROUPS@ {
        Some(sqls::Id::AvailabilityGroups)
    } else {
        None
    }
}

/// The registry: each known section name with the id of its query.
pub open spec fn registry() -> Seq<(Seq<char>, sqls::Id)> {
    seq![
        (names::INSTANCE@, sqls::Id::InstanceProperties),
        (names::COUNTERS@, sqls::Id::Counters),
        (names::BACKUP@, sqls::Id::Backup),
        (names::BLOCKED_SESSIONS@, sqls::Id::BlockedSessions),
        (names::DATABASES@, sqls::Id::Databases),
        (names::CONNECTIONS@, sqls::Id::Connections),
        (names::TRANSACTION_LOG@, sqls::Id::TransactionLogs),
        (names::DATAFILES@, sqls::Id::Datafiles),
        (names::TABLE_SPACES@, sqls::Id::TableSpaces),
        (names::CLUSTERS@, sqls::Id::Clusters),
        (names::JOBS@, sqls::Id::Jobs),
        (names::MIRRORING@, sqls::Id::Mirroring),
        (names::AVAILABILITY_GROUPS@, sqls::Id::AvailabilityGroups),
    ]
}

/// `name` is one of the names of the registry.
pub open spec fn is_registered(name: Seq<char>) -> bool {
    exists|i: int| 0 <= i < registry().len() && (#[trigger] registry()[i]).0 == name
}

/// The built-in query text of a section name, if the name is registered.
pub open spec fn known_query_of(name: Seq<char>) -> Option<Seq<char>> {
    match sql_id_of(name) {
        Some(id) => Some(sqls::query_text(id)),
        None => None,
    }
}

/// The name of the file that may hold a query of the user's for a section.
/// The instance section has none: its query is always the built-in one.
pub open spec fn provided_query_file_of(name: Seq<char>) -> Option<Seq<char>> {
    if name == names::INSTANCE@ {
        None
    } else {
        Some(lowercase(name) + SQL_QUERY_EXTENSION@)
    }
}

/// The query of a section, given the text of the user's query file if there
/// is one and it could be read: the instance section always runs the built-in
/// query, any other section the user's text if there is one, else the
/// built-in text of its name, else nothing.
pub open spec fn selected_query(name: Seq<char>, provided: Option<Seq<char>>) -> Option<Seq<char>> {
    if name == names::INSTANCE@ {
        Some(sqls::query_text(sqls::Id::InstanceProperties))
    } else if provided is Some {
        provided
    } else {
        known_query_of(name)
    }
}

impl Section {
    /// The instance section: never cached, with the default separator of its
    /// name.
    pub fn make_instance_section() -> (section: Self)
        ensures
            section@ == (SectionView {
                name: names::INSTANCE@,
                sep: crate::config::section::default_separator(names::INSTANCE@),
                cache_age: None,
            }),
    {
        let config_section = crate::config::section::SectionBuilder::new(names::INSTANCE).build();
        Self {
            name: String::from_str(config_section.name()),
            sep: config_section.sep(),
            cache_age: None,
        }
    }

    /// The section that `section` configures. `cache_age` is kept only if the
    /// configuration declares the section asynchronous.
    pub fn new(section: &crate::config::section::Section, cache_age: u32) -> (made: Self)
        ensures
            made@ == section_of(section@, cache_age),
    {
        let cache_age = if section.kind() == crate::config::section::SectionKind::Async {
            Some(cache_age)
        } else {
            None
        };
        Self { name: String::from_str(section.name()), sep: section.sep(), cache_age }
    }

    /// The header line without any word on caching.
    pub fn to_plain_header(&self) -> (line: String)
        ensures
            line@ == plain_header_text(self@),
    {
        header(self.name.as_str(), self.sep)
    }

    /// The header line as written now: a cached section tells the time of
    /// writing and its cache age. The time is whatever the clock says, and
    /// the fallback timestamp if the clock cannot be read.
    pub fn to_work_header(&self) -> (line: String)
        ensures
            exists|now: u64| line@ == work_header_text(self@, now),
            self@.cache_age is None ==> line@ == plain_header_text(self@),
    {
        let clock = get_utc_now();
        let line = self.work_header_at(clock);
        proof {
            assert(line@ == work_header_text(self@, timestamp_of(clock)));
            if self@.cache_age is None {
                lemma_uncached_work_header(self@, timestamp_of(clock));
            }
        }
        line
    }

    /// The header line as written at the clock reading `clock`, where `None`
    /// stands for a clock that could not be read.
    pub fn work_header_at(&self, clock: Option<u64>) -> (line: String)
        ensures
            line@ == work_header_text(self@, timestamp_of(clock)),
    {
        let now = match clock {
            Some(now) => now,
            None => FALLBACK_TIMESTAMP,
        };
        let mut name = self.name.clone();
        let cached = self.cached_header(now);
        name.append(cached.as_str());
        header(name.as_str(), self.sep)
    }

    fn cached_header(&self, now: u64) -> (text: String)
        ensures
            text@ == cached_text(self@.cache_age, now),
    {
        match self.cache_age {
            Some(age) => {
                let mut text = String::from_str(CACHED_OPEN);
                push_decimal(&mut text, now);
                text.append(CACHED_COMMA);
                push_decimal(&mut text, age as u64);
                text.append(CACHED_CLOSE);
                text
            },
            None => String::new(),
        }
    }

    pub fn name(&self) -> (name: &str)
        ensures
            name@ == self@.name,
    {
        self.name.as_str()
    }

    pub fn sep(&self) -> (sep: char)
        ensures
            sep == self@.sep,
    {
        self.sep
    }

    /// Asynchronous exactly if the section has a cache age.
    pub fn kind(&self) -> (kind: &SectionKind)
        ensures
            *kind == kind_of(self@),
    {
        if self.cache_age.is_some() {
            &SectionKind::Async
        } else {
            &SectionKind::Sync
        }
    }

    /// The cache age in seconds, and zero for a section that is not cached.
    pub fn cache_age(&self) -> (age: u32)
        ensures
            age == reported_cache_age(self@),
    {
        if let Some(v) = self.cache_age {
            v
        } else {
            0
        }
    }

    /// The line that the section's output starts with: what `closure` gives
    /// for the jobs and the mirroring section, and nothing for any other,
    /// for which `closure` is not called.
    pub fn first_line<F>(&self, closure: F) -> (line: String) where F: Fn() -> String
        requires
            has_first_line(self@.name) ==> closure.requires(()),
        ensures
            has_first_line(self@.name) ==> closure.ensures((), line),
            !has_first_line(self@.name) ==> line@ == Seq::<char>::empty(),
    {
        let name = self.name.as_str();
        if name.eq(names::JOBS) || name.eq(names::MIRRORING) {
            closure()
        } else {
            String::new()
        }
    }

    /// The name of the file, in the directory of the user's queries, whose
    /// text takes the place of the built-in query of this section.
    pub fn provided_query_file(&self) -> (file: Option<String>)
        ensures
            opt_text(file) == provided_query_file_of(self@.name),
    {
        if self.name.as_str().eq(names::INSTANCE) {
            None
        } else {
            let mut file = to_lowercase(self.name.as_str());
            file.append(SQL_QUERY_EXTENSION);
            Some(file)
        }
    }

    /// The query to run for this section, or `None` if there is none and the
    /// section is to be skipped. `provided` is the text of the user's query
    /// file, where one was given and could be read.
    pub fn select_query(&self, provided: Option<String>) -> (query: Option<String>)
        ensures
            opt_text(query) == selected_query(self@.name, opt_text(provided)),
    {
        if self.name.as_str().eq(names::INSTANCE) {
            match Self::find_known_query(sqls::Id::InstanceProperties) {
                Some(text) => Some(String::from_str(text)),
                None => None,
            }
        } else {
            self.find_query(provided)
        }
    }

    fn find_query(&self, provided: Option<String>) -> (query: Option<String>)
        ensures
            opt_text(query) == (if provided is Some {
                opt_text(provided)
            } else {
                known_query_of(self@.name)
            }),
    {
        match provided {
            Some(text) => Some(text),
            None => match get_sql_id(self.name.as_str()) {
                Some(id) => match Self::find_known_query(id) {
                    Some(text) => Some(String::from_str(text)),
                    None => None,
                },
                None => None,
            },
        }
    }

    fn find_known_query(id: sqls::Id) -> (text: Option<&'static str>)
        ensures
            text is Some,
            text->Some_0@ == sqls::query_text(id),
    {
        match sqls::find_known_query(id) {
            Ok(text) => Some(text),
            Err(_) => None,
        }
    }

    /// The database to query this section in, where it is not the default one.
    pub fn main_db(&self) -> (db: Option<String>)
        ensures
            opt_text(db) == main_db_of(self@.name),
    {
        let name = self.name.as_str();
        if name.eq(names::JOBS) {
            Some(String::from_str(MAIN_DB_OF_JOBS))
        } else if name.eq(names::MIRRORING) {
            Some(String::from_str(MAIN_DB_OF_MIRRORING))
        } else {
            None
        }
    }

    /// Whether rows of this section are fit to be emitted, whatever a row is
    /// made of: the first group has a row, or the section may be empty.
    pub fn accepts_rows<T>(&self, rows: &Vec<Vec<T>>) -> (accepted: bool)
        ensures
            accepted == rows_accepted(self@.name, rows@),
    {
        let name = self.name.as_str();
        (!rows.is_empty() && !rows[0].is_empty()) || name.eq(names::MIRRORING) || name.eq(
            names::AVAILABILITY_GROUPS,
        )
    }

    /// Hands the rows back if they are fit to be emitted, and rejects them as
    /// an empty result if not.
    pub fn validate_rows(&self, rows: Vec<Vec<tiberius::Row>>) -> (checked: Result<
        Vec<Vec<tiberius::Row>>,
        Error,
    >)
        ensures
            checked == validated_rows(self@.name, rows),
    {
        if self.accepts_rows(&rows) {
            Ok(rows)
        } else {
            Err(Error::EmptyResult)
        }
    }
}

/// The query id registered for a section name, by exact match; `None` for any
/// other name.
pub fn get_sql_id(section_name: &str) -> (id: Option<sqls::Id>)
    ensures
        id == sql_id_of(section_name@),
{
    if section_name.eq(names::INSTANCE) {
        Some(sqls::Id::InstanceProperties)
    } else if section_name.eq(names::COUNTERS) {
        Some(sqls::Id::Counters)
    } else if section_name.eq(names::BACKUP) {
        Some(sqls::Id::Backup)
    } else if section_name.eq(names::BLOCKED_SESSIONS) {
        Some(sqls::Id::BlockedSessions)
    } else if section_name.eq(names::DATABASES) {
        Some(sqls::Id::Databases)
    } else if section_name.eq(names::CONNECTIONS) {
        Some(sqls::Id::Connections)
    } else if section_name.eq(names::TRANSACTION_LOG) {
        Some(sqls::Id::TransactionLogs)
    } else if section_name.eq(names::DATAFILES) {
        Some(sqls::Id::Datafiles)
    } else if section_name.eq(names::TABLE_SPACES) {
        Some(sqls::Id::TableSpaces)
    } else if section_name.eq(names::CLUSTERS) {
        Some(sqls::Id::Clusters)
    } else if section_name.eq(names::JOBS) {
        Some(sqls::Id::Jobs)
    } else if section_name.eq(names::MIRRORING) {
        Some(sqls::Id::Mirroring)
    } else if section_name.eq(names::AVAILABILITY_GROUPS) {
        Some(sqls::Id::AvailabilityGroups)
    } else {
        None
    }
}

/// The work header of a section without a cache age is its plain header,
/// whatever the time.
pub proof fn lemma_uncached_work_header(section: SectionView, now: u64)
    requires
        section.cache_age is None,
    ensures
        work_header_text(section, now) == plain_header_text(section),
{
    assert(section.name + Seq::<char>::empty() =~= section.name);
}

} // verus!
