use crate::config::section::{names, Section, SectionBuilder, SectionKind, SectionView};
use crate::config::section::default_separator;
use vstd::prelude::*;

verus! {

/// Seconds that an asynchronous section's output stays valid by default.
pub const DEFAULT_CACHE_AGE: u32 = 600;

/// The names of the sections that are collected by default, in the order in
/// which they are collected.
pub open spec fn default_section_names() -> Seq<Seq<char>> {
    seq![
        names::INSTANCE@,
        names::DATABASES@,
        names::COUNTERS@,
        names::BLOCKED_SESSIONS@,
        names::TRANSACTION_LOG@,
        names::CLUSTERS@,
        names::MIRRORING@,
        names::AVAILABILITY_GROUPS@,
        names::CONNECTIONS@,
        names::TABLE_SPACES@,
        names::DATAFILES@,
        names::BACKUP@,
        names::JOBS@,
    ]
}

/// How many of the default sections, counted from the first, are synchronous;
/// the rest are asynchronous.
pub open spec fn default_sync_count() -> int {
    9
}

/// The `i`-th default section.
pub open spec fn default_section(i: int) -> SectionView {
    SectionView {
        name: default_section_names()[i],
        sep: default_separator(default_section_names()[i]),
        kind: if i < default_sync_count() {
            SectionKind::Sync
        } else {
            SectionKind::Async
        },
    }
}

/// The sections to collect and the cache age of the asynchronous ones.
pub struct Config {
    sections: Vec<Section>,
    cache_age: u32,
}

impl Config {
    /// The configured sections as mathematical values.
    pub closed spec fn spec_sections(&self) -> Seq<SectionView> {
        Seq::new(self.sections@.len(), |i: int| self.sections@[i]@)
    }

    pub closed spec fn spec_cache_age(&self) -> u32 {
        self.cache_age
    }

    pub fn all_sections(&self) -> (sections: &Vec<Section>)
        ensures
            sections@.len() == self.spec_sections().len(),
            forall|i: int|
                0 <= i < sections@.len() ==> (#[trigger] sections@[i])@ == self.spec_sections()[i],
    {
        &self.sections
    }

    pub fn cache_age(&self) -> (age: u32)
        ensures
            age == self.spec_cache_age(),
    {
        self.cache_age
    }
}

impl Default for Config {
    fn default() -> (config: Self)
        ensures
            config.spec_cache_age() == DEFAULT_CACHE_AGE,
            config.spec_sections().len() == 13,
            forall|i: int| 0 <= i < 13 ==> #[trigger] config.spec_sections()[i] == default_section(i),
    {
        let mut sections: Vec<Section> = Vec::new();
        sections.push(SectionBuilder::new(names::INSTANCE).build());
        sections.push(SectionBuilder::new(names::DATABASES).build());
        sections.push(SectionBuilder::new(names::COUNTERS).build());
        sections.push(SectionBuilder::new(names::BLOCKED_SESSIONS).build());
        sections.push(SectionBuilder::new(names::TRANSACTION_LOG).build());
        sections.push(SectionBuilder::new(names::CLUSTERS).build());
        sections.push(SectionBuilder::new(names::MIRRORING).build());
        sections.push(SectionBuilder::new(names::AVAILABILITY_GROUPS).build());
        sections.push(SectionBuilder::new(names::CONNECTIONS).build());
        sections.push(SectionBuilder::new(names::TABLE_SPACES).set_async().build());
        sections.push(SectionBuilder::new(names::DATAFILES).set_async().build());
        sections.push(SectionBuilder::new(names::BACKUP).set_async().build());
        sections.push(SectionBuilder::new(names::JOBS).set_async().build());
        Self { sections, cache_age: DEFAULT_CACHE_AGE }
    }
}

} // verus!
