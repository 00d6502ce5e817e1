pub mod names;

use vstd::prelude::*;
use vstd::string::*;

verus! {

/// Whether a section is queried on every run or may be served from a cache.
#[derive(Debug, PartialEq, Eq, Structural, Clone, Copy)]
pub enum SectionKind {
    Sync,
    Async,
}

/// Separator of every section that has no default of its own.
pub const DEFAULT_SEPARATOR: char = '|';

/// Separator of the sections whose fields may hold a `|`.
pub const TAB_SEPARATOR: char = '\t';

/// The sections that are separated by a tab unless configured otherwise.
pub open spec fn is_tab_separated(name: Seq<char>) -> bool {
    name == names::JOBS@ || name == names::MIRRORING@ || name == names::AVAILABILITY_GROUPS@
}

/// The separator a section has when none is configured for it.
pub open spec fn default_separator(name: Seq<char>) -> char {
    if is_tab_separated(name) {
        TAB_SEPARATOR
    } else {
        DEFAULT_SEPARATOR
    }
}

/// The separator a section has when none is configured for it.
pub fn get_default_separator(name: &str) -> (sep: char)
    ensures
        sep == default_separator(name@),
{
    if name.eq(names::JOBS) || name.eq(names::MIRRORING) || name.eq(names::AVAILABILITY_GROUPS) {
        TAB_SEPARATOR
    } else {
        DEFAULT_SEPARATOR
    }
}

/// A configured section as a mathematical value.
pub struct SectionView {
    pub name: Seq<char>,
    pub sep: char,
    pub kind: SectionKind,
}

/// One section as the configuration declares it.
#[derive(Debug, Clone)]
pub struct Section {
    name: String,
    sep: char,
    is_async: bool,
}

impl View for Section {
    type V = SectionView;

    closed spec fn view(&self) -> SectionView {
        SectionView {
            name: self.name@,
            sep: self.sep,
            kind: if self.is_async {
                SectionKind::Async
            } else {
                SectionKind::Sync
            },
        }
    }
}

impl Section {
    pub fn name(&self) -> (name: &str)
        ensures
            name@ == self@.name,
    {
        self.name.as_str()
    }

    pub fn sep(&self) -> (sep: char)
        ensures
            sep == self@.sep,
    {
        self.sep
    }

    pub fn kind(&self) -> (kind: SectionKind)
        ensures
            kind == self@.kind,
    {
        if self.is_async {
            SectionKind::Async
        } else {
            SectionKind::Sync
        }
    }
}

/// Collects what a configured section is made of. A fresh builder stands for
/// a synchronous section with the default separator of its name.
pub struct SectionBuilder {
    name: String,
    sep: char,
    is_async: bool,
}

impl View for SectionBuilder {
    type V = SectionView;

    closed spec fn view(&self) -> SectionView {
        SectionView {
            name: self.name@,
            sep: self.sep,
            kind: if self.is_async {
                SectionKind::Async
            } else {
                SectionKind::Sync
            },
        }
    }
}

impl SectionBuilder {
    pub fn new(name: &str) -> (builder: Self)
        ensures
            builder@ == (SectionView {
                name: name@,
                sep: default_separator(name@),
                kind: SectionKind::Sync,
            }),
    {
        Self { name: String::from_str(name), sep: get_default_separator(name), is_async: false }
    }

    pub fn sep(self, sep: char) -> (builder: Self)
        ensures
            builder@ == (SectionView { sep: sep, ..self@ }),
    {
        Self { name: self.name, sep, is_async: self.is_async }
    }

    pub fn set_async(self) -> (builder: Self)
        ensures
            builder@ == (SectionView { kind: SectionKind::Async, ..self@ }),
    {
        Self { name: self.name, sep: self.sep, is_async: true }
    }

    pub fn build(self) -> (section: Section)
        ensures
            section@ == self@,
    {
        Section { name: self.name, sep: self.sep, is_async: self.is_async }
    }
}

} // verus!
