use crate::emit::{header_text, HEADER_CLOSE, HEADER_OPEN, PREFIX, SEPARATOR_OPEN};
use crate::ms_sql::error::Error;
use crate::ms_sql::section::{
    cached_text, is_registered, kind_of, may_be_empty, plain_header_text, registry,
    reported_cache_age, section_of, selected_query, sql_id_of, validated_rows, work_header_text,
    SectionKind, SectionView, CACHED_CLOSE, CACHED_COMMA, CACHED_OPEN,
};
use crate::ms_sql::sqls;
use crate::text::{contains, decimal, occurs_at, opt_text};
use vstd::prelude::*;

verus! {

/// A base-ten numeral is not empty and holds no colon.
pub proof fn lemma_decimal_has_no_colon(n: nat)
    ensures
        decimal(n).len() >= 1,
        forall|i: int| 0 <= i < decimal(n).len() ==> decimal(n)[i] != ':',
    decreases n,
{
    if n >= 10 {
        lemma_decimal_has_no_colon(n / 10);
    }
}

/// A header holds the mark that opens the word on caching exactly if the
/// name written into it does.
pub proof fn lemma_header_holds_mark_of_name(name: Seq<char>, separator: char)
    ensures
        contains(header_text(name, separator), CACHED_OPEN@) <==> contains(name, CACHED_OPEN@),
{
    reveal_strlit("<<<");
    reveal_strlit("mssql_");
    reveal_strlit(":sep(");
    reveal_strlit(")>>>\n");
    reveal_strlit(":cached(");
    let mark = CACHED_OPEN@;
    let digits = decimal(separator as nat);
    let front = HEADER_OPEN@ + PREFIX@;
    let back = SEPARATOR_OPEN@ + digits + HEADER_CLOSE@;
    let line = header_text(name, separator);
    lemma_decimal_has_no_colon(separator as nat);
    assert(line =~= front + name + back);
    assert(front.len() == 9);
    assert(mark.len() == 8);
    assert(forall|k: int| 0 <= k < 9 ==> front[k] != ':');
    assert(forall|k: int| 1 <= k < back.len() ==> back[k] != ':');
    assert(back[1] == 's');
    if contains(name, mark) {
        let j = choose|j: int| occurs_at(name, mark, j);
        assert(line.subrange(j + 9, j + 9 + 8) =~= name.subrange(j, j + 8));
        assert(occurs_at(line, mark, j + 9));
    }
    if contains(line, mark) {
        let i = choose|i: int| occurs_at(line, mark, i);
        let found = line.subrange(i, i + 8);
        assert(found == mark);
        assert(forall|k: int| 0 <= k < 8 ==> line[i + k] == #[trigger] found[k]);
        assert(found[0] == ':');
        assert(found[1] == 'c');
        assert(line[i] == ':');
        let end: int = 9 + name.len() as int;
        if i < 9 {
            assert(line[i] == front[i]);
            assert(false);
        } else if i + 8 <= end {
            assert(name.subrange(i - 9, i - 9 + 8) =~= found);
            assert(occurs_at(name, mark, i - 9));
        } else if i < end {
            let k = end - i;
            assert(1 <= k < 8);
            assert(line[i + k] == found[k]);
            assert(line[end] == back[0]);
            assert(found[k] != ':');
            assert(false);
        } else {
            assert(line[i] == back[i - end]);
            assert(i == end);
            assert(line[i + 1] == found[1]);
            assert(line[i + 1] == back[1]);
            assert(false);
        }
    }
}

/// The plain header holds the mark that opens the word on caching exactly if
/// the section's name itself holds it: a name without the mark gives a plain
/// header without it, cached or not.
pub proof fn lemma_plain_header_mark(section: SectionView)
    ensures
        contains(plain_header_text(section), CACHED_OPEN@) <==> contains(
            section.name,
            CACHED_OPEN@,
        ),
{
    lemma_header_holds_mark_of_name(section.name, section.sep);
}

/// The work header holds the mark that opens the word on caching exactly if
/// the section has a cache age or its name itself holds the mark. So for a
/// name without the mark, the work header tells of caching exactly if the
/// section is cached.
pub proof fn lemma_work_header_mark(section: SectionView, now: u64)
    ensures
        contains(work_header_text(section, now), CACHED_OPEN@) <==> (section.cache_age is Some
            || contains(section.name, CACHED_OPEN@)),
{
    let mark = CACHED_OPEN@;
    let written = section.name + cached_text(section.cache_age, now);
    lemma_header_holds_mark_of_name(written, section.sep);
    match section.cache_age {
        Some(age) => {
            let rest = decimal(now as nat) + CACHED_COMMA@ + decimal(age as nat) + CACHED_CLOSE@;
            let at = section.name.len() as int;
            assert(written =~= section.name + mark + rest);
            assert(written.subrange(at, at + mark.len()) =~= mark);
            assert(occurs_at(written, mark, at));
        },
        None => {
            assert(written =~= section.name);
        },
    }
}

/// A section is asynchronous exactly if it has a cache age.
pub proof fn lemma_async_iff_cached(section: SectionView)
    ensures
        kind_of(section) == SectionKind::Async <==> section.cache_age is Some,
{
}

/// A section without a cache age is synchronous and reports the age zero.
pub proof fn lemma_uncached_is_sync(section: SectionView)
    requires
        section.cache_age is None,
    ensures
        kind_of(section) == SectionKind::Sync,
        reported_cache_age(section) == 0,
{
}

/// A section made from a configuration that declares it asynchronous is
/// asynchronous and reports the cache age it was made with.
pub proof fn lemma_async_configuration_keeps_cache_age(
    config: crate::config::section::SectionView,
    cache_age: u32,
)
    requires
        config.kind == crate::config::section::SectionKind::Async,
    ensures
        kind_of(section_of(config, cache_age)) == SectionKind::Async,
        reported_cache_age(section_of(config, cache_age)) == cache_age,
{
}

/// A section made from a configuration that declares it synchronous is
/// synchronous, whatever cache age it was made with.
pub proof fn lemma_sync_configuration_drops_cache_age(
    config: crate::config::section::SectionView,
    cache_age: u32,
)
    requires
        config.kind == crate::config::section::SectionKind::Sync,
    ensures
        section_of(config, cache_age).cache_age is None,
        kind_of(section_of(config, cache_age)) == SectionKind::Sync,
        reported_cache_age(section_of(config, cache_age)) == 0,
{
}

/// What is known of the thirteen names once their texts are revealed: enough
/// to tell any two of them apart.
proof fn lemma_names_revealed()
    ensures
        registry().len() == 13,
        forall|i: int, j: int|
            0 <= i < j < 13 ==> (#[trigger] registry()[i]).0 != (#[trigger] registry()[j]).0,
{
    reveal_strlit("instance");
    reveal_strlit("counters");
    reveal_strlit("backup");
    reveal_strlit("blocked_sessions");
    reveal_strlit("databases");
    reveal_strlit("connections");
    reveal_strlit("transactionlogs");
    reveal_strlit("datafiles");
    reveal_strlit("tablespaces");
    reveal_strlit("clusters");
    reveal_strlit("jobs");
    reveal_strlit("mirroring");
    reveal_strlit("availability_groups");
    let r = registry();
    assert(r[0].0.len() == 8 && r[0].0[0] == 'i');
    assert(r[1].0.len() == 8 && r[1].0[1] == 'o');
    assert(r[2].0.len() == 6);
    assert(r[3].0.len() == 16);
    assert(r[4].0.len() == 9 && r[4].0[4] == 'b');
    assert(r[5].0.len() == 11 && r[5].0[0] == 'c');
    assert(r[6].0.len() == 15);
    assert(r[7].0.len() == 9 && r[7].0[4] == 'f');
    assert(r[8].0.len() == 11 && r[8].0[0] == 't');
    assert(r[9].0.len() == 8 && r[9].0[0] == 'c' && r[9].0[1] == 'l');
    assert(r[10].0.len() == 4);
    assert(r[11].0.len() == 9 && r[11].0[4] == 'o');
    assert(r[12].0.len() == 19);
}

/// No name stands twice in the registry.
pub proof fn lemma_registry_names_differ(i: int, j: int)
    requires
        0 <= i < j < registry().len(),
    ensures
        registry()[i].0 != registry()[j].0,
{
    lemma_names_revealed();
}

/// Looking up the name of an entry of the registry gives the id of that
/// entry.
pub proof fn lemma_registry_lookup(i: int)
    requires
        0 <= i < registry().len(),
    ensures
        sql_id_of(registry()[i].0) == Some(registry()[i].1),
{
    lemma_names_revealed();
    let r = registry();
    assert(forall|j: int| 0 <= j < i ==> (#[trigger] r[j]).0 != r[i].0);
    assert(r[0].0 != r[i].0 || i == 0);
    assert(r[1].0 != r[i].0 || i <= 1);
    assert(r[2].0 != r[i].0 || i <= 2);
    assert(r[3].0 != r[i].0 || i <= 3);
    assert(r[4].0 != r[i].0 || i <= 4);
    assert(r[5].0 != r[i].0 || i <= 5);
    assert(r[6].0 != r[i].0 || i <= 6);
    assert(r[7].0 != r[i].0 || i <= 7);
    assert(r[8].0 != r[i].0 || i <= 8);
    assert(r[9].0 != r[i].0 || i <= 9);
    assert(r[10].0 != r[i].0 || i <= 10);
    assert(r[11].0 != r[i].0 || i <= 11);
}

/// A name has a query id exactly if it stands in the registry.
pub proof fn lemma_registered_iff_known(name: Seq<char>)
    ensures
        sql_id_of(name) is Some <==> is_registered(name),
{
    let r = registry();
    if sql_id_of(name) is Some {
        let i: int = if name == r[0].0 {
            0
        } else if name == r[1].0 {
            1
        } else if name == r[2].0 {
            2
        } else if name == r[3].0 {
            3
        } else if name == r[4].0 {
            4
        } else if name == r[5].0 {
            5
        } else if name == r[6].0 {
            6
        } else if name == r[7].0 {
            7
        } else if name == r[8].0 {
            8
        } else if name == r[9].0 {
            9
        } else if name == r[10].0 {
            10
        } else if name == r[11].0 {
            11
        } else {
            12
        };
        assert(0 <= i < r.len() && r[i].0 == name);
    }
    if is_registered(name) {
        let i = choose|i: int| 0 <= i < registry().len() && (#[trigger] registry()[i]).0 == name;
        lemma_registry_lookup(i);
    }
}

/// With no text of the user's, the section of a registered name runs the
/// built-in query of the id registered for that name.
pub proof fn lemma_registered_section_runs_built_in_query(i: int)
    requires
        0 <= i < registry().len(),
    ensures
        selected_query(registry()[i].0, None) == Some(sqls::query_text(registry()[i].1)),
{
    lemma_registry_lookup(i);
    lemma_names_revealed();
    if i != 0 {
        assert(registry()[0].0 != registry()[i].0);
    }
}

/// With no text of the user's, a section whose name is not registered has no
/// query.
pub proof fn lemma_unregistered_section_has_no_query(name: Seq<char>)
    requires
        !is_registered(name),
    ensures
        selected_query(name, None) is None,
{
    lemma_registered_iff_known(name);
    assert(registry()[0].0 != name);
}

/// Two answers to the same question about a section's query are the same
/// text: the query is a function of the section's name and of the user's
/// text alone.
pub proof fn lemma_select_query_repeats(
    name: Seq<char>,
    provided: Option<Seq<char>>,
    first: Option<String>,
    second: Option<String>,
)
    requires
        opt_text(first) == selected_query(name, provided),
        opt_text(second) == selected_query(name, provided),
    ensures
        opt_text(first) == opt_text(second),
{
}

/// Two verdicts on the same rows of the same section are the same: the
/// verdict is a function of the section's name and of the rows alone.
pub proof fn lemma_validate_rows_repeats(
    name: Seq<char>,
    rows: Vec<Vec<tiberius::Row>>,
    first: Result<Vec<Vec<tiberius::Row>>, Error>,
    second: Result<Vec<Vec<tiberius::Row>>, Error>,
)
    requires
        first == validated_rows(name, rows),
        second == validated_rows(name, rows),
    ensures
        first == second,
{
}

/// Rows without a first group, or with an empty one, are accepted exactly
/// for the sections that may be empty; they are then handed back as they are.
pub proof fn lemma_empty_rows(name: Seq<char>, rows: Vec<Vec<tiberius::Row>>)
    requires
        rows@.len() == 0 || rows@[0]@.len() == 0,
    ensures
        may_be_empty(name) ==> validated_rows(name, rows) == Ok::<Vec<Vec<tiberius::Row>>, Error>(
            rows,
        ),
        !may_be_empty(name) ==> validated_rows(name, rows) == Err::<
            Vec<Vec<tiberius::Row>>,
            Error,
        >(Error::EmptyResult),
{
}

} // verus!
