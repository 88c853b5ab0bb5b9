//! The tables that statements can name.
//!
//! A catalog files each table under a key, which whoever owns the catalog makes
//! of the table's name.
use datafusion::common::DataFusionError;
use vstd::prelude::*;

use crate::error::{ErrorView, PlanError};
use crate::schema::DFField;
use crate::table::{Table, insert_schema_error};
use crate::text::is_text;

verus! {

/// One table of a [`TableCatalog`].
#[derive(Debug)]
struct CatalogEntry {
    key: String,
    table: Table,
}

/// Tables by their keys. A later table shadows an earlier one with the same key.
#[derive(Debug)]
pub struct TableCatalog {
    entries: Vec<CatalogEntry>,
}

/// The table under the key: the last one.
spec fn last_table(entries: Seq<CatalogEntry>, key: Seq<char>) -> Option<Table>
    decreases entries.len(),
{
    if entries.len() == 0 {
        None
    } else if entries.last().key@ == key {
        Some(entries.last().table)
    } else {
        last_table(entries.drop_last(), key)
    }
}

/// Whether the entry at `i` is the last one with the key.
spec fn is_last(entries: Seq<CatalogEntry>, key: Seq<char>, i: int) -> bool {
    &&& 0 <= i < entries.len()
    &&& entries[i].key@ == key
    &&& forall|j: int| i < j < entries.len() ==> (#[trigger] entries[j]).key@ != key
}

proof fn lemma_is_last(entries: Seq<CatalogEntry>, key: Seq<char>, i: int)
    requires
        is_last(entries, key, i),
    ensures
        last_table(entries, key) == Some(entries[i].table),
    decreases entries.len(),
{
    if i < entries.len() - 1 {
        assert(entries[entries.len() - 1].key@ != key);
        assert forall|j: int| i < j < entries.drop_last().len() implies (
        #[trigger] entries.drop_last()[j]).key@ != key by {
            assert(entries[j].key@ != key);
        }
        lemma_is_last(entries.drop_last(), key, i);
    }
}

proof fn lemma_no_key(entries: Seq<CatalogEntry>, key: Seq<char>)
    requires
        forall|j: int| 0 <= j < entries.len() ==> (#[trigger] entries[j]).key@ != key,
    ensures
        last_table(entries, key) is None,
    decreases entries.len(),
{
    if entries.len() > 0 {
        assert(entries[entries.len() - 1].key@ != key);
        assert forall|j: int| 0 <= j < entries.drop_last().len() implies (
        #[trigger] entries.drop_last()[j]).key@ != key by {
            assert(entries[j].key@ != key);
        }
        lemma_no_key(entries.drop_last(), key);
    }
}

/// Another table in one entry changes nothing under the other keys.
proof fn lemma_other_keys(
    before: Seq<CatalogEntry>,
    after: Seq<CatalogEntry>,
    i: int,
    key: Seq<char>,
)
    requires
        before.len() == after.len(),
        0 <= i < before.len(),
        before[i].key@ != key,
        after[i].key == before[i].key,
        forall|j: int| 0 <= j < before.len() && j != i ==> before[j] == #[trigger] after[j],
    ensures
        last_table(after, key) == last_table(before, key),
    decreases before.len(),
{
    if i < before.len() - 1 {
        assert(before[before.len() - 1] == after[before.len() - 1]);
        assert forall|j: int| 0 <= j < before.drop_last().len() && j != i implies
            before.drop_last()[j] == #[trigger] after.drop_last()[j] by {
            assert(before[j] == after[j]);
        }
        lemma_other_keys(before.drop_last(), after.drop_last(), i, key);
    } else {
        assert forall|j: int| 0 <= j < before.drop_last().len() implies before.drop_last()[j]
            == after.drop_last()[j] by {
            assert(before[j] == after[j]);
        }
        assert(before.drop_last() =~= after.drop_last());
    }
}

/// Whether both are missing, or both are the same table.
pub open spec fn same_entry(a: Option<Table>, b: Option<Table>) -> bool {
    match (a, b) {
        (Some(a), Some(b)) => a.says_same(b),
        (None, None) => true,
        _ => false,
    }
}

/// Copies with the same keys and tables give the same table under each key.
proof fn lemma_copied(copies: Seq<CatalogEntry>, entries: Seq<CatalogEntry>, key: Seq<char>)
    requires
        copies.len() == entries.len(),
        forall|j: int|
            0 <= j < copies.len() ==> (#[trigger] copies[j]).key@ == entries[j].key@
                && copies[j].table.says_same(entries[j].table),
    ensures
        same_entry(last_table(copies, key), last_table(entries, key)),
    decreases copies.len(),
{
    if copies.len() > 0 {
        assert(copies[copies.len() - 1].key@ == entries[copies.len() - 1].key@);
        assert forall|j: int| 0 <= j < copies.drop_last().len() implies (
        #[trigger] copies.drop_last()[j]).key@ == entries.drop_last()[j].key@
            && copies.drop_last()[j].table.says_same(entries.drop_last()[j].table) by {
            assert(copies[j].key@ == entries[j].key@);
        }
        lemma_copied(copies.drop_last(), entries.drop_last(), key);
    }
}

impl TableCatalog {
    /// The table under the key.
    pub closed spec fn table(self, key: Seq<char>) -> Option<Table> {
        last_table(self.entries@, key)
    }

    /// Whether the two catalogs have the same table under each key.
    pub open spec fn same_tables(self, other: TableCatalog) -> bool {
        forall|key: Seq<char>| #[trigger] same_entry(self.table(key), other.table(key))
    }

    /// Whether the two catalogs have the same table under each key but one.
    pub open spec fn same_tables_but(self, other: TableCatalog, but: Seq<char>) -> bool {
        forall|key: Seq<char>|
            key != but ==> #[trigger] same_entry(self.table(key), other.table(key))
    }

    /// A catalog without tables.
    pub fn new() -> (catalog: TableCatalog)
        ensures
            forall|key: Seq<char>| (#[trigger] catalog.table(key)) is None,
    {
        TableCatalog { entries: Vec::new() }
    }

    /// Files a table under the key. It shadows an earlier one with the same key.
    pub fn insert_table(&mut self, key: String, table: Table)
        ensures
            final(self).table(key@) == Some(table),
            forall|k: Seq<char>|
                k != key@ ==> #[trigger] final(self).table(k) == old(self).table(k),
    {
        let ghost before = self.entries@;
        self.entries.push(CatalogEntry { key, table });
        proof {
            assert(self.entries@.drop_last() =~= before);
        }
    }

    fn position(&self, key: &String) -> (found: Option<usize>)
        ensures
            match found {
                Some(i) => is_last(self.entries@, key@, i as int),
                None => forall|j: int|
                    0 <= j < self.entries@.len() ==> (#[trigger] self.entries@[j]).key@ != key@,
            },
    {
        let mut i: usize = self.entries.len();
        while i > 0
            invariant
                i <= self.entries@.len(),
                forall|j: int|
                    i <= j < self.entries@.len() ==> (#[trigger] self.entries@[j]).key@ != key@,
            decreases i,
        {
            i = i - 1;
            if is_text(&self.entries[i].key, key.as_str()) {
                return Some(i);
            }
        }
        None
    }

    /// The table under the key.
    pub fn get_table(&self, key: &String) -> (table: Option<&Table>)
        ensures
            match table {
                Some(table) => self.table(key@) == Some(*table),
                None => self.table(key@) is None,
            },
    {
        match self.position(key) {
            Some(i) => {
                proof {
                    lemma_is_last(self.entries@, key@, i as int);
                }
                Some(&self.entries[i].table)
            },
            None => {
                proof {
                    lemma_no_key(self.entries@, key@);
                }
                None
            },
        }
    }
}

impl Clone for TableCatalog {
    fn clone(&self) -> (copy: TableCatalog)
        ensures
            copy.same_tables(*self),
    {
        let mut entries: Vec<CatalogEntry> = Vec::new();
        for i in 0..self.entries.len()
            invariant
                entries@.len() == i,
                forall|j: int|
                    0 <= j < i ==> (#[trigger] entries@[j]).key@ == self.entries@[j].key@
                        && entries@[j].table.says_same(self.entries@[j].table),
        {
            entries.push(
                CatalogEntry {
                    key: self.entries[i].key.clone(),
                    table: self.entries[i].table.clone(),
                },
            );
        }
        let copy = TableCatalog { entries };
        proof {
            assert forall|key: Seq<char>| #[trigger] same_entry(
                copy.table(key),
                self.table(key),
            ) by {
                lemma_copied(copy.entries@, self.entries@, key);
            }
        }
        copy
    }
}

/// What keeps the columns of a table from being taken from an insert, given the
/// table and the output of the planned query.
pub open spec fn inference_error(
    table: Option<Table>,
    table_name: Seq<char>,
    output: Result<Vec<DFField>, DataFusionError>,
) -> Option<ErrorView> {
    match output {
        Err(e) => Some(ErrorView::Engine(e)),
        Ok(fields) => match table {
            None => Some(ErrorView::Plan("table "@ + table_name + " not found"@)),
            Some(table) => if table.contradicts(fields@) {
                Some(insert_schema_error())
            } else {
                None
            },
        },
    }
}

/// Takes the columns of the table that is inserted into from the output of the
/// planned query. The table with the name is filed under the key. An error
/// changes no table, and success no other one.
pub fn infer_sink_schema(
    catalog: &mut TableCatalog,
    key: &String,
    table_name: &String,
    output: Result<Vec<DFField>, DataFusionError>,
) -> (done: Result<(), PlanError>)
    ensures
        ({
            let error = inference_error(old(catalog).table(key@), table_name@, output);
            match done {
                Ok(()) => {
                    &&& error is None
                    &&& final(catalog).table(key@) == Some(
                        old(catalog).table(key@)->0.with_inferred_fields(output->Ok_0),
                    )
                    &&& forall|k: Seq<char>|
                        k != key@ ==> #[trigger] final(catalog).table(k) == old(catalog).table(k)
                },
                Err(e) => {
                    &&& error == Some(e.view())
                    &&& forall|k: Seq<char>|
                        #[trigger] final(catalog).table(k) == old(catalog).table(k)
                },
            }
        }),
{
    let fields = match output {
        Ok(fields) => fields,
        Err(e) => {
            return Err(PlanError::Engine(e));
        },
    };
    let ghost before = catalog.entries@;
    match catalog.position(key) {
        Some(i) => {
            proof {
                lemma_is_last(before, key@, i as int);
            }
            let done = catalog.entries[i].table.set_inferred_fields(fields);
            proof {
                let after = catalog.entries@;
                assert(after[i as int].key == before[i as int].key);
                assert forall|j: int| i < j < after.len() implies (#[trigger] after[j]).key@
                    != key@ by {
                    assert(before[j].key@ != key@);
                }
                lemma_is_last(after, key@, i as int);
                assert forall|k: Seq<char>| k != key@ implies #[trigger] catalog.table(k)
                    == last_table(before, k) by {
                    lemma_other_keys(before, after, i as int, k);
                }
            }
            done
        },
        None => {
            proof {
                lemma_no_key(before, key@);
            }
            Err(PlanError::plan_around("table ", table_name.as_str(), " not found"))
        },
    }
}

} // verus!
