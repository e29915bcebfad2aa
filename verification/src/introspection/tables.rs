//! Telling the tables that stand for models from the tables that serve the
//! tools themselves.

use crate::seqs::{any, lemma_position_is, lemma_position_none};
use crate::sql_schema::{ForeignKey, ForeignKeyView, Index, IndexType, IndexView, Table, TableView};
use crate::text::{lex_lt, starts_with, str_eq, str_lt};
use vstd::prelude::*;
use vstd::string::*;

verus! {

/// The name of the table of the earlier kind of migrations.
pub open spec fn old_migration_table() -> Seq<char> {
    "_Migration"@
}

/// The name of the table of the later kind of migrations.
pub open spec fn new_migration_table() -> Seq<char> {
    "_prisma_migrations"@
}

/// Whether the table records migrations.
pub open spec fn migration_table(t: TableView) -> bool {
    t.name == old_migration_table() || t.name == new_migration_table()
}

/// Whether the table records migrations.
pub fn is_migration_table(table: &Table) -> (r: bool)
    ensures
        r == migration_table(table.deep_view()),
{
    str_eq(table.name.as_str(), "_Migration") || str_eq(table.name.as_str(), "_prisma_migrations")
}

/// Whether the name is that of the first column of a join table.
pub open spec fn column_a(name: Seq<char>) -> bool {
    name == "a"@ || name == "A"@
}

/// Whether the name is that of the second column of a join table.
pub open spec fn column_b(name: Seq<char>) -> bool {
    name == "b"@ || name == "B"@
}

pub fn is_a(name: &str) -> (r: bool)
    ensures
        r == column_a(name@),
{
    str_eq(name, "a") || str_eq(name, "A")
}

pub fn is_b(name: &str) -> (r: bool)
    ensures
        r == column_b(name@),
{
    str_eq(name, "b") || str_eq(name, "B")
}

/// The unique indexes over the two columns of a join table.
pub open spec fn index_on_a_b() -> spec_fn(IndexView) -> bool {
    |i: IndexView|
        i.columns.len() == 2 && column_a(i.columns[0]) && column_b(i.columns[1]) && i.tpe
            == IndexType::Unique
}

/// The plain indexes over the second column of a join table.
pub open spec fn index_on_b() -> spec_fn(IndexView) -> bool {
    |i: IndexView| i.columns.len() == 1 && column_b(i.columns[0]) && i.tpe == IndexType::Normal
}

/// Whether the two foreign keys are those of a join table: each constrains
/// one of the two columns, and the table whose name comes first is the one
/// that the first column points to.
pub open spec fn join_keys(f: ForeignKeyView, s: ForeignKeyView) -> bool {
    f.columns.len() > 0 && s.columns.len() > 0 && if column_a(f.columns[0]) {
        column_b(s.columns[0]) && !lex_lt(s.referenced_table, f.referenced_table)
    } else {
        column_b(f.columns[0]) && column_a(s.columns[0]) && !lex_lt(
            f.referenced_table,
            s.referenced_table,
        )
    }
}

/// What all join tables have in common: a name that starts with an
/// underscore, a unique index over both columns, a plain index over the
/// second, and two foreign keys.
pub open spec fn join_table_shape(t: TableView) -> bool {
    "_"@.is_prefix_of(t.name) && any(t.indices, index_on_a_b()) && any(t.indices, index_on_b())
        && t.foreign_keys.len() == 2 && join_keys(t.foreign_keys[0], t.foreign_keys[1])
}

/// Whether the table is a join table of the later legacy generations.
pub open spec fn later_join_table(t: TableView) -> bool {
    t.columns.len() == 2 && t.indices.len() >= 2 && join_table_shape(t)
}

/// The columns named `id`.
pub open spec fn is_id_column() -> spec_fn(crate::sql_schema::ColumnView) -> bool {
    |c: crate::sql_schema::ColumnView| c.name == "id"@
}

/// Whether the table is a join table of the first legacy generation.
pub open spec fn first_join_table(t: TableView) -> bool {
    t.columns.len() == 3 && t.indices.len() >= 2 && any(t.columns, is_id_column())
        && join_table_shape(t)
}

/// Whether the table is a join table.
pub open spec fn join_table(t: TableView) -> bool {
    later_join_table(t) || first_join_table(t)
}

/// Whether the table holds the identifiers of the first legacy generation.
pub open spec fn relay_table(t: TableView) -> bool {
    t.name == "_RelayId"@ && t.columns.len() >= 2 && t.columns[0].name == "id"@
        && t.columns[1].name == "stableModelIdentifier"@
}

/// Whether the table stands for a model.
pub open spec fn model_table(t: TableView) -> bool {
    !migration_table(t) && !join_table(t) && !relay_table(t)
}

#[verifier::loop_isolation(false)]
fn has_index_on_a_b(table: &Table) -> (r: bool)
    ensures
        r == any(table.deep_view().indices, index_on_a_b()),
{
    let ghost p = index_on_a_b();
    let mut i: usize = 0;
    while i < table.indices.len()
        invariant
            i <= table.indices.len(),
            forall|j: int| 0 <= j < i ==> !p(#[trigger] table.deep_view().indices[j]),
        decreases table.indices.len() - i,
    {
        let index: &Index = &table.indices[i];
        proof {
            let iv = table.deep_view().indices[i as int];
            assert(iv == index.deep_view());
            if index.columns.len() == 2 {
                assert(iv.columns[0] == index.columns[0]@);
                assert(iv.columns[1] == index.columns[1]@);
            }
        }
        if index.columns.len() == 2 && is_a(index.columns[0].as_str()) && is_b(
            index.columns[1].as_str(),
        ) && index.tpe.is_unique() {
            proof {
                lemma_position_is(table.deep_view().indices, p, i as int);
            }
            return true;
        }
        i = i + 1;
    }
    proof {
        lemma_position_none(table.deep_view().indices, p);
    }
    false
}

#[verifier::loop_isolation(false)]
fn has_index_on_b(table: &Table) -> (r: bool)
    ensures
        r == any(table.deep_view().indices, index_on_b()),
{
    let ghost p = index_on_b();
    let mut i: usize = 0;
    while i < table.indices.len()
        invariant
            i <= table.indices.len(),
            forall|j: int| 0 <= j < i ==> !p(#[trigger] table.deep_view().indices[j]),
        decreases table.indices.len() - i,
    {
        let index: &Index = &table.indices[i];
        proof {
            let iv = table.deep_view().indices[i as int];
            assert(iv == index.deep_view());
            if index.columns.len() == 1 {
                assert(iv.columns[0] == index.columns[0]@);
            }
        }
        if index.columns.len() == 1 && is_b(index.columns[0].as_str()) && !index.tpe.is_unique() {
            proof {
                lemma_position_is(table.deep_view().indices, p, i as int);
            }
            return true;
        }
        i = i + 1;
    }
    proof {
        lemma_position_none(table.deep_view().indices, p);
    }
    false
}

fn are_join_keys(f: &ForeignKey, s: &ForeignKey) -> (r: bool)
    ensures
        r == join_keys(f.deep_view(), s.deep_view()),
{
    if f.columns.len() == 0 || s.columns.len() == 0 {
        return false;
    }
    assert(f.deep_view().columns[0] == f.columns[0]@);
    assert(s.deep_view().columns[0] == s.columns[0]@);
    if is_a(f.columns[0].as_str()) {
        is_b(s.columns[0].as_str()) && !str_lt(
            s.referenced_table.as_str(),
            f.referenced_table.as_str(),
        )
    } else {
        is_b(f.columns[0].as_str()) && is_a(s.columns[0].as_str()) && !str_lt(
            f.referenced_table.as_str(),
            s.referenced_table.as_str(),
        )
    }
}

fn has_join_table_shape(table: &Table) -> (r: bool)
    ensures
        r == join_table_shape(table.deep_view()),
{
    starts_with(table.name.as_str(), "_") && has_index_on_a_b(table) && has_index_on_b(table)
        && table.foreign_keys.len() == 2 && are_join_keys(
        &table.foreign_keys[0],
        &table.foreign_keys[1],
    )
}

/// Whether the table is a join table of the later legacy generations.
pub fn is_prisma_1_point_1_or_2_join_table(table: &Table) -> (r: bool)
    ensures
        r == later_join_table(table.deep_view()),
{
    table.columns.len() == 2 && table.indices.len() >= 2 && has_join_table_shape(table)
}

/// Whether the table is a join table of the first legacy generation.
#[verifier::loop_isolation(false)]
pub fn is_prisma_1_point_0_join_table(table: &Table) -> (r: bool)
    ensures
        r == first_join_table(table.deep_view()),
{
    if !(table.columns.len() == 3 && table.indices.len() >= 2) {
        return false;
    }
    let ghost p = is_id_column();
    let mut found: bool = false;
    let mut i: usize = 0;
    while i < table.columns.len() && !found
        invariant
            i <= table.columns.len(),
            !found ==> forall|j: int| 0 <= j < i ==> !p(#[trigger] table.deep_view().columns[j]),
            found ==> any(table.deep_view().columns, p),
        decreases table.columns.len() - i + if found { 0int } else { 1int },
    {
        if str_eq(table.columns[i].name.as_str(), "id") {
            proof {
                lemma_position_is(table.deep_view().columns, p, i as int);
            }
            found = true;
        } else {
            i = i + 1;
        }
    }
    proof {
        if !found {
            lemma_position_none(table.deep_view().columns, p);
        }
    }
    found && has_join_table_shape(table)
}

/// Whether the table is a join table.
pub fn is_join_table(table: &Table) -> (r: bool)
    ensures
        r == join_table(table.deep_view()),
{
    is_prisma_1_point_1_or_2_join_table(table) || is_prisma_1_point_0_join_table(table)
}

/// Whether the table holds the identifiers of the first legacy generation.
pub fn is_relay_table(table: &Table) -> (r: bool)
    ensures
        r == relay_table(table.deep_view()),
{
    str_eq(table.name.as_str(), "_RelayId") && table.columns.len() >= 2 && str_eq(
        table.columns[0].name.as_str(),
        "id",
    ) && str_eq(table.columns[1].name.as_str(), "stableModelIdentifier")
}

/// Whether the table stands for a model.
pub fn is_model_table(table: &Table) -> (r: bool)
    ensures
        r == model_table(table.deep_view()),
{
    !is_migration_table(table) && !is_join_table(table) && !is_relay_table(table)
}

} // verus!
