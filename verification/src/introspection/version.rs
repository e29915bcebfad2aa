//! Telling which generation of tools made a database, by the marks that
//! each generation leaves.

use crate::dml::Datamodel;
use crate::introspection::tables::{
    first_join_table, is_model_table, is_prisma_1_point_0_join_table,
    is_prisma_1_point_1_or_2_join_table, is_relay_table, later_join_table, model_table,
    relay_table,
};
use crate::introspection::{SqlFamily, Version, Warning};
use crate::seqs::{any, lemma_position_is, lemma_position_none};
use crate::sql_schema::{
    Column, ColumnTypeFamily, ColumnView, ForeignKey, ForeignKeyAction, ForeignKeyView, SqlSchema,
    SqlSchemaView, Table, TableView,
};
use crate::text::str_eq;
use vstd::prelude::*;
use vstd::string::*;

verus! {

/// Whether the earlier generations wrote columns of this data type and
/// full data type on databases of the family.
pub open spec fn known_type(family: SqlFamily, data_type: Seq<char>, full: Seq<char>) -> bool {
    match family {
        SqlFamily::Sqlite => (data_type == "BOOLEAN"@ && full == "BOOLEAN"@) || (data_type
            == "DATE"@ && full == "DATE"@) || (data_type == "REAL"@ && full == "REAL"@) || (data_type
            == "INTEGER"@ && full == "INTEGER"@) || (data_type == "TEXT"@ && full == "TEXT"@),
        SqlFamily::Postgres => (data_type == "boolean"@ && full == "bool"@) || (data_type
            == "timestamp without time zone"@ && full == "timestamp"@) || (data_type == "numeric"@
            && full == "numeric"@) || (data_type == "integer"@ && full == "int4"@) || (data_type
            == "text"@ && full == "text"@) || (data_type == "character varying"@ && full
            == "varchar"@),
        SqlFamily::Mysql => (data_type == "tinyint"@ && full == "tinyint(1)"@) || (data_type
            == "datetime"@ && full == "datetime(3)"@) || (data_type == "decimal"@ && full
            == "decimal(65,30)"@) || (data_type == "int"@ && (full == "int"@ || full == "int(11)"@))
            || (data_type == "varchar"@ && (full == "varchar(191)"@ || full == "varchar(25)"@
            || full == "varchar(36)"@)) || (data_type == "char"@ && (full == "char(25)"@ || full
            == "char(36)"@)) || (data_type == "text"@ && full == "text"@) || (data_type
            == "mediumtext"@ && full == "mediumtext"@),
        SqlFamily::Mssql => false,
    }
}

/// The columns of a type that the earlier generations did not write.
pub open spec fn foreign_type(family: SqlFamily) -> spec_fn(ColumnView) -> bool {
    |c: ColumnView| !known_type(family, c.tpe.data_type, c.tpe.full_data_type)
}

/// The foreign keys that do more on a deletion than the earlier
/// generations asked for.
pub open spec fn acts_on_delete() -> spec_fn(ForeignKeyView) -> bool {
    |fk: ForeignKeyView|
        fk.on_delete_action != ForeignKeyAction::NoAction && fk.on_delete_action
            != ForeignKeyAction::SetNull
}

/// The columns of the given name that hold a point in time.
pub open spec fn time_column(name: Seq<char>) -> spec_fn(ColumnView) -> bool {
    |c: ColumnView| c.name == name && c.tpe.family is DateTime
}

/// Whether the primary key of the table is one column of text of the given length.
pub open spec fn text_key_of(t: TableView, length: u32) -> bool {
    match t.primary_key {
        Some(pk) => pk.columns.len() == 1 && match t.column(pk.columns[0]) {
            Some(c) => c.tpe.family is String && c.tpe.character_maximum_length == Some(length),
            None => false,
        },
        None => false,
    }
}

/// Whether the primary key of the table is one column of integers.
pub open spec fn integer_key(t: TableView) -> bool {
    match t.primary_key {
        Some(pk) => pk.columns.len() == 1 && match t.column(pk.columns[0]) {
            Some(c) => c.tpe.family is Int,
            None => false,
        },
        None => false,
    }
}

/// The tables named `_Migration`.
pub open spec fn is_old_migration_table() -> spec_fn(TableView) -> bool {
    |t: TableView| t.name == "_Migration"@
}

pub open spec fn is_relay() -> spec_fn(TableView) -> bool {
    |t: TableView| relay_table(t)
}

pub open spec fn is_first_join() -> spec_fn(TableView) -> bool {
    |t: TableView| first_join_table(t)
}

pub open spec fn is_later_join() -> spec_fn(TableView) -> bool {
    |t: TableView| later_join_table(t)
}

/// The tables of models with a foreign key that acts on a deletion.
pub open spec fn table_acts_on_delete() -> spec_fn(TableView) -> bool {
    |t: TableView| model_table(t) && any(t.foreign_keys, acts_on_delete())
}

/// The tables of models with a column of a foreign type.
pub open spec fn table_of_foreign_type(family: SqlFamily) -> spec_fn(TableView) -> bool {
    |t: TableView| model_table(t) && any(t.columns, foreign_type(family))
}

/// The tables of models that do not record when a record was made and changed.
pub open spec fn lacks_times() -> spec_fn(TableView) -> bool {
    |t: TableView|
        model_table(t) && !(any(t.columns, time_column("createdAt"@)) && any(
            t.columns,
            time_column("updatedAt"@),
        ))
}

/// The tables of models whose key the first generation would not have made.
pub open spec fn lacks_first_key() -> spec_fn(TableView) -> bool {
    |t: TableView| model_table(t) && !text_key_of(t, 25)
}

/// The tables of models whose key neither legacy generation would have made.
pub open spec fn lacks_legacy_key() -> spec_fn(TableView) -> bool {
    |t: TableView| model_table(t) && !(text_key_of(t, 25) || text_key_of(t, 36) || integer_key(t))
}

/// The tables of models that hold a foreign key.
pub open spec fn holds_relation() -> spec_fn(TableView) -> bool {
    |t: TableView| model_table(t) && t.foreign_keys.len() > 0
}

/// The marks that the generations of tools leave on a schema.
#[derive(Debug, PartialEq, Eq, Structural, Clone, Copy)]
pub struct VersionChecker {
    pub sql_family: SqlFamily,
    pub has_migration_table: bool,
    pub has_relay_table: bool,
    pub has_prisma_1_join_table: bool,
    pub has_prisma_1_1_or_2_join_table: bool,
    pub uses_on_delete: bool,
    pub uses_non_prisma_types: bool,
    pub always_has_created_at_updated_at: bool,
    pub always_has_p1_compatible_id: bool,
    pub always_has_p1_or_p_1_1_compatible_id: bool,
    pub has_inline_relations: bool,
}

/// The marks on the given schema.
pub open spec fn marks_of(family: SqlFamily, s: SqlSchemaView) -> VersionChecker {
    VersionChecker {
        sql_family: family,
        has_migration_table: any(s.tables, is_old_migration_table()),
        has_relay_table: any(s.tables, is_relay()),
        has_prisma_1_join_table: any(s.tables, is_first_join()),
        has_prisma_1_1_or_2_join_table: any(s.tables, is_later_join()),
        uses_on_delete: any(s.tables, table_acts_on_delete()),
        uses_non_prisma_types: any(s.tables, table_of_foreign_type(family)),
        always_has_created_at_updated_at: !any(s.tables, lacks_times()),
        always_has_p1_compatible_id: !any(s.tables, lacks_first_key()),
        always_has_p1_or_p_1_1_compatible_id: !any(s.tables, lacks_legacy_key()),
        has_inline_relations: any(s.tables, holds_relation()),
    }
}

impl VersionChecker {
    /// Whether the latest generation made the schema.
    pub open spec fn is_prisma_2(self, no_warnings: bool) -> bool {
        !self.has_relay_table && !self.uses_on_delete && !self.uses_non_prisma_types
            && self.has_migration_table && no_warnings
    }

    /// Whether the first generation made the schema.
    pub open spec fn is_prisma_1(self, no_warnings: bool) -> bool {
        !self.has_migration_table && !self.uses_on_delete && !self.uses_non_prisma_types
            && self.always_has_created_at_updated_at && !self.has_prisma_1_1_or_2_join_table
            && !self.has_inline_relations && self.has_relay_table
            && self.always_has_p1_compatible_id && no_warnings
    }

    /// Whether the second generation made the schema.
    pub open spec fn is_prisma_1_1(self, no_warnings: bool) -> bool {
        !self.has_migration_table && !self.has_relay_table && !self.uses_on_delete
            && !self.uses_non_prisma_types && !self.has_prisma_1_join_table
            && self.always_has_p1_or_p_1_1_compatible_id && no_warnings
    }

    /// The generation that seems to have made the schema, given whether
    /// the data model is empty and whether there were warnings. An empty
    /// data model tells nothing; neither does a warning.
    pub open spec fn verdict(self, empty: bool, no_warnings: bool) -> Version {
        if empty {
            Version::NonPrisma
        } else {
            match self.sql_family {
                SqlFamily::Mssql => Version::NonPrisma,
                SqlFamily::Sqlite => if self.is_prisma_2(no_warnings) {
                    Version::Prisma2
                } else {
                    Version::NonPrisma
                },
                _ => if self.is_prisma_2(no_warnings) {
                    Version::Prisma2
                } else if self.is_prisma_1(no_warnings) {
                    Version::Prisma1
                } else if self.is_prisma_1_1(no_warnings) {
                    Version::Prisma11
                } else {
                    Version::NonPrisma
                },
            }
        }
    }

    /// The generation that seems to have made the schema.
    pub fn version(&self, warnings: &Vec<Warning>, data_model: &Datamodel) -> (r: Version)
        ensures
            r == self.verdict(
                data_model.models.len() == 0 && data_model.enums.len() == 0,
                warnings.len() == 0,
            ),
    {
        let no_warnings: bool = warnings.len() == 0;
        if data_model.models.len() == 0 && data_model.enums.len() == 0 {
            return Version::NonPrisma;
        }
        let p2: bool = !self.has_relay_table && !self.uses_on_delete && !self.uses_non_prisma_types
            && self.has_migration_table && no_warnings;
        let p1: bool = !self.has_migration_table && !self.uses_on_delete
            && !self.uses_non_prisma_types && self.always_has_created_at_updated_at
            && !self.has_prisma_1_1_or_2_join_table && !self.has_inline_relations
            && self.has_relay_table && self.always_has_p1_compatible_id && no_warnings;
        let p11: bool = !self.has_migration_table && !self.has_relay_table && !self.uses_on_delete
            && !self.uses_non_prisma_types && !self.has_prisma_1_join_table
            && self.always_has_p1_or_p_1_1_compatible_id && no_warnings;
        match self.sql_family {
            SqlFamily::Mssql => Version::NonPrisma,
            SqlFamily::Sqlite => if p2 {
                Version::Prisma2
            } else {
                Version::NonPrisma
            },
            _ => if p2 {
                Version::Prisma2
            } else if p1 {
                Version::Prisma1
            } else if p11 {
                Version::Prisma11
            } else {
                Version::NonPrisma
            },
        }
    }
}

fn is_known_type(family: SqlFamily, data_type: &str, full: &str) -> (r: bool)
    ensures
        r == known_type(family, data_type@, full@),
{
    match family {
        SqlFamily::Sqlite => (str_eq(data_type, "BOOLEAN") && str_eq(full, "BOOLEAN")) || (str_eq(
            data_type,
            "DATE",
        ) && str_eq(full, "DATE")) || (str_eq(data_type, "REAL") && str_eq(full, "REAL")) || (
        str_eq(data_type, "INTEGER") && str_eq(full, "INTEGER")) || (str_eq(data_type, "TEXT")
            && str_eq(full, "TEXT")),
        SqlFamily::Postgres => (str_eq(data_type, "boolean") && str_eq(full, "bool")) || (str_eq(
            data_type,
            "timestamp without time zone",
        ) && str_eq(full, "timestamp")) || (str_eq(data_type, "numeric") && str_eq(
            full,
            "numeric",
        )) || (str_eq(data_type, "integer") && str_eq(full, "int4")) || (str_eq(data_type, "text")
            && str_eq(full, "text")) || (str_eq(data_type, "character varying") && str_eq(
            full,
            "varchar",
        )),
        SqlFamily::Mysql => (str_eq(data_type, "tinyint") && str_eq(full, "tinyint(1)")) || (
        str_eq(data_type, "datetime") && str_eq(full, "datetime(3)")) || (str_eq(
            data_type,
            "decimal",
        ) && str_eq(full, "decimal(65,30)")) || (str_eq(data_type, "int") && (str_eq(full, "int")
            || str_eq(full, "int(11)"))) || (str_eq(data_type, "varchar") && (str_eq(
            full,
            "varchar(191)",
        ) || str_eq(full, "varchar(25)") || str_eq(full, "varchar(36)"))) || (str_eq(
            data_type,
            "char",
        ) && (str_eq(full, "char(25)") || str_eq(full, "char(36)"))) || (str_eq(data_type, "text")
            && str_eq(full, "text")) || (str_eq(data_type, "mediumtext") && str_eq(
            full,
            "mediumtext",
        )),
        SqlFamily::Mssql => false,
    }
}

#[verifier::loop_isolation(false)]
fn has_foreign_type(family: SqlFamily, t: &Table) -> (r: bool)
    ensures
        r == any(t.deep_view().columns, foreign_type(family)),
{
    let ghost p = foreign_type(family);
    let ghost cs = t.deep_view().columns;
    let mut i: usize = 0;
    while i < t.columns.len()
        invariant
            i <= t.columns.len(),
            forall|j: int| 0 <= j < i ==> !p(#[trigger] cs[j]),
        decreases t.columns.len() - i,
    {
        let c: &Column = &t.columns[i];
        assert(cs[i as int] == c.deep_view());
        if !is_known_type(family, c.tpe.data_type.as_str(), c.tpe.full_data_type.as_str()) {
            proof {
                lemma_position_is(cs, p, i as int);
            }
            return true;
        }
        i = i + 1;
    }
    proof {
        lemma_position_none(cs, p);
    }
    false
}

#[verifier::loop_isolation(false)]
fn has_acting_key(t: &Table) -> (r: bool)
    ensures
        r == any(t.deep_view().foreign_keys, acts_on_delete()),
{
    let ghost p = acts_on_delete();
    let ghost ks = t.deep_view().foreign_keys;
    let mut i: usize = 0;
    while i < t.foreign_keys.len()
        invariant
            i <= t.foreign_keys.len(),
            forall|j: int| 0 <= j < i ==> !p(#[trigger] ks[j]),
        decreases t.foreign_keys.len() - i,
    {
        let fk: &ForeignKey = &t.foreign_keys[i];
        assert(ks[i as int] == fk.deep_view());
        if fk.on_delete_action != ForeignKeyAction::NoAction && fk.on_delete_action
            != ForeignKeyAction::SetNull {
            proof {
                lemma_position_is(ks, p, i as int);
            }
            return true;
        }
        i = i + 1;
    }
    proof {
        lemma_position_none(ks, p);
    }
    false
}

#[verifier::loop_isolation(false)]
fn has_time_column(t: &Table, name: &str) -> (r: bool)
    ensures
        r == any(t.deep_view().columns, time_column(name@)),
{
    let ghost p = time_column(name@);
    let ghost cs = t.deep_view().columns;
    let mut i: usize = 0;
    while i < t.columns.len()
        invariant
            i <= t.columns.len(),
            forall|j: int| 0 <= j < i ==> !p(#[trigger] cs[j]),
        decreases t.columns.len() - i,
    {
        let c: &Column = &t.columns[i];
        assert(cs[i as int] == c.deep_view());
        if str_eq(c.name.as_str(), name) && matches!(c.tpe.family, ColumnTypeFamily::DateTime) {
            proof {
                lemma_position_is(cs, p, i as int);
            }
            return true;
        }
        i = i + 1;
    }
    proof {
        lemma_position_none(cs, p);
    }
    false
}

fn has_text_key_of(t: &Table, length: u32) -> (r: bool)
    ensures
        r == text_key_of(t.deep_view(), length),
{
    match &t.primary_key {
        Some(pk) => {
            if pk.columns.len() != 1 {
                return false;
            }
            assert(pk.deep_view().columns[0] == pk.columns[0]@);
            match t.column(pk.columns[0].as_str()) {
                Some(c) => matches!(c.tpe.family, ColumnTypeFamily::String)
                    && c.tpe.character_maximum_length == Some(length),
                None => false,
            }
        },
        None => false,
    }
}

fn has_integer_key(t: &Table) -> (r: bool)
    ensures
        r == integer_key(t.deep_view()),
{
    match &t.primary_key {
        Some(pk) => {
            if pk.columns.len() != 1 {
                return false;
            }
            assert(pk.deep_view().columns[0] == pk.columns[0]@);
            match t.column(pk.columns[0].as_str()) {
                Some(c) => matches!(c.tpe.family, ColumnTypeFamily::Int),
                None => false,
            }
        },
        None => false,
    }
}

impl VersionChecker {
    /// Looks for the marks on the given schema.
    #[verifier::loop_isolation(false)]
    pub fn new(sql_family: SqlFamily, schema: &SqlSchema) -> (r: VersionChecker)
        ensures
            r == marks_of(sql_family, schema.deep_view()),
    {
        let ghost ts = schema.deep_view().tables;
        let mut has_migration_table: bool = false;
        let mut has_relay_table: bool = false;
        let mut first_join: bool = false;
        let mut later_join: bool = false;
        let mut on_delete: bool = false;
        let mut foreign: bool = false;
        let mut no_times: bool = false;
        let mut no_first_key: bool = false;
        let mut no_legacy_key: bool = false;
        let mut relations: bool = false;
        let mut i: usize = 0;
        while i < schema.tables.len()
            invariant
                i <= schema.tables.len(),
                has_migration_table == any(ts.take(i as int), is_old_migration_table()),
                has_relay_table == any(ts.take(i as int), is_relay()),
                first_join == any(ts.take(i as int), is_first_join()),
                later_join == any(ts.take(i as int), is_later_join()),
                on_delete == any(ts.take(i as int), table_acts_on_delete()),
                foreign == any(ts.take(i as int), table_of_foreign_type(sql_family)),
                no_times == any(ts.take(i as int), lacks_times()),
                no_first_key == any(ts.take(i as int), lacks_first_key()),
                no_legacy_key == any(ts.take(i as int), lacks_legacy_key()),
                relations == any(ts.take(i as int), holds_relation()),
            decreases schema.tables.len() - i,
        {
            let t: &Table = &schema.tables[i];
            assert(ts[i as int] == t.deep_view());
            proof {
                lemma_any_step(ts, is_old_migration_table(), i as int);
                lemma_any_step(ts, is_relay(), i as int);
                lemma_any_step(ts, is_first_join(), i as int);
                lemma_any_step(ts, is_later_join(), i as int);
                lemma_any_step(ts, table_acts_on_delete(), i as int);
                lemma_any_step(ts, table_of_foreign_type(sql_family), i as int);
                lemma_any_step(ts, lacks_times(), i as int);
                lemma_any_step(ts, lacks_first_key(), i as int);
                lemma_any_step(ts, lacks_legacy_key(), i as int);
                lemma_any_step(ts, holds_relation(), i as int);
            }
            let model: bool = is_model_table(t);
            has_migration_table = has_migration_table || str_eq(t.name.as_str(), "_Migration");
            has_relay_table = has_relay_table || is_relay_table(t);
            first_join = first_join || is_prisma_1_point_0_join_table(t);
            later_join = later_join || is_prisma_1_point_1_or_2_join_table(t);
            on_delete = on_delete || (model && has_acting_key(t));
            foreign = foreign || (model && has_foreign_type(sql_family, t));
            no_times = no_times || (model && !(has_time_column(t, "createdAt") && has_time_column(
                t,
                "updatedAt",
            )));
            let first_key: bool = has_text_key_of(t, 25);
            no_first_key = no_first_key || (model && !first_key);
            no_legacy_key = no_legacy_key || (model && !(first_key || has_text_key_of(t, 36)
                || has_integer_key(t)));
            relations = relations || (model && t.foreign_keys.len() > 0);
            i = i + 1;
        }
        assert(ts.take(i as int) =~= ts);
        VersionChecker {
            sql_family,
            has_migration_table,
            has_relay_table,
            has_prisma_1_join_table: first_join,
            has_prisma_1_1_or_2_join_table: later_join,
            uses_on_delete: on_delete,
            uses_non_prisma_types: foreign,
            always_has_created_at_updated_at: !no_times,
            always_has_p1_compatible_id: !no_first_key,
            always_has_p1_or_p_1_1_compatible_id: !no_legacy_key,
            has_inline_relations: relations,
        }
    }
}

/// Whether one item more of a list meets a condition, given the items before it.
pub proof fn lemma_any_step<T>(s: Seq<T>, p: spec_fn(T) -> bool, i: int)
    requires
        0 <= i < s.len(),
    ensures
        any(s.take(i + 1), p) == (any(s.take(i), p) || p(s[i])),
        !any(s.take(0), p),
{
    crate::seqs::lemma_position(s.take(i + 1), p);
    crate::seqs::lemma_position(s.take(i), p);
    crate::seqs::lemma_position(s.take(0), p);
    if any(s.take(i), p) {
        let k = crate::seqs::position(s.take(i), p)->Some_0;
        assert(s.take(i + 1)[k] == s.take(i)[k]);
    }
    if p(s[i]) {
        assert(s.take(i + 1)[i] == s[i]);
    }
    if any(s.take(i + 1), p) {
        let k = crate::seqs::position(s.take(i + 1), p)->Some_0;
        if k < i {
            assert(s.take(i)[k] == s.take(i + 1)[k]);
        }
    }
}

} // verus!
