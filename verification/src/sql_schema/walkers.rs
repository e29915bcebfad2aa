//! Functions and types for conveniently traversing and querying a SqlSchema.
//!
//! A walker stands on a table, a column, a foreign key or an index of a
//! schema, which it knows by its place in the schema.

use crate::seqs::{lemma_position, lemma_position_is, position};
use crate::sql_schema::table::{column_named, table_named};
use crate::sql_schema::{
    Column, ColumnArity, ColumnType, ColumnTypeFamily, DefaultValue, Enum, ForeignKey,
    ForeignKeyAction, ForeignKeyView, Index, IndexType, PrimaryKey, SqlSchema, Table,
};
use crate::text::{names_contain, names_eq, str_eq};
use vstd::prelude::*;
use vstd::string::*;

verus! {

/// Traverse a table.
#[derive(Clone, Copy)]
pub struct TableWalker<'a> {
    /// The schema the table is contained in.
    pub schema: &'a SqlSchema,
    /// The place of the table in the schema.
    pub table_index: usize,
}

/// Traverse a table column.
#[derive(Clone, Copy)]
pub struct ColumnWalker<'a> {
    pub schema: &'a SqlSchema,
    pub table_index: usize,
    /// The place of the column in the table.
    pub column_index: usize,
}

/// Traverse a foreign key.
#[derive(Clone, Copy)]
pub struct ForeignKeyWalker<'a> {
    pub schema: &'a SqlSchema,
    pub table_index: usize,
    /// The place of the foreign key in the table.
    pub foreign_key_index: usize,
}

/// Traverse an index.
#[derive(Clone, Copy)]
pub struct IndexWalker<'a> {
    pub schema: &'a SqlSchema,
    pub table_index: usize,
    /// The place of the index in the table.
    pub index_index: usize,
}

impl<'a> TableWalker<'a> {
    /// The walker stands on a table of its schema.
    pub open spec fn wf(&self) -> bool {
        self.table_index < self.schema.tables.len()
    }

    /// The table that the walker stands on.
    pub open spec fn spec_table(&self) -> Table {
        self.schema.tables[self.table_index as int]
    }

    /// Create a TableWalker from a schema and the place of one of its tables.
    pub fn new(schema: &'a SqlSchema, table_index: usize) -> (r: TableWalker<'a>)
        requires
            table_index < schema.tables.len(),
        ensures
            r.wf(),
            r.schema == schema,
            r.table_index == table_index,
    {
        TableWalker { schema, table_index }
    }

    /// Reference to the underlying `Table` struct.
    pub fn table(&self) -> (r: &'a Table)
        requires
            self.wf(),
        ensures
            *r == self.spec_table(),
    {
        &self.schema.tables[self.table_index]
    }

    /// The table name.
    pub fn name(&self) -> (r: &'a str)
        requires
            self.wf(),
        ensures
            r@ == self.spec_table().name@,
    {
        self.table().name.as_str()
    }

    /// Get a column in the table, by name.
    pub fn column(&self, column_name: &str) -> (r: Option<ColumnWalker<'a>>)
        requires
            self.wf(),
        ensures
            match r {
                Some(w) => w.wf() && w.schema == self.schema && w.table_index == self.table_index
                    && position(self.spec_table().deep_view().columns, column_named(column_name@))
                    == Some(w.column_index as int),
                None => position(self.spec_table().deep_view().columns, column_named(column_name@))
                    is None,
            },
    {
        proof {
            lemma_position(self.spec_table().deep_view().columns, column_named(column_name@));
        }
        match self.table().column_position(column_name) {
            Some(i) => Some(
                ColumnWalker {
                    schema: self.schema,
                    table_index: self.table_index,
                    column_index: i,
                },
            ),
            None => None,
        }
    }

    /// Get a column in the table by index.
    pub fn column_at(&self, idx: usize) -> (r: Option<ColumnWalker<'a>>)
        requires
            self.wf(),
        ensures
            match r {
                Some(w) => w.wf() && idx < self.spec_table().columns.len() && w.schema
                    == self.schema && w.table_index == self.table_index && w.column_index == idx,
                None => idx >= self.spec_table().columns.len(),
            },
    {
        if idx < self.table().columns.len() {
            Some(ColumnWalker { schema: self.schema, table_index: self.table_index, column_index: idx })
        } else {
            None
        }
    }

    /// Traverse the table's columns.
    pub fn columns(&self) -> (r: Vec<ColumnWalker<'a>>)
        requires
            self.wf(),
        ensures
            r.len() == self.spec_table().columns.len(),
            forall|i: int|
                0 <= i < r.len() ==> (#[trigger] r[i]).wf() && r[i].schema == self.schema
                    && r[i].table_index == self.table_index && r[i].column_index == i,
    {
        let n: usize = self.table().columns.len();
        let mut out: Vec<ColumnWalker<'a>> = Vec::new();
        let mut i: usize = 0;
        while i < n
            invariant
                i <= n,
                self.wf(),
                n == self.spec_table().columns.len(),
                out.len() == i,
                forall|j: int|
                    0 <= j < i ==> (#[trigger] out[j]).wf() && out[j].schema == self.schema
                        && out[j].table_index == self.table_index && out[j].column_index == j,
            decreases n - i,
        {
            out.push(
                ColumnWalker { schema: self.schema, table_index: self.table_index, column_index: i },
            );
            i = i + 1;
        }
        out
    }

    /// Same as `TableWalker::columns()`, but takes ownership.
    pub fn into_columns(self) -> (r: Vec<ColumnWalker<'a>>)
        requires
            self.wf(),
        ensures
            r.len() == self.spec_table().columns.len(),
            forall|i: int|
                0 <= i < r.len() ==> (#[trigger] r[i]).wf() && r[i].schema == self.schema
                    && r[i].table_index == self.table_index && r[i].column_index == i,
    {
        self.columns()
    }

    /// The number of foreign key constraints on the table.
    pub fn foreign_key_count(&self) -> (r: usize)
        requires
            self.wf(),
        ensures
            r == self.spec_table().foreign_keys.len(),
    {
        self.table().foreign_keys.len()
    }

    /// Traverse the indexes on the table.
    pub fn indexes(&self) -> (r: Vec<IndexWalker<'a>>)
        requires
            self.wf(),
        ensures
            r.len() == self.spec_table().indices.len(),
            forall|i: int|
                0 <= i < r.len() ==> (#[trigger] r[i]).wf() && r[i].schema == self.schema
                    && r[i].table_index == self.table_index && r[i].index_index == i,
    {
        let n: usize = self.table().indices.len();
        let mut out: Vec<IndexWalker<'a>> = Vec::new();
        let mut i: usize = 0;
        while i < n
            invariant
                i <= n,
                self.wf(),
                n == self.spec_table().indices.len(),
                out.len() == i,
                forall|j: int|
                    0 <= j < i ==> (#[trigger] out[j]).wf() && out[j].schema == self.schema
                        && out[j].table_index == self.table_index && out[j].index_index == j,
            decreases n - i,
        {
            out.push(
                IndexWalker { schema: self.schema, table_index: self.table_index, index_index: i },
            );
            i = i + 1;
        }
        out
    }

    /// Traverse the foreign keys on the table.
    pub fn foreign_keys(self) -> (r: Vec<ForeignKeyWalker<'a>>)
        requires
            self.wf(),
        ensures
            r.len() == self.spec_table().foreign_keys.len(),
            forall|i: int|
                0 <= i < r.len() ==> (#[trigger] r[i]).wf() && r[i].schema == self.schema
                    && r[i].table_index == self.table_index && r[i].foreign_key_index == i,
    {
        let n: usize = self.table().foreign_keys.len();
        let mut out: Vec<ForeignKeyWalker<'a>> = Vec::new();
        let mut i: usize = 0;
        while i < n
            invariant
                i <= n,
                self.wf(),
                n == self.spec_table().foreign_keys.len(),
                out.len() == i,
                forall|j: int|
                    0 <= j < i ==> (#[trigger] out[j]).wf() && out[j].schema == self.schema
                        && out[j].table_index == self.table_index && out[j].foreign_key_index == j,
            decreases n - i,
        {
            out.push(
                ForeignKeyWalker {
                    schema: self.schema,
                    table_index: self.table_index,
                    foreign_key_index: i,
                },
            );
            i = i + 1;
        }
        out
    }

    /// Get a foreign key by index.
    pub fn foreign_key_at(&self, index: usize) -> (r: ForeignKeyWalker<'a>)
        requires
            self.wf(),
            index < self.spec_table().foreign_keys.len(),
        ensures
            r.wf(),
            r.schema == self.schema,
            r.table_index == self.table_index,
            r.foreign_key_index == index,
    {
        ForeignKeyWalker {
            schema: self.schema,
            table_index: self.table_index,
            foreign_key_index: index,
        }
    }

    /// Try to traverse a foreign key for a single column.
    pub fn foreign_key_for_column(&self, column: &str) -> (r: Option<&'a ForeignKey>)
        requires
            self.wf(),
        ensures
            r.deep_view() == self.spec_table().deep_view().foreign_key_for_column(column@),
    {
        self.table().foreign_key_for_column(column)
    }

    /// Traverse to the primary key of the table.
    pub fn primary_key(&self) -> (r: Option<&'a PrimaryKey>)
        requires
            self.wf(),
        ensures
            match r {
                Some(pk) => self.spec_table().primary_key == Some(*pk),
                None => self.spec_table().primary_key is None,
            },
    {
        self.table().primary_key.as_ref()
    }

    /// The names of the columns that are part of the primary key. `None` means
    /// there is no primary key on the table.
    pub fn primary_key_column_names(&self) -> (r: Option<&'a Vec<String>>)
        requires
            self.wf(),
        ensures
            match r {
                Some(names) => self.spec_table().primary_key matches Some(pk) && *names
                    == pk.columns,
                None => self.spec_table().primary_key is None,
            },
    {
        match &self.table().primary_key {
            Some(pk) => Some(&pk.columns),
            None => None,
        }
    }

    /// Walks the parent schema to find the index of the table inside it:
    /// the place of the first table of this table's name.
    pub fn table_index(&self) -> (r: usize)
        requires
            self.wf(),
        ensures
            position(self.schema.deep_view().tables, table_named(self.spec_table().name@)) == Some(
                r as int,
            ),
    {
        let ghost p = table_named(self.spec_table().name@);
        proof {
            let ts = self.schema.deep_view().tables;
            assert(ts[self.table_index as int] == self.spec_table().deep_view());
            assert(p(ts[self.table_index as int]));
            lemma_position(ts, p);
        }
        match self.schema.table_position(self.name()) {
            Some(i) => i,
            None => self.table_index,
        }
    }
}

impl<'a> ColumnWalker<'a> {
    /// The walker stands on a column of a table of its schema.
    pub open spec fn wf(&self) -> bool {
        self.table_index < self.schema.tables.len() && self.column_index
            < self.schema.tables[self.table_index as int].columns.len()
    }

    /// The column that the walker stands on.
    pub open spec fn spec_column(&self) -> Column {
        self.schema.tables[self.table_index as int].columns[self.column_index as int]
    }

    /// The table that the walker stands on.
    pub open spec fn spec_table(&self) -> Table {
        self.schema.tables[self.table_index as int]
    }

    /// A reference to the underlying Column struct.
    pub fn column(&self) -> (r: &'a Column)
        requires
            self.wf(),
        ensures
            *r == self.spec_column(),
    {
        &self.schema.tables[self.table_index].columns[self.column_index]
    }

    /// The nullability and arity of the column.
    pub fn arity(&self) -> (r: &'a ColumnArity)
        requires
            self.wf(),
        ensures
            *r == self.spec_column().tpe.arity,
    {
        &self.column().tpe.arity
    }

    /// Walks the parent table's columns to get to this column's index: the
    /// place of the first column of this column's name.
    pub fn column_index(&self) -> (r: usize)
        requires
            self.wf(),
        ensures
            position(self.spec_table().deep_view().columns, column_named(self.spec_column().name@))
                == Some(r as int),
    {
        let ghost p = column_named(self.spec_column().name@);
        proof {
            let cs = self.spec_table().deep_view().columns;
            assert(cs[self.column_index as int] == self.spec_column().deep_view());
            assert(p(cs[self.column_index as int]));
            lemma_position(cs, p);
        }
        match self.schema.tables[self.table_index].column_position(self.name()) {
            Some(i) => i,
            None => self.column_index,
        }
    }

    /// The type family.
    pub fn column_type_family(&self) -> (r: &'a ColumnTypeFamily)
        requires
            self.wf(),
        ensures
            *r == self.spec_column().tpe.family,
    {
        &self.column().tpe.family
    }

    /// Extract an `Enum` column type family, or `None` if the family is
    /// something else. The enum must be one of the schema.
    pub fn column_type_family_as_enum(&self) -> (r: Option<&'a Enum>)
        requires
            self.wf(),
            self.spec_column().tpe.family.deep_view() matches crate::sql_schema::ColumnTypeFamilyView::Enum(
                name,
            ) ==> self.schema.deep_view().get_enum(name) is Some,
        ensures
            match self.spec_column().tpe.family.deep_view() {
                crate::sql_schema::ColumnTypeFamilyView::Enum(name) => r.deep_view()
                    == self.schema.deep_view().get_enum(name) && r is Some,
                _ => r is None,
            },
    {
        match self.column_type_family().as_enum() {
            Some(enum_name) => self.schema.get_enum(enum_name),
            None => None,
        }
    }

    /// The column name.
    pub fn name(&self) -> (r: &'a str)
        requires
            self.wf(),
        ensures
            r@ == self.spec_column().name@,
    {
        self.column().name.as_str()
    }

    /// The default value for the column.
    pub fn default(&self) -> (r: Option<&'a DefaultValue>)
        requires
            self.wf(),
        ensures
            match r {
                Some(d) => self.spec_column().default == Some(*d),
                None => self.spec_column().default is None,
            },
    {
        self.column().default.as_ref()
    }

    /// The full column type.
    pub fn column_type(&self) -> (r: &'a ColumnType)
        requires
            self.wf(),
        ensures
            *r == self.spec_column().tpe,
    {
        &self.column().tpe
    }

    /// Is this column an auto-incrementing integer?
    pub fn is_autoincrement(&self) -> (r: bool)
        requires
            self.wf(),
        ensures
            r == self.spec_column().auto_increment,
    {
        self.column().auto_increment
    }

    /// Returns whether two columns are named the same and belong to the same table.
    pub fn is_same_column(&self, other: &ColumnWalker<'_>) -> (r: bool)
        requires
            self.wf(),
            other.wf(),
        ensures
            r == (self.spec_column().name@ == other.spec_column().name@ && self.spec_table().name@
                == other.spec_table().name@),
    {
        str_eq(self.name(), other.name()) && str_eq(self.table().name(), other.table().name())
    }

    /// Returns whether this column is the primary key. If it is only part of the primary key, this will return false.
    pub fn is_single_primary_key(&self) -> (r: bool)
        requires
            self.wf(),
        ensures
            r == self.spec_table().deep_view().is_column_primary_key(self.spec_column().name@),
    {
        self.schema.tables[self.table_index].is_column_primary_key(self.name())
    }

    /// Traverse to the column's table.
    pub fn table(&self) -> (r: TableWalker<'a>)
        requires
            self.wf(),
        ensures
            r.wf(),
            r.schema == self.schema,
            r.table_index == self.table_index,
    {
        TableWalker { schema: self.schema, table_index: self.table_index }
    }

    /// Get a reference to the SQL schema the column is part of.
    pub fn schema(&self) -> (r: &'a SqlSchema)
        ensures
            r == self.schema,
    {
        self.schema
    }
}

impl<'a> ForeignKeyWalker<'a> {
    /// The walker stands on a foreign key of a table of its schema.
    pub open spec fn wf(&self) -> bool {
        self.table_index < self.schema.tables.len() && self.foreign_key_index
            < self.schema.tables[self.table_index as int].foreign_keys.len()
    }

    /// The foreign key that the walker stands on.
    pub open spec fn spec_key(&self) -> ForeignKey {
        self.schema.tables[self.table_index as int].foreign_keys[self.foreign_key_index as int]
    }

    /// The table that the walker stands on.
    pub open spec fn spec_table(&self) -> Table {
        self.schema.tables[self.table_index as int]
    }

    /// The underlying ForeignKey struct.
    pub fn foreign_key(&self) -> (r: &'a ForeignKey)
        requires
            self.wf(),
        ensures
            *r == self.spec_key(),
    {
        &self.schema.tables[self.table_index].foreign_keys[self.foreign_key_index]
    }

    /// Access the underlying ForeignKey struct.
    pub fn inner(&self) -> (r: &'a ForeignKey)
        requires
            self.wf(),
        ensures
            *r == self.spec_key(),
    {
        self.foreign_key()
    }

    /// The names of the foreign key columns on the referencing table.
    pub fn constrained_column_names(&self) -> (r: &'a Vec<String>)
        requires
            self.wf(),
        ensures
            *r == self.spec_key().columns,
    {
        &self.foreign_key().columns
    }

    /// The foreign key columns on the referencing table: the columns of
    /// the table that the key names, in the order of the table.
    #[verifier::loop_isolation(false)]
    pub fn constrained_columns(&self) -> (r: Vec<ColumnWalker<'a>>)
        requires
            self.wf(),
        ensures
            forall|i: int|
                0 <= i < r.len() ==> (#[trigger] r[i]).wf() && r[i].schema == self.schema
                    && r[i].table_index == self.table_index && self.spec_key().deep_view().columns.contains(
                    r[i].spec_column().name@,
                ),
            forall|i: int, j: int| 0 <= i < j < r.len() ==> r[i].column_index < r[j].column_index,
            forall|c: int|
                0 <= c < self.spec_table().columns.len() && self.spec_key().deep_view().columns.contains(
                    self.spec_table().columns[c].name@,
                ) ==> exists|i: int| 0 <= i < r.len() && (#[trigger] r[i]).column_index == c,
    {
        let table: &Table = &self.schema.tables[self.table_index];
        let fk: &ForeignKey = self.foreign_key();
        let mut out: Vec<ColumnWalker<'a>> = Vec::new();
        let mut c: usize = 0;
        while c < table.columns.len()
            invariant
                c <= table.columns.len(),
                forall|i: int|
                    0 <= i < out.len() ==> (#[trigger] out[i]).wf() && out[i].schema == self.schema
                        && out[i].table_index == self.table_index && out[i].column_index < c
                        && fk.deep_view().columns.contains(out[i].spec_column().name@),
                forall|i: int, j: int|
                    0 <= i < j < out.len() ==> out[i].column_index < out[j].column_index,
                forall|x: int|
                    0 <= x < c && fk.deep_view().columns.contains(table.columns[x].name@)
                        ==> exists|i: int| 0 <= i < out.len() && (#[trigger] out[i]).column_index == x,
            decreases table.columns.len() - c,
        {
            if names_contain(&fk.columns, table.columns[c].name.as_str()) {
                let ghost before = out@;
                let w = ColumnWalker {
                    schema: self.schema,
                    table_index: self.table_index,
                    column_index: c,
                };
                out.push(w);
                assert forall|x: int|
                    0 <= x < c + 1 && fk.deep_view().columns.contains(
                        table.columns[x].name@,
                    ) implies exists|i: int| 0 <= i < out.len() && (#[trigger] out[i]).column_index == x by {
                    if x < c {
                        let i = choose|i: int| 0 <= i < before.len() && (#[trigger] before[i]).column_index == x;
                        assert(out[i].column_index == x);
                    } else {
                        assert(out[out.len() - 1].column_index == x);
                    }
                }
            }
            c = c + 1;
        }
        out
    }

    /// The name of the foreign key constraint.
    pub fn constraint_name(&self) -> (r: Option<&'a str>)
        requires
            self.wf(),
        ensures
            match r {
                Some(n) => self.spec_key().constraint_name matches Some(m) && n@ == m@,
                None => self.spec_key().constraint_name is None,
            },
    {
        match &self.foreign_key().constraint_name {
            Some(n) => Some(n.as_str()),
            None => None,
        }
    }

    /// The keys of the given constraint name and columns.
    pub open spec fn same_key(name: Option<Seq<char>>, columns: Seq<Seq<char>>) -> spec_fn(
        ForeignKeyView,
    ) -> bool {
        |fk: ForeignKeyView| fk.constraint_name == name && fk.columns == columns
    }

    /// Walks the parent table to find the index of the foreign key inside
    /// it: the place of the first key of this key's constraint name and
    /// columns.
    #[verifier::loop_isolation(false)]
    pub fn foreign_key_index(&self) -> (r: usize)
        requires
            self.wf(),
        ensures
            position(
                self.spec_table().deep_view().foreign_keys,
                Self::same_key(
                    self.spec_key().deep_view().constraint_name,
                    self.spec_key().deep_view().columns,
                ),
            ) == Some(r as int),
    {
        let table: &Table = &self.schema.tables[self.table_index];
        let fk: &ForeignKey = self.foreign_key();
        let ghost ks = table.deep_view().foreign_keys;
        let ghost p = Self::same_key(fk.deep_view().constraint_name, fk.deep_view().columns);
        let mut i: usize = 0;
        while i < self.foreign_key_index
            invariant
                i <= self.foreign_key_index,
                forall|j: int| 0 <= j < i ==> !p(#[trigger] ks[j]),
            decreases self.foreign_key_index - i,
        {
            let other: &ForeignKey = &table.foreign_keys[i];
            assert(ks[i as int] == other.deep_view());
            if crate::text::name_option_eq(&other.constraint_name, &fk.constraint_name) && names_eq(
                &other.columns,
                &fk.columns,
            ) {
                proof {
                    lemma_position_is(ks, p, i as int);
                }
                return i;
            }
            i = i + 1;
        }
        proof {
            assert(ks[i as int] == fk.deep_view());
            lemma_position_is(ks, p, i as int);
        }
        i
    }

    /// The `ON DELETE` behaviour of the foreign key.
    pub fn on_delete_action(&self) -> (r: &'a ForeignKeyAction)
        requires
            self.wf(),
        ensures
            *r == self.spec_key().on_delete_action,
    {
        &self.foreign_key().on_delete_action
    }

    /// The `ON UPDATE` behaviour of the foreign key.
    pub fn on_update_action(&self) -> (r: &'a ForeignKeyAction)
        requires
            self.wf(),
        ensures
            *r == self.spec_key().on_update_action,
    {
        &self.foreign_key().on_update_action
    }

    /// The names of the columns referenced by the foreign key on the referenced table.
    pub fn referenced_column_names(&self) -> (r: &'a Vec<String>)
        requires
            self.wf(),
        ensures
            *r == self.spec_key().referenced_columns,
    {
        &self.foreign_key().referenced_columns
    }

    /// The number of columns referenced by the constraint.
    pub fn referenced_columns_count(&self) -> (r: usize)
        requires
            self.wf(),
        ensures
            r == self.spec_key().referenced_columns.len(),
    {
        self.foreign_key().referenced_columns.len()
    }

    /// The table the foreign key "points to". The schema must hold it.
    pub fn referenced_table(&self) -> (r: TableWalker<'a>)
        requires
            self.wf(),
            self.schema.deep_view().has_table(self.spec_key().referenced_table@),
        ensures
            r.wf(),
            r.schema == self.schema,
            position(
                self.schema.deep_view().tables,
                table_named(self.spec_key().referenced_table@),
            ) == Some(r.table_index as int),
    {
        match self.schema.table_position(self.foreign_key().referenced_table.as_str()) {
            Some(i) => TableWalker { schema: self.schema, table_index: i },
            None => TableWalker { schema: self.schema, table_index: self.table_index },
        }
    }

    /// Traverse to the referencing table.
    pub fn table(&self) -> (r: TableWalker<'a>)
        requires
            self.wf(),
        ensures
            r.wf(),
            r.schema == self.schema,
            r.table_index == self.table_index,
    {
        TableWalker { schema: self.schema, table_index: self.table_index }
    }
}

impl<'a> IndexWalker<'a> {
    /// The walker stands on an index of a table of its schema.
    pub open spec fn wf(&self) -> bool {
        self.table_index < self.schema.tables.len() && self.index_index
            < self.schema.tables[self.table_index as int].indices.len()
    }

    /// The index that the walker stands on.
    pub open spec fn spec_index(&self) -> Index {
        self.schema.tables[self.table_index as int].indices[self.index_index as int]
    }

    /// The table that the walker stands on.
    pub open spec fn spec_table(&self) -> Table {
        self.schema.tables[self.table_index as int]
    }

    /// The underlying index struct.
    pub fn index(&self) -> (r: &'a Index)
        requires
            self.wf(),
        ensures
            *r == self.spec_index(),
    {
        &self.schema.tables[self.table_index].indices[self.index_index]
    }

    /// The names of the indexed columns.
    pub fn column_names(&self) -> (r: &'a Vec<String>)
        requires
            self.wf(),
        ensures
            *r == self.spec_index().columns,
    {
        &self.index().columns
    }

    /// Whether the table holds every column of the index.
    pub open spec fn columns_exist(&self) -> bool {
        forall|i: int|
            0 <= i < self.spec_index().columns.len() ==> self.spec_table().deep_view().has_column(
                #[trigger] self.spec_index().columns[i]@,
            )
    }

    /// Traverse the indexed columns, in the order of the index. The table
    /// must hold every one of them.
    #[verifier::loop_isolation(false)]
    pub fn columns(&self) -> (r: Vec<ColumnWalker<'a>>)
        requires
            self.wf(),
            self.columns_exist(),
        ensures
            r.len() == self.spec_index().columns.len(),
            forall|i: int|
                0 <= i < r.len() ==> (#[trigger] r[i]).wf() && r[i].schema == self.schema
                    && r[i].table_index == self.table_index && position(
                    self.spec_table().deep_view().columns,
                    column_named(self.spec_index().columns[i]@),
                ) == Some(r[i].column_index as int),
    {
        let table: &Table = &self.schema.tables[self.table_index];
        let index: &Index = self.index();
        let mut out: Vec<ColumnWalker<'a>> = Vec::new();
        let mut i: usize = 0;
        while i < index.columns.len()
            invariant
                i <= index.columns.len(),
                out.len() == i,
                forall|j: int|
                    0 <= j < i ==> (#[trigger] out[j]).wf() && out[j].schema == self.schema
                        && out[j].table_index == self.table_index && position(
                        table.deep_view().columns,
                        column_named(index.columns[j]@),
                    ) == Some(out[j].column_index as int),
            decreases index.columns.len() - i,
        {
            assert(table.deep_view().has_column(index.columns[i as int]@));
            match table.column_position(index.columns[i].as_str()) {
                Some(c) => {
                    out.push(
                        ColumnWalker {
                            schema: self.schema,
                            table_index: self.table_index,
                            column_index: c,
                        },
                    );
                },
                None => {
                    assert(false);
                },
            }
            i = i + 1;
        }
        out
    }

    /// The IndexType
    pub fn index_type(&self) -> (r: &'a IndexType)
        requires
            self.wf(),
        ensures
            *r == self.spec_index().tpe,
    {
        &self.index().tpe
    }

    /// The name of the index.
    pub fn name(&self) -> (r: &'a str)
        requires
            self.wf(),
        ensures
            r@ == self.spec_index().name@,
    {
        self.index().name.as_str()
    }
}

/// Whether one of the walkers `ws` stands on column `c` of table `t`.
pub open spec fn stands_on(ws: Seq<ColumnWalker<'_>>, t: int, c: int) -> bool {
    exists|i: int|
        0 <= i < ws.len() && (#[trigger] ws[i]).table_index == t && ws[i].column_index == c
}

/// Traverse all the columns in the schema, table by table.
#[verifier::loop_isolation(false)]
pub fn walk_columns<'a>(schema: &'a SqlSchema) -> (r: Vec<ColumnWalker<'a>>)
    ensures
        forall|i: int| 0 <= i < r.len() ==> (#[trigger] r[i]).wf() && r[i].schema == schema,
        forall|t: int, c: int|
            0 <= t < schema.tables.len() && 0 <= c < schema.tables[t].columns.len()
                ==> #[trigger] stands_on(r@, t, c),
        forall|i: int, j: int|
            0 <= i < j < r.len() ==> r[i].table_index < r[j].table_index || (r[i].table_index
                == r[j].table_index && r[i].column_index < r[j].column_index),
{
    let mut out: Vec<ColumnWalker<'a>> = Vec::new();
    let mut t: usize = 0;
    while t < schema.tables.len()
        invariant
            t <= schema.tables.len(),
            forall|i: int|
                0 <= i < out.len() ==> (#[trigger] out[i]).wf() && out[i].schema == schema
                    && out[i].table_index < t,
            forall|x: int, c: int|
                0 <= x < t && 0 <= c < schema.tables[x].columns.len() ==> #[trigger] stands_on(
                    out@,
                    x,
                    c,
                ),
            forall|i: int, j: int|
                0 <= i < j < out.len() ==> out[i].table_index < out[j].table_index || (
                out[i].table_index == out[j].table_index && out[i].column_index < out[j].column_index),
        decreases schema.tables.len() - t,
    {
        let mut c: usize = 0;
        while c < schema.tables[t].columns.len()
            invariant
                t < schema.tables.len(),
                c <= schema.tables[t as int].columns.len(),
                forall|i: int|
                    0 <= i < out.len() ==> (#[trigger] out[i]).wf() && out[i].schema == schema && (
                    out[i].table_index < t || (out[i].table_index == t && out[i].column_index < c)),
                forall|x: int, y: int|
                    ((0 <= x < t && 0 <= y < schema.tables[x].columns.len()) || (x == t && 0 <= y
                        < c)) ==> #[trigger] stands_on(out@, x, y),
                forall|i: int, j: int|
                    0 <= i < j < out.len() ==> out[i].table_index < out[j].table_index || (
                    out[i].table_index == out[j].table_index && out[i].column_index
                        < out[j].column_index),
            decreases schema.tables[t as int].columns.len() - c,
        {
            let ghost before = out@;
            out.push(ColumnWalker { schema, table_index: t, column_index: c });
            assert forall|x: int, y: int|
                ((0 <= x < t && 0 <= y < schema.tables[x].columns.len()) || (x == t && 0 <= y < c
                    + 1)) implies #[trigger] stands_on(out@, x, y) by {
                if x == t && y == c {
                    assert(out@[out.len() - 1].table_index == x);
                } else {
                    assert(stands_on(before, x, y));
                    let i = choose|i: int|
                        0 <= i < before.len() && (#[trigger] before[i]).table_index == x
                            && before[i].column_index == y;
                    assert(out@[i].table_index == x);
                }
            }
            c = c + 1;
        }
        t = t + 1;
    }
    out
}

/// Find a column by table and column name in the schema.
pub fn find_column<'a>(schema: &'a SqlSchema, table_name: &str, column_name: &str) -> (r: Option<
    ColumnWalker<'a>,
>)
    ensures
        match position(schema.deep_view().tables, table_named(table_name@)) {
            Some(t) => match position(
                schema.deep_view().tables[t].columns,
                column_named(column_name@),
            ) {
                Some(c) => r matches Some(w) && w.wf() && w.schema == schema && w.table_index == t
                    && w.column_index == c,
                None => r is None,
            },
            None => r is None,
        },
{
    proof {
        lemma_position(schema.deep_view().tables, table_named(table_name@));
    }
    match schema.table_position(table_name) {
        Some(t) => {
            assert(schema.deep_view().tables[t as int] == schema.tables[t as int].deep_view());
            proof {
                lemma_position(schema.tables[t as int].deep_view().columns, column_named(column_name@));
            }
            match schema.tables[t].column_position(column_name) {
                Some(c) => Some(ColumnWalker { schema, table_index: t, column_index: c }),
                None => None,
            }
        },
        None => None,
    }
}

impl SqlSchema {
    /// Find a table by name.
    pub fn table_walker<'a>(&'a self, name: &str) -> (r: Option<TableWalker<'a>>)
        ensures
            match r {
                Some(w) => w.wf() && w.schema == self && position(
                    self.deep_view().tables,
                    table_named(name@),
                ) == Some(w.table_index as int),
                None => !self.deep_view().has_table(name@),
            },
    {
        match self.table_position(name) {
            Some(i) => Some(TableWalker { schema: self, table_index: i }),
            None => None,
        }
    }

    /// Find a table by index.
    pub fn table_walker_at<'a>(&'a self, index: usize) -> (r: TableWalker<'a>)
        requires
            index < self.tables.len(),
        ensures
            r.wf(),
            r.schema == self,
            r.table_index == index,
    {
        TableWalker { schema: self, table_index: index }
    }

    /// The walkers of all tables, in their order.
    pub fn table_walkers<'a>(&'a self) -> (r: Vec<TableWalker<'a>>)
        ensures
            r.len() == self.tables.len(),
            forall|i: int|
                0 <= i < r.len() ==> (#[trigger] r[i]).wf() && r[i].schema == self && r[i].table_index
                    == i,
    {
        let mut out: Vec<TableWalker<'a>> = Vec::new();
        let mut i: usize = 0;
        while i < self.tables.len()
            invariant
                i <= self.tables.len(),
                out.len() == i,
                forall|j: int|
                    0 <= j < i ==> (#[trigger] out[j]).wf() && out[j].schema == self
                        && out[j].table_index == j,
            decreases self.tables.len() - i,
        {
            out.push(TableWalker { schema: self, table_index: i });
            i = i + 1;
        }
        out
    }
}

} // verus!
