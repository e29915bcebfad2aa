//! Tables with their keys, and the schema that holds them.

use crate::seqs::{
    all_same, any, find, lemma_position_is, lemma_position_none, option_same, position, Same,
};
use crate::sql_schema::{
    Column, ColumnView, Enum, EnumView, ForeignKeyAction, Index, IndexView, PrimaryKey,
    PrimaryKeyView, Sequence, SequenceView,
};
use crate::text::{name_option_clone, name_option_eq, names_clone, names_contain, names_eq, str_eq};
use vstd::prelude::*;
use vstd::std_specs::cmp::PartialEqSpecImpl;
use vstd::string::*;

verus! {

/// The columns of the given name.
pub open spec fn column_named(name: Seq<char>) -> spec_fn(ColumnView) -> bool {
    |c: ColumnView| c.name == name
}

/// The foreign keys that constrain the given column.
pub open spec fn constrains(column: Seq<char>) -> spec_fn(ForeignKeyView) -> bool {
    |fk: ForeignKeyView| fk.columns.contains(column)
}

/// The unique indexes made of exactly the given column.
pub open spec fn unique_on(column: Seq<char>) -> spec_fn(IndexView) -> bool {
    |i: IndexView| i.is_unique_on(column)
}

/// The tables of the given name.
pub open spec fn table_named(name: Seq<char>) -> spec_fn(TableView) -> bool {
    |t: TableView| t.name == name
}

/// The enums of the given name.
pub open spec fn enum_named(name: Seq<char>) -> spec_fn(EnumView) -> bool {
    |e: EnumView| e.name == name
}

/// The sequences of the given name.
pub open spec fn sequence_named(name: Seq<char>) -> spec_fn(SequenceView) -> bool {
    |s: SequenceView| s.name == name
}


/// A foreign key with what is no part of its identity left out.
pub open spec fn normal_key() -> spec_fn(ForeignKeyView) -> ForeignKeyView {
    |fk: ForeignKeyView| fk.normal()
}

/// A table with what is no part of a foreign key's identity left out.
pub open spec fn normal_table() -> spec_fn(TableView) -> TableView {
    |t: TableView| t.normal()
}

/// A foreign key.
#[derive(Debug)]
pub struct ForeignKey {
    /// The database name of the foreign key constraint, when available.
    pub constraint_name: Option<String>,
    /// Column names.
    pub columns: Vec<String>,
    /// Referenced table.
    pub referenced_table: String,
    /// Referenced columns.
    pub referenced_columns: Vec<String>,
    /// Action on deletion.
    pub on_delete_action: ForeignKeyAction,
    /// Action on update.
    pub on_update_action: ForeignKeyAction,
}

pub struct ForeignKeyView {
    pub constraint_name: Option<Seq<char>>,
    pub columns: Seq<Seq<char>>,
    pub referenced_table: Seq<char>,
    pub referenced_columns: Seq<Seq<char>>,
    pub on_delete_action: ForeignKeyAction,
    pub on_update_action: ForeignKeyAction,
}

impl DeepView for ForeignKey {
    type V = ForeignKeyView;

    open spec fn deep_view(&self) -> ForeignKeyView {
        ForeignKeyView {
            constraint_name: self.constraint_name.deep_view(),
            columns: self.columns.deep_view(),
            referenced_table: self.referenced_table@,
            referenced_columns: self.referenced_columns.deep_view(),
            on_delete_action: self.on_delete_action,
            on_update_action: self.on_update_action,
        }
    }
}

impl ForeignKeyView {
    /// What makes a foreign key the one it is: its columns, the table it
    /// points to and the columns it points to. The constraint's name and the
    /// actions are no part of it.
    pub open spec fn identity(self) -> (Seq<Seq<char>>, Seq<char>, Seq<Seq<char>>) {
        (self.columns, self.referenced_table, self.referenced_columns)
    }

    /// The key with what is no part of its identity left out.
    pub open spec fn normal(self) -> ForeignKeyView {
        ForeignKeyView {
            constraint_name: None,
            columns: self.columns,
            referenced_table: self.referenced_table,
            referenced_columns: self.referenced_columns,
            on_delete_action: ForeignKeyAction::NoAction,
            on_update_action: ForeignKeyAction::NoAction,
        }
    }
}

impl Clone for ForeignKey {
    fn clone(&self) -> (r: Self)
        ensures
            r.deep_view() == self.deep_view(),
    {
        ForeignKey {
            constraint_name: name_option_clone(&self.constraint_name),
            columns: names_clone(&self.columns),
            referenced_table: self.referenced_table.clone(),
            referenced_columns: names_clone(&self.referenced_columns),
            on_delete_action: self.on_delete_action,
            on_update_action: self.on_update_action,
        }
    }
}

impl PartialEq for ForeignKey {
    fn eq(&self, other: &Self) -> (r: bool) {
        names_eq(&self.columns, &other.columns) && self.referenced_table == other.referenced_table
            && names_eq(&self.referenced_columns, &other.referenced_columns)
    }
}

impl PartialEqSpecImpl for ForeignKey {
    open spec fn obeys_eq_spec() -> bool {
        true
    }

    open spec fn eq_spec(&self, other: &Self) -> bool {
        self.deep_view().identity() == other.deep_view().identity()
    }
}

impl Same for ForeignKey {
    fn same(&self, other: &ForeignKey) -> (r: bool) {
        name_option_eq(&self.constraint_name, &other.constraint_name) && names_eq(
            &self.columns,
            &other.columns,
        ) && self.referenced_table == other.referenced_table && names_eq(
            &self.referenced_columns,
            &other.referenced_columns,
        ) && self.on_delete_action == other.on_delete_action && self.on_update_action
            == other.on_update_action
    }
}

/// A table found in a schema.
#[derive(Debug, PartialEq)]
pub struct Table {
    /// The table's name.
    pub name: String,
    /// The table's columns.
    pub columns: Vec<Column>,
    /// The table's indices.
    pub indices: Vec<Index>,
    /// The table's primary key, if there is one.
    pub primary_key: Option<PrimaryKey>,
    /// The table's foreign keys.
    pub foreign_keys: Vec<ForeignKey>,
}

pub struct TableView {
    pub name: Seq<char>,
    pub columns: Seq<ColumnView>,
    pub indices: Seq<IndexView>,
    pub primary_key: Option<PrimaryKeyView>,
    pub foreign_keys: Seq<ForeignKeyView>,
}

impl DeepView for Table {
    type V = TableView;

    open spec fn deep_view(&self) -> TableView {
        TableView {
            name: self.name@,
            columns: self.columns.deep_view(),
            indices: self.indices.deep_view(),
            primary_key: self.primary_key.deep_view(),
            foreign_keys: self.foreign_keys.deep_view(),
        }
    }
}

impl Clone for Table {
    fn clone(&self) -> (r: Self)
        ensures
            r.deep_view() == self.deep_view(),
    {
        let columns: Vec<Column> = self.columns.clone();
        let indices: Vec<Index> = self.indices.clone();
        let foreign_keys: Vec<ForeignKey> = self.foreign_keys.clone();
        proof {
            assert(columns.deep_view() =~= self.columns.deep_view());
            assert(indices.deep_view() =~= self.indices.deep_view());
            assert(foreign_keys.deep_view() =~= self.foreign_keys.deep_view());
        }
        Table {
            name: self.name.clone(),
            columns,
            indices,
            primary_key: match &self.primary_key {
                Some(pk) => Some(pk.clone()),
                None => None,
            },
            foreign_keys,
        }
    }
}

impl Same for Table {
    fn same(&self, other: &Table) -> (r: bool) {
        self.name == other.name && all_same(&self.columns, &other.columns) && all_same(
            &self.indices,
            &other.indices,
        ) && option_same(&self.primary_key, &other.primary_key) && all_same(
            &self.foreign_keys,
            &other.foreign_keys,
        )
    }
}

impl TableView {
    /// The first column of that name.
    pub open spec fn column(self, name: Seq<char>) -> Option<ColumnView> {
        find(self.columns, column_named(name))
    }

    pub open spec fn has_column(self, name: Seq<char>) -> bool {
        self.column(name) is Some
    }

    /// The first foreign key that constrains the column.
    pub open spec fn foreign_key_for_column(self, column: Seq<char>) -> Option<ForeignKeyView> {
        find(self.foreign_keys, constrains(column))
    }

    pub open spec fn is_part_of_primary_key(self, column: Seq<char>) -> bool {
        match self.primary_key {
            Some(pk) => pk.columns.contains(column),
            None => false,
        }
    }

    pub open spec fn primary_key_columns(self) -> Seq<Seq<char>> {
        match self.primary_key {
            Some(pk) => pk.columns,
            None => Seq::empty(),
        }
    }

    /// Some unique index is made of exactly this column.
    pub open spec fn is_column_unique(self, column: Seq<char>) -> bool {
        any(self.indices, unique_on(column))
    }

    /// The primary key is made of exactly this column.
    pub open spec fn is_column_primary_key(self, column: Seq<char>) -> bool {
        match self.primary_key {
            Some(pk) => pk.is_single_primary_key(column),
            None => false,
        }
    }

    /// The table with what is no part of a foreign key's identity left out.
    pub open spec fn normal(self) -> TableView {
        TableView {
            name: self.name,
            columns: self.columns,
            indices: self.indices,
            primary_key: self.primary_key,
            foreign_keys: self.foreign_keys.map_values(normal_key()),
        }
    }
}

/// Whether two lists of foreign keys hold keys of the same identity in the
/// same order.
#[verifier::loop_isolation(false)]
fn foreign_keys_match(a: &Vec<ForeignKey>, b: &Vec<ForeignKey>) -> (r: bool)
    ensures
        r == (a.deep_view().map_values(normal_key()) == b.deep_view().map_values(normal_key())),
{
    let ghost na = a.deep_view().map_values(normal_key());
    let ghost nb = b.deep_view().map_values(normal_key());
    if a.len() != b.len() {
        assert(na.len() != nb.len());
        return false;
    }
    let mut i: usize = 0;
    while i < a.len()
        invariant
            i <= a.len(),
            forall|j: int| 0 <= j < i ==> na[j] == nb[j],
        decreases a.len() - i,
    {
        if !(a[i] == b[i]) {
            assert(na[i as int] != nb[i as int]);
            return false;
        }
        i = i + 1;
    }
    assert(na =~= nb);
    true
}

impl Table {
    /// Whether two tables are the same but for what is no part of a foreign
    /// key's identity.
    pub fn matches(&self, other: &Table) -> (r: bool)
        ensures
            r == (self.deep_view().normal() == other.deep_view().normal()),
    {
        self.name == other.name && all_same(&self.columns, &other.columns) && all_same(
            &self.indices,
            &other.indices,
        ) && option_same(&self.primary_key, &other.primary_key) && foreign_keys_match(
            &self.foreign_keys,
            &other.foreign_keys,
        )
    }

    /// The position of the first column of that name.
    pub fn column_position(&self, name: &str) -> (r: Option<usize>)
        ensures
            r.is_some() == self.deep_view().has_column(name@),
            r matches Some(i) ==> i < self.columns.len() && position(
                self.deep_view().columns,
                column_named(name@),
            ) == Some(i as int),
    {
        let ghost p = column_named(name@);
        let mut i: usize = 0;
        while i < self.columns.len()
            invariant
                i <= self.columns.len(),
                p == column_named(name@),
                forall|j: int| 0 <= j < i ==> !p(#[trigger] self.deep_view().columns[j]),
            decreases self.columns.len() - i,
        {
            if str_eq(self.columns[i].name.as_str(), name) {
                proof {
                    lemma_position_is(self.deep_view().columns, p, i as int);
                }
                return Some(i);
            }
            i = i + 1;
        }
        proof {
            lemma_position_none(self.deep_view().columns, p);
        }
        None
    }

    pub fn column(&self, name: &str) -> (r: Option<&Column>)
        ensures
            r.deep_view() == self.deep_view().column(name@),
    {
        match self.column_position(name) {
            Some(i) => Some(&self.columns[i]),
            None => None,
        }
    }

    pub fn column_bang(&self, name: &str) -> (r: &Column)
        requires
            self.deep_view().has_column(name@),
        ensures
            Some(r.deep_view()) == self.deep_view().column(name@),
    {
        match self.column_position(name) {
            Some(i) => &self.columns[i],
            None => {
                proof {
                    assert(false);
                }
                &self.columns[0]
            },
        }
    }

    pub fn has_column(&self, name: &str) -> (r: bool)
        ensures
            r == self.deep_view().has_column(name@),
    {
        self.column_position(name).is_some()
    }

    pub fn foreign_key_for_column(&self, column: &str) -> (r: Option<&ForeignKey>)
        ensures
            r.deep_view() == self.deep_view().foreign_key_for_column(column@),
    {
        let ghost p = constrains(column@);
        let mut i: usize = 0;
        while i < self.foreign_keys.len()
            invariant
                i <= self.foreign_keys.len(),
                p == constrains(column@),
                forall|j: int| 0 <= j < i ==> !p(#[trigger] self.deep_view().foreign_keys[j]),
            decreases self.foreign_keys.len() - i,
        {
            if names_contain(&self.foreign_keys[i].columns, column) {
                proof {
                    lemma_position_is(self.deep_view().foreign_keys, p, i as int);
                }
                return Some(&self.foreign_keys[i]);
            }
            i = i + 1;
        }
        proof {
            lemma_position_none(self.deep_view().foreign_keys, p);
        }
        None
    }

    pub fn is_part_of_foreign_key(&self, column: &str) -> (r: bool)
        ensures
            r == self.deep_view().foreign_key_for_column(column@).is_some(),
    {
        self.foreign_key_for_column(column).is_some()
    }

    pub fn is_part_of_primary_key(&self, column: &str) -> (r: bool)
        ensures
            r == self.deep_view().is_part_of_primary_key(column@),
    {
        match &self.primary_key {
            Some(pk) => names_contain(&pk.columns, column),
            None => false,
        }
    }

    pub fn primary_key_columns(&self) -> (r: Vec<String>)
        ensures
            r.deep_view() == self.deep_view().primary_key_columns(),
    {
        match &self.primary_key {
            Some(pk) => names_clone(&pk.columns),
            None => {
                let v: Vec<String> = Vec::new();
                assert(v.deep_view() =~= Seq::<Seq<char>>::empty());
                v
            },
        }
    }

    pub fn is_column_unique(&self, column_name: &str) -> (r: bool)
        ensures
            r == self.deep_view().is_column_unique(column_name@),
    {
        let ghost p = unique_on(column_name@);
        let mut i: usize = 0;
        while i < self.indices.len()
            invariant
                i <= self.indices.len(),
                p == unique_on(column_name@),
                forall|j: int| 0 <= j < i ==> !p(#[trigger] self.deep_view().indices[j]),
            decreases self.indices.len() - i,
        {
            let index: &Index = &self.indices[i];
            if index.tpe.is_unique() && index.columns.len() == 1 && str_eq(
                index.columns[0].as_str(),
                column_name,
            ) {
                proof {
                    assert(index.deep_view().columns =~= seq![column_name@]);
                    lemma_position_is(self.deep_view().indices, p, i as int);
                }
                return true;
            }
            proof {
                let iv = self.deep_view().indices[i as int];
                assert(iv == index.deep_view());
                let one = seq![column_name@];
                assert(one.len() == 1 && one[0] == column_name@);
                assert(iv.columns.len() == index.columns.len());
                if index.columns.len() == 1 {
                    assert(iv.columns[0] == index.columns[0]@);
                }
                assert(!p(iv));
            }
            i = i + 1;
        }
        proof {
            lemma_position_none(self.deep_view().indices, p);
        }
        false
    }

    pub fn is_column_primary_key(&self, column_name: &str) -> (r: bool)
        ensures
            r == self.deep_view().is_column_primary_key(column_name@),
    {
        match &self.primary_key {
            None => false,
            Some(key) => key.is_single_primary_key(column_name),
        }
    }
}

/// The result of describing a database schema.
#[derive(Debug, PartialEq)]
pub struct SqlSchema {
    /// The schema's tables.
    pub tables: Vec<Table>,
    /// The schema's enums.
    pub enums: Vec<Enum>,
    /// The schema's sequences, unique to Postgres.
    pub sequences: Vec<Sequence>,
}

pub struct SqlSchemaView {
    pub tables: Seq<TableView>,
    pub enums: Seq<EnumView>,
    pub sequences: Seq<SequenceView>,
}

impl DeepView for SqlSchema {
    type V = SqlSchemaView;

    open spec fn deep_view(&self) -> SqlSchemaView {
        SqlSchemaView {
            tables: self.tables.deep_view(),
            enums: self.enums.deep_view(),
            sequences: self.sequences.deep_view(),
        }
    }
}

impl Clone for SqlSchema {
    fn clone(&self) -> (r: Self)
        ensures
            r.deep_view() == self.deep_view(),
    {
        let tables: Vec<Table> = self.tables.clone();
        let enums: Vec<Enum> = self.enums.clone();
        let sequences: Vec<Sequence> = self.sequences.clone();
        proof {
            assert(tables.deep_view() =~= self.tables.deep_view());
            assert(enums.deep_view() =~= self.enums.deep_view());
            assert(sequences.deep_view() =~= self.sequences.deep_view());
        }
        SqlSchema { tables, enums, sequences }
    }
}

impl Same for SqlSchema {
    fn same(&self, other: &SqlSchema) -> (r: bool) {
        all_same(&self.tables, &other.tables) && all_same(&self.enums, &other.enums) && all_same(
            &self.sequences,
            &other.sequences,
        )
    }
}

impl SqlSchemaView {
    /// The first table of that name.
    pub open spec fn table(self, name: Seq<char>) -> Option<TableView> {
        find(self.tables, table_named(name))
    }

    pub open spec fn has_table(self, name: Seq<char>) -> bool {
        self.table(name) is Some
    }

    /// The first enum of that name.
    pub open spec fn get_enum(self, name: Seq<char>) -> Option<EnumView> {
        find(self.enums, enum_named(name))
    }

    /// The first sequence of that name.
    pub open spec fn get_sequence(self, name: Seq<char>) -> Option<SequenceView> {
        find(self.sequences, sequence_named(name))
    }

    pub open spec fn is_empty(self) -> bool {
        self.tables.len() == 0 && self.enums.len() == 0 && self.sequences.len() == 0
    }

    /// The schema with what is no part of a foreign key's identity left out.
    pub open spec fn normal(self) -> SqlSchemaView {
        SqlSchemaView {
            tables: self.tables.map_values(normal_table()),
            enums: self.enums,
            sequences: self.sequences,
        }
    }
}

impl SqlSchema {
    /// Whether two schemas are the same but for what is no part of a foreign
    /// key's identity: the names of the constraints and their actions.
    #[verifier::loop_isolation(false)]
    pub fn matches(&self, other: &SqlSchema) -> (r: bool)
        ensures
            r == (self.deep_view().normal() == other.deep_view().normal()),
    {
        let ghost na = self.deep_view().tables.map_values(normal_table());
        let ghost nb = other.deep_view().tables.map_values(normal_table());
        if self.tables.len() != other.tables.len() {
            assert(na.len() != nb.len());
            return false;
        }
        let mut i: usize = 0;
        while i < self.tables.len()
            invariant
                i <= self.tables.len(),
                forall|j: int| 0 <= j < i ==> na[j] == nb[j],
            decreases self.tables.len() - i,
        {
            if !self.tables[i].matches(&other.tables[i]) {
                assert(na[i as int] != nb[i as int]);
                return false;
            }
            i = i + 1;
        }
        assert(na =~= nb);
        all_same(&self.enums, &other.enums) && all_same(&self.sequences, &other.sequences)
    }

    /// The position of the first table of that name.
    pub fn table_position(&self, name: &str) -> (r: Option<usize>)
        ensures
            r.is_some() == self.deep_view().has_table(name@),
            r matches Some(i) ==> i < self.tables.len() && position(
                self.deep_view().tables,
                table_named(name@),
            ) == Some(i as int),
    {
        let ghost p = table_named(name@);
        let mut i: usize = 0;
        while i < self.tables.len()
            invariant
                i <= self.tables.len(),
                p == table_named(name@),
                forall|j: int| 0 <= j < i ==> !p(#[trigger] self.deep_view().tables[j]),
            decreases self.tables.len() - i,
        {
            if str_eq(self.tables[i].name.as_str(), name) {
                proof {
                    lemma_position_is(self.deep_view().tables, p, i as int);
                }
                return Some(i);
            }
            i = i + 1;
        }
        proof {
            lemma_position_none(self.deep_view().tables, p);
        }
        None
    }

    pub fn has_table(&self, name: &str) -> (r: bool)
        ensures
            r == self.deep_view().has_table(name@),
    {
        self.table_position(name).is_some()
    }

    /// Get a table.
    pub fn get_table(&self, name: &str) -> (r: Option<&Table>)
        ensures
            r.deep_view() == self.deep_view().table(name@),
    {
        match self.table_position(name) {
            Some(i) => Some(&self.tables[i]),
            None => None,
        }
    }

    /// Get an enum.
    pub fn get_enum(&self, name: &str) -> (r: Option<&Enum>)
        ensures
            r.deep_view() == self.deep_view().get_enum(name@),
    {
        let ghost p = enum_named(name@);
        let mut i: usize = 0;
        while i < self.enums.len()
            invariant
                i <= self.enums.len(),
                p == enum_named(name@),
                forall|j: int| 0 <= j < i ==> !p(#[trigger] self.deep_view().enums[j]),
            decreases self.enums.len() - i,
        {
            if str_eq(self.enums[i].name.as_str(), name) {
                proof {
                    lemma_position_is(self.deep_view().enums, p, i as int);
                }
                return Some(&self.enums[i]);
            }
            i = i + 1;
        }
        proof {
            lemma_position_none(self.deep_view().enums, p);
        }
        None
    }

    /// Is this schema empty?
    pub fn is_empty(&self) -> (r: bool)
        ensures
            r == self.deep_view().is_empty(),
    {
        self.tables.len() == 0 && self.enums.len() == 0 && self.sequences.len() == 0
    }

    /// The table of that name, or the name where there is none.
    pub fn table(&self, name: &str) -> (r: Result<&Table, String>)
        ensures
            match r {
                Ok(t) => Some(t.deep_view()) == self.deep_view().table(name@),
                Err(n) => !self.deep_view().has_table(name@) && n@ == name@,
            },
    {
        match self.table_position(name) {
            Some(i) => Ok(&self.tables[i]),
            None => Err(name.to_owned()),
        }
    }

    pub fn table_bang(&self, name: &str) -> (r: &Table)
        requires
            self.deep_view().has_table(name@),
        ensures
            Some(r.deep_view()) == self.deep_view().table(name@),
    {
        match self.table_position(name) {
            Some(i) => &self.tables[i],
            None => {
                proof {
                    assert(false);
                }
                &self.tables[0]
            },
        }
    }

    /// Get a sequence.
    pub fn get_sequence(&self, name: &str) -> (r: Option<&Sequence>)
        ensures
            r.deep_view() == self.deep_view().get_sequence(name@),
    {
        let ghost p = sequence_named(name@);
        let mut i: usize = 0;
        while i < self.sequences.len()
            invariant
                i <= self.sequences.len(),
                p == sequence_named(name@),
                forall|j: int| 0 <= j < i ==> !p(#[trigger] self.deep_view().sequences[j]),
            decreases self.sequences.len() - i,
        {
            if str_eq(self.sequences[i].name.as_str(), name) {
                proof {
                    lemma_position_is(self.deep_view().sequences, p, i as int);
                }
                return Some(&self.sequences[i]);
            }
            i = i + 1;
        }
        proof {
            lemma_position_none(self.deep_view().sequences, p);
        }
        None
    }

    /// A schema with nothing in it.
    pub fn empty() -> (r: SqlSchema)
        ensures
            r.deep_view().is_empty(),
    {
        SqlSchema { tables: Vec::new(), enums: Vec::new(), sequences: Vec::new() }
    }
}

} // verus!
