//! The description of a database schema as a describer observed it: tables,
//! columns, indexes, keys, enums and sequences.

use crate::seqs::{option_same, Same};
use crate::text::{name_option_clone, name_option_eq, names_clone, names_eq, str_eq};
use vstd::prelude::*;
use vstd::string::*;

pub mod column;
pub mod mysql;
pub mod mysql_columns;
pub mod mysql_describe;
pub mod mysql_keys;
pub mod mysql_rows;
pub mod parsing;
pub mod table;
pub mod walkers;

pub use column::{
    Column, ColumnType, ColumnTypeFamily, ColumnTypeFamilyView, ColumnTypeView, ColumnView,
    DefaultValue, DefaultValueView,
};
pub use parsing::{parse_bool, parse_float, parse_int, unquote_string, Precision};
pub use table::{ForeignKey, ForeignKeyView, SqlSchema, SqlSchemaView, Table, TableView};

verus! {

/// Why a description could not be made.
#[derive(Debug)]
pub enum SqlSchemaDescriberError {
    /// An unknown error occurred.
    UnknownError,
}

impl SqlSchemaDescriberError {
    /// The message shown for this error.
    pub fn message(&self) -> (r: String)
        ensures
            r@ == "unknown"@,
    {
        "unknown".to_owned()
    }
}

/// What a describer reports of a database as a whole.
#[derive(Debug, PartialEq)]
pub struct SQLMetadata {
    pub table_count: usize,
    pub size_in_bytes: usize,
}

/// The type of an index.
#[derive(Debug, PartialEq, Eq, Structural, Clone, Copy)]
pub enum IndexType {
    /// Unique type.
    Unique,
    /// Normal type.
    Normal,
}

impl IndexType {
    pub fn is_unique(&self) -> (r: bool)
        ensures
            r == (*self == IndexType::Unique),
    {
        matches!(self, IndexType::Unique)
    }
}

/// An index of a table.
#[derive(Debug, PartialEq)]
pub struct Index {
    /// Index name.
    pub name: String,
    /// Index columns.
    pub columns: Vec<String>,
    /// Type of index.
    pub tpe: IndexType,
}

pub struct IndexView {
    pub name: Seq<char>,
    pub columns: Seq<Seq<char>>,
    pub tpe: IndexType,
}

impl DeepView for Index {
    type V = IndexView;

    open spec fn deep_view(&self) -> IndexView {
        IndexView { name: self.name@, columns: self.columns.deep_view(), tpe: self.tpe }
    }
}

impl Clone for Index {
    fn clone(&self) -> (r: Self)
        ensures
            r.deep_view() == self.deep_view(),
    {
        Index { name: self.name.clone(), columns: names_clone(&self.columns), tpe: self.tpe }
    }
}

impl IndexView {
    /// A unique index over exactly the column `column`.
    pub open spec fn is_unique_on(self, column: Seq<char>) -> bool {
        self.tpe == IndexType::Unique && self.columns == seq![column]
    }
}

impl Index {
    pub fn is_unique(&self) -> (r: bool)
        ensures
            r == (self.tpe == IndexType::Unique),
    {
        self.tpe.is_unique()
    }
}

impl Same for Index {
    fn same(&self, other: &Index) -> (r: bool) {
        self.name == other.name && names_eq(&self.columns, &other.columns) && self.tpe == other.tpe
    }
}

/// A SQL sequence.
#[derive(Debug, PartialEq)]
pub struct Sequence {
    /// Sequence name.
    pub name: String,
    /// Sequence initial value.
    pub initial_value: u32,
    /// Sequence allocation size.
    pub allocation_size: u32,
}

pub struct SequenceView {
    pub name: Seq<char>,
    pub initial_value: u32,
    pub allocation_size: u32,
}

impl DeepView for Sequence {
    type V = SequenceView;

    open spec fn deep_view(&self) -> SequenceView {
        SequenceView {
            name: self.name@,
            initial_value: self.initial_value,
            allocation_size: self.allocation_size,
        }
    }
}

impl Clone for Sequence {
    fn clone(&self) -> (r: Self)
        ensures
            r.deep_view() == self.deep_view(),
    {
        Sequence {
            name: self.name.clone(),
            initial_value: self.initial_value,
            allocation_size: self.allocation_size,
        }
    }
}

impl Same for Sequence {
    fn same(&self, other: &Sequence) -> (r: bool) {
        self.name == other.name && self.initial_value == other.initial_value
            && self.allocation_size == other.allocation_size
    }
}

/// The primary key of a table.
#[derive(Debug, PartialEq)]
pub struct PrimaryKey {
    /// Columns.
    pub columns: Vec<String>,
    /// The sequence optionally seeding this primary key.
    pub sequence: Option<Sequence>,
    /// The name of the primary key constraint, when available.
    pub constraint_name: Option<String>,
}

pub struct PrimaryKeyView {
    pub columns: Seq<Seq<char>>,
    pub sequence: Option<SequenceView>,
    pub constraint_name: Option<Seq<char>>,
}

impl DeepView for PrimaryKey {
    type V = PrimaryKeyView;

    open spec fn deep_view(&self) -> PrimaryKeyView {
        PrimaryKeyView {
            columns: self.columns.deep_view(),
            sequence: self.sequence.deep_view(),
            constraint_name: self.constraint_name.deep_view(),
        }
    }
}

impl Clone for PrimaryKey {
    fn clone(&self) -> (r: Self)
        ensures
            r.deep_view() == self.deep_view(),
    {
        PrimaryKey {
            columns: names_clone(&self.columns),
            sequence: match &self.sequence {
                Some(s) => Some(s.clone()),
                None => None,
            },
            constraint_name: name_option_clone(&self.constraint_name),
        }
    }
}

impl PrimaryKeyView {
    /// The key is made of exactly the column `column`.
    pub open spec fn is_single_primary_key(self, column: Seq<char>) -> bool {
        self.columns == seq![column]
    }
}

impl PrimaryKey {
    pub fn is_single_primary_key(&self, column: &str) -> (r: bool)
        ensures
            r == self.deep_view().is_single_primary_key(column@),
    {
        if self.columns.len() == 1 {
            let r: bool = str_eq(self.columns[0].as_str(), column);
            proof {
                assert(self.columns.deep_view()[0] == self.columns[0]@);
                if r {
                    assert(self.columns.deep_view() =~= seq![column@]);
                }
            }
            r
        } else {
            assert(self.columns.deep_view().len() != 1);
            false
        }
    }
}

impl Same for PrimaryKey {
    fn same(&self, other: &PrimaryKey) -> (r: bool) {
        names_eq(&self.columns, &other.columns) && option_same(&self.sequence, &other.sequence)
            && name_option_eq(
            &self.constraint_name,
            &other.constraint_name,
        )
    }
}

/// A column's arity.
#[derive(Debug, PartialEq, Eq, Structural, Clone, Copy)]
pub enum ColumnArity {
    /// Required column.
    Required,
    /// Nullable column.
    Nullable,
    /// List type column.
    List,
}

impl ColumnArity {
    /// The arity is ColumnArity::List.
    pub fn is_list(&self) -> (r: bool)
        ensures
            r == (*self == ColumnArity::List),
    {
        matches!(self, ColumnArity::List)
    }

    /// The arity is ColumnArity::Nullable.
    pub fn is_nullable(&self) -> (r: bool)
        ensures
            r == (*self == ColumnArity::Nullable),
    {
        matches!(self, ColumnArity::Nullable)
    }

    /// The arity is ColumnArity::Required.
    pub fn is_required(&self) -> (r: bool)
        ensures
            r == (*self == ColumnArity::Required),
    {
        matches!(self, ColumnArity::Required)
    }
}

/// Foreign key action types (for ON DELETE|ON UPDATE).
#[derive(Debug, PartialEq, Eq, Structural, Clone, Copy)]
pub enum ForeignKeyAction {
    /// Refuse the change when rows still refer to the row; may be deferred.
    NoAction,
    /// Refuse the change when rows still refer to the row; never deferred.
    Restrict,
    /// Delete or update the rows that refer to the row.
    Cascade,
    /// Set the referencing columns to null.
    SetNull,
    /// Set the referencing columns to their default values.
    SetDefault,
}

/// A SQL enum.
#[derive(Debug, PartialEq)]
pub struct Enum {
    /// Enum name.
    pub name: String,
    /// Possible enum values.
    pub values: Vec<String>,
}

pub struct EnumView {
    pub name: Seq<char>,
    pub values: Seq<Seq<char>>,
}

impl DeepView for Enum {
    type V = EnumView;

    open spec fn deep_view(&self) -> EnumView {
        EnumView { name: self.name@, values: self.values.deep_view() }
    }
}

impl Clone for Enum {
    fn clone(&self) -> (r: Self)
        ensures
            r.deep_view() == self.deep_view(),
    {
        Enum { name: self.name.clone(), values: names_clone(&self.values) }
    }
}

impl Same for Enum {
    fn same(&self, other: &Enum) -> (r: bool) {
        self.name == other.name && names_eq(&self.values, &other.values)
    }
}

} // verus!
