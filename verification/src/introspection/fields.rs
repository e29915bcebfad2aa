//! From columns to scalar fields, and from foreign keys to relation fields.

use crate::dml::{
    DefaultValue, DefaultValueView, FieldArity, FieldType, FieldTypeView, OnDeleteStrategy,
    RelationField, RelationFieldView, RelationInfo, RelationInfoView, ScalarField,
    ScalarFieldView, ScalarType, ValueGenerator, ValueGeneratorFn, ValueGeneratorView,
};
use crate::introspection::SqlFamily;
use crate::seqs::{any, lemma_position_is, lemma_position_none};
use crate::sql_schema::{
    Column, ColumnArity, ColumnTypeFamily, ColumnTypeFamilyView, ColumnView, ForeignKey,
    ForeignKeyView, SqlSchema, SqlSchemaView, Table, TableView,
};
use crate::text::{concat, join, join_text, lex_lt, names_clone, str_lt};
use vstd::prelude::*;
use vstd::string::*;

verus! {

/// The comment on a field whose type cannot be represented.
pub open spec fn unsupported_type_comment() -> Seq<char> {
    "This type is currently not supported."@
}

/// The scalar type that stands for a family of column types, if one does.
pub open spec fn scalar_type_of(family: ColumnTypeFamilyView) -> Option<ScalarType> {
    match family {
        ColumnTypeFamilyView::Int => Some(ScalarType::Int),
        ColumnTypeFamilyView::Float => Some(ScalarType::Float),
        ColumnTypeFamilyView::Boolean => Some(ScalarType::Boolean),
        ColumnTypeFamilyView::String => Some(ScalarType::String),
        ColumnTypeFamilyView::DateTime => Some(ScalarType::DateTime),
        ColumnTypeFamilyView::Json => Some(ScalarType::Json),
        ColumnTypeFamilyView::Uuid => Some(ScalarType::String),
        _ => None,
    }
}

/// The type of the field that stands for a column. A column of an enum has
/// the enum for its type; a column of a family that a scalar type stands
/// for has that type, with the column's native type where native types are
/// asked for and known; any other column has an unsupported type, named by
/// the full data type of the column.
pub open spec fn field_type_of(c: ColumnView, native_types: bool) -> FieldTypeView {
    match c.tpe.family {
        ColumnTypeFamilyView::Enum(name) => FieldTypeView::Enum(name),
        family => match scalar_type_of(family) {
            Some(scalar) => match c.tpe.native_type {
                Some(native) if native_types => FieldTypeView::NativeType(scalar, native),
                _ => FieldTypeView::Base(scalar, None),
            },
            None => FieldTypeView::Unsupported(c.tpe.full_data_type),
        },
    }
}

/// The arity of the field that stands for a column: that of the column,
/// but an integer that the database counts up is always required.
pub open spec fn field_arity_of(c: ColumnView, field_type: FieldTypeView) -> FieldArity {
    if c.auto_increment && field_type == FieldTypeView::Base(ScalarType::Int, None) {
        FieldArity::Required
    } else {
        match c.tpe.arity {
            ColumnArity::Required => FieldArity::Required,
            ColumnArity::Nullable => FieldArity::Optional,
            ColumnArity::List => FieldArity::List,
        }
    }
}

/// Whether the column is the whole primary key and a sequence seeds it.
pub open spec fn seeded_by_sequence(t: TableView, c: ColumnView) -> bool {
    match t.primary_key {
        Some(pk) => pk.is_single_primary_key(c.name) && pk.sequence is Some,
        None => false,
    }
}

/// The default that counts up.
pub open spec fn autoincrement() -> DefaultValueView {
    DefaultValueView::Expression(
        ValueGeneratorView { name: "autoincrement"@, generator: ValueGeneratorFn::Autoincrement },
    )
}

/// The default of the field that stands for a column. A list has none; an
/// integer that the database counts up, or that is the primary key seeded
/// by a sequence, counts up; otherwise the default follows that of the
/// column.
pub open spec fn default_of(t: TableView, c: ColumnView, arity: FieldArity) -> Option<
    DefaultValueView,
> {
    if arity == FieldArity::List {
        None
    } else if c.tpe.family is Int && (c.auto_increment || seeded_by_sequence(t, c)) {
        Some(autoincrement())
    } else {
        match c.default {
            Some(crate::sql_schema::DefaultValueView::SEQUENCE(_)) => Some(autoincrement()),
            Some(crate::sql_schema::DefaultValueView::NOW) => if c.tpe.family is DateTime {
                Some(
                    DefaultValueView::Expression(
                        ValueGeneratorView { name: "now"@, generator: ValueGeneratorFn::Now },
                    ),
                )
            } else {
                None
            },
            Some(crate::sql_schema::DefaultValueView::DBGENERATED(_)) => Some(
                DefaultValueView::Expression(
                    ValueGeneratorView {
                        name: "dbgenerated"@,
                        generator: ValueGeneratorFn::DbGenerated,
                    },
                ),
            ),
            Some(crate::sql_schema::DefaultValueView::VALUE(v)) => Some(DefaultValueView::Single(v)),
            None => None,
        }
    }
}

/// The scalar field that stands for a column of a table.
pub open spec fn scalar_field_of(t: TableView, c: ColumnView, native_types: bool) -> ScalarFieldView {
    let field_type = field_type_of(c, native_types);
    let arity = field_arity_of(c, field_type);
    let is_id = t.is_column_primary_key(c.name);
    ScalarFieldView {
        name: c.name,
        field_type,
        arity,
        database_name: None,
        default_value: default_of(t, c, arity),
        is_unique: t.is_column_unique(c.name) && !is_id,
        is_id,
        documentation: if field_type is Unsupported {
            Some(unsupported_type_comment())
        } else {
            None
        },
        is_generated: false,
        is_updated_at: false,
        is_commented_out: field_type is Unsupported,
    }
}

pub fn calculate_scalar_field_type(column: &Column, native_types: bool) -> (r: FieldType)
    ensures
        r.deep_view() == field_type_of(column.deep_view(), native_types),
{
    let scalar: ScalarType = match &column.tpe.family {
        ColumnTypeFamily::Enum(name) => {
            return FieldType::Enum(name.clone());
        },
        ColumnTypeFamily::Int => ScalarType::Int,
        ColumnTypeFamily::Float => ScalarType::Float,
        ColumnTypeFamily::Boolean => ScalarType::Boolean,
        ColumnTypeFamily::String => ScalarType::String,
        ColumnTypeFamily::DateTime => ScalarType::DateTime,
        ColumnTypeFamily::Json => ScalarType::Json,
        ColumnTypeFamily::Uuid => ScalarType::String,
        _ => {
            return FieldType::Unsupported(column.tpe.full_data_type.clone());
        },
    };
    match column.tpe.native_type {
        Some(native) => {
            if native_types {
                FieldType::NativeType(scalar, native)
            } else {
                FieldType::Base(scalar, None)
            }
        },
        None => FieldType::Base(scalar, None),
    }
}

fn is_sequence(column: &Column, table: &Table) -> (r: bool)
    ensures
        r == seeded_by_sequence(table.deep_view(), column.deep_view()),
{
    match &table.primary_key {
        Some(pk) => pk.is_single_primary_key(column.name.as_str()) && pk.sequence.is_some(),
        None => false,
    }
}

pub fn calculate_default(table: &Table, column: &Column, arity: FieldArity) -> (r: Option<
    DefaultValue,
>)
    ensures
        r.deep_view() == default_of(table.deep_view(), column.deep_view(), arity),
{
    if arity == FieldArity::List {
        return None;
    }
    let is_int: bool = matches!(column.tpe.family, ColumnTypeFamily::Int);
    if is_int && (column.auto_increment || is_sequence(column, table)) {
        return Some(DefaultValue::Expression(ValueGenerator::new_autoincrement()));
    }
    match &column.default {
        Some(crate::sql_schema::DefaultValue::SEQUENCE(_)) => Some(
            DefaultValue::Expression(ValueGenerator::new_autoincrement()),
        ),
        Some(crate::sql_schema::DefaultValue::NOW) => {
            if matches!(column.tpe.family, ColumnTypeFamily::DateTime) {
                Some(DefaultValue::Expression(ValueGenerator::new_now()))
            } else {
                None
            }
        },
        Some(crate::sql_schema::DefaultValue::DBGENERATED(_)) => Some(
            DefaultValue::Expression(ValueGenerator::new_dbgenerated()),
        ),
        Some(crate::sql_schema::DefaultValue::VALUE(v)) => Some(DefaultValue::Single(v.clone())),
        None => None,
    }
}

pub fn calculate_scalar_field(
    table: &Table,
    column: &Column,
    family: &SqlFamily,
    native_types: bool,
) -> (r: ScalarField)
    ensures
        r.deep_view() == scalar_field_of(table.deep_view(), column.deep_view(), native_types),
{
    let field_type: FieldType = calculate_scalar_field_type(column, native_types);
    let unsupported: bool = matches!(field_type, FieldType::Unsupported(_));
    let plain_int: bool = match &field_type {
        FieldType::Base(ScalarType::Int, None) => true,
        _ => false,
    };
    let arity: FieldArity = if column.auto_increment && plain_int {
        FieldArity::Required
    } else {
        match column.tpe.arity {
            ColumnArity::Required => FieldArity::Required,
            ColumnArity::Nullable => FieldArity::Optional,
            ColumnArity::List => FieldArity::List,
        }
    };
    let is_id: bool = table.is_column_primary_key(column.name.as_str());
    let default_value: Option<DefaultValue> = calculate_default(table, column, arity);
    let is_unique: bool = table.is_column_unique(column.name.as_str()) && !is_id;
    let documentation: Option<String> = if unsupported {
        Some("This type is currently not supported.".to_owned())
    } else {
        None
    };
    ScalarField {
        name: column.name.clone(),
        field_type,
        arity,
        database_name: None,
        default_value,
        is_unique,
        is_id,
        documentation,
        is_generated: false,
        is_updated_at: false,
        is_commented_out: unsupported,
    }
}

/// Whether two pairs of tables are the same pair, in either order.
pub open spec fn same_pair(a: Seq<char>, b: Seq<char>, c: Seq<char>, d: Seq<char>) -> bool {
    (a == c && b == d) || (a == d && b == c)
}

/// The foreign keys of the table `holder` that connect the same two tables
/// as `fk` of the table `table` and are not `fk`.
pub open spec fn is_rival(holder: Seq<char>, table: Seq<char>, fk: ForeignKeyView) -> spec_fn(
    ForeignKeyView,
) -> bool {
    |other: ForeignKeyView|
        same_pair(holder, other.referenced_table, table, fk.referenced_table) && other.identity()
            != fk.identity()
}

/// The tables that hold a rival of `fk`.
pub open spec fn holds_rival(table: Seq<char>, fk: ForeignKeyView) -> spec_fn(TableView) -> bool {
    |x: TableView| any(x.foreign_keys, is_rival(x.name, table, fk))
}

/// The name of a relation between two tables that no other relation connects.
pub open spec fn unambiguous_name(from: Seq<char>, to: Seq<char>) -> Seq<char> {
    if lex_lt(from, to) {
        from + "To"@ + to
    } else {
        to + "To"@ + from
    }
}

/// The name of a relation between two tables that another relation
/// connects too: the constrained columns tell it from the other.
pub open spec fn ambiguous_name(from: Seq<char>, to: Seq<char>, columns: Seq<char>) -> Seq<char> {
    if lex_lt(from, to) {
        from + "_"@ + columns + "To"@ + to
    } else {
        to + "To"@ + from + "_"@ + columns
    }
}

/// The name of the relation that a foreign key of a table stands for.
pub open spec fn relation_name_of(schema: SqlSchemaView, t: TableView, fk: ForeignKeyView) -> Seq<
    char,
> {
    if any(schema.tables, holds_rival(t.name, fk)) {
        ambiguous_name(t.name, fk.referenced_table, join_text(fk.columns, "_"@))
    } else {
        unambiguous_name(t.name, fk.referenced_table)
    }
}

/// The names of required columns of the table.
pub open spec fn names_required_column(t: TableView) -> spec_fn(Seq<char>) -> bool {
    |name: Seq<char>|
        match t.column(name) {
            Some(c) => c.is_required(),
            None => false,
        }
}

/// The relation field that stands for a foreign key of a table: it has the
/// name of the table that the key points to, and is required where one of
/// the constrained columns is.
pub open spec fn relation_field_of(
    schema: SqlSchemaView,
    t: TableView,
    fk: ForeignKeyView,
) -> RelationFieldView {
    RelationFieldView {
        name: fk.referenced_table,
        relation_info: RelationInfoView {
            to: fk.referenced_table,
            fields: fk.columns,
            to_fields: fk.referenced_columns,
            name: relation_name_of(schema, t, fk),
            on_delete: OnDeleteStrategy::NoStrategy,
        },
        arity: if any(fk.columns, names_required_column(t)) {
            FieldArity::Required
        } else {
            FieldArity::Optional
        },
        documentation: None,
        is_generated: false,
        is_commented_out: false,
    }
}

#[verifier::loop_isolation(false)]
fn table_holds_rival(holder: &Table, table: &Table, fk: &ForeignKey) -> (r: bool)
    ensures
        r == holds_rival(table.name@, fk.deep_view())(holder.deep_view()),
{
    let ghost p = is_rival(holder.name@, table.name@, fk.deep_view());
    let mut i: usize = 0;
    while i < holder.foreign_keys.len()
        invariant
            i <= holder.foreign_keys.len(),
            forall|j: int| 0 <= j < i ==> !p(#[trigger] holder.deep_view().foreign_keys[j]),
        decreases holder.foreign_keys.len() - i,
    {
        let other: &ForeignKey = &holder.foreign_keys[i];
        let forward: bool = holder.name == table.name && other.referenced_table
            == fk.referenced_table;
        let backward: bool = holder.name == fk.referenced_table && other.referenced_table
            == table.name;
        if (forward || backward) && !(*other == *fk) {
            proof {
                lemma_position_is(holder.deep_view().foreign_keys, p, i as int);
            }
            return true;
        }
        i = i + 1;
    }
    proof {
        lemma_position_none(holder.deep_view().foreign_keys, p);
    }
    false
}

/// The name of the relation that a foreign key of a table stands for.
#[verifier::loop_isolation(false)]
pub fn calculate_relation_name(schema: &SqlSchema, fk: &ForeignKey, table: &Table) -> (r: String)
    ensures
        r@ == relation_name_of(schema.deep_view(), table.deep_view(), fk.deep_view()),
{
    let ghost p = holds_rival(table.name@, fk.deep_view());
    let mut ambiguous: bool = false;
    let mut i: usize = 0;
    while i < schema.tables.len() && !ambiguous
        invariant
            i <= schema.tables.len(),
            !ambiguous ==> forall|j: int| 0 <= j < i ==> !p(#[trigger] schema.deep_view().tables[j]),
            ambiguous ==> any(schema.deep_view().tables, p),
        decreases schema.tables.len() - i + if ambiguous { 0int } else { 1int },
    {
        if table_holds_rival(&schema.tables[i], table, fk) {
            proof {
                lemma_position_is(schema.deep_view().tables, p, i as int);
            }
            ambiguous = true;
        } else {
            i = i + 1;
        }
    }
    proof {
        if !ambiguous {
            lemma_position_none(schema.deep_view().tables, p);
        }
    }
    let from: &str = table.name.as_str();
    let to: &str = fk.referenced_table.as_str();
    if ambiguous {
        let columns: String = join(&fk.columns, "_");
        if str_lt(from, to) {
            let mut name: String = concat(from, "_");
            name.append(columns.as_str());
            name.append("To");
            name.append(to);
            name
        } else {
            let mut name: String = concat(to, "To");
            name.append(from);
            name.append("_");
            name.append(columns.as_str());
            name
        }
    } else {
        if str_lt(from, to) {
            let mut name: String = concat(from, "To");
            name.append(to);
            name
        } else {
            let mut name: String = concat(to, "To");
            name.append(from);
            name
        }
    }
}

/// The relation field that stands for a foreign key of a table.
#[verifier::loop_isolation(false)]
pub fn calculate_relation_field(
    schema: &SqlSchema,
    table: &Table,
    foreign_key: &ForeignKey,
) -> (r: RelationField)
    ensures
        r.deep_view() == relation_field_of(
            schema.deep_view(),
            table.deep_view(),
            foreign_key.deep_view(),
        ),
{
    let relation_info = RelationInfo {
        name: calculate_relation_name(schema, foreign_key, table),
        fields: names_clone(&foreign_key.columns),
        to: foreign_key.referenced_table.clone(),
        to_fields: names_clone(&foreign_key.referenced_columns),
        on_delete: OnDeleteStrategy::NoStrategy,
    };
    let ghost p = names_required_column(table.deep_view());
    let mut required: bool = false;
    let mut i: usize = 0;
    while i < foreign_key.columns.len() && !required
        invariant
            i <= foreign_key.columns.len(),
            !required ==> forall|j: int|
                0 <= j < i ==> !p(#[trigger] foreign_key.deep_view().columns[j]),
            required ==> any(foreign_key.deep_view().columns, p),
        decreases foreign_key.columns.len() - i + if required { 0int } else { 1int },
    {
        let found: bool = match table.column(foreign_key.columns[i].as_str()) {
            Some(c) => c.is_required(),
            None => false,
        };
        assert(foreign_key.deep_view().columns[i as int] == foreign_key.columns[i as int]@);
        if found {
            proof {
                lemma_position_is(foreign_key.deep_view().columns, p, i as int);
            }
            required = true;
        } else {
            i = i + 1;
        }
    }
    proof {
        if !required {
            lemma_position_none(foreign_key.deep_view().columns, p);
        }
    }
    let arity: FieldArity = if required {
        FieldArity::Required
    } else {
        FieldArity::Optional
    };
    RelationField::new(foreign_key.referenced_table.as_str(), arity, relation_info)
}

} // verus!
