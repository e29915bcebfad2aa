//! From what MySQL reports of a column to the column.

use crate::native_types::{MySqlType, NativeType};
use crate::patterns::{first_group, found_in};
use crate::sql_schema::mysql::{
    default_is_current_timestamp, enum_type_text, enum_values_of, extract_enum_values,
    extract_precision, precision_of, precision_pattern, quoted_default, timestamp_pattern,
    unescape_and_unquote_default_string, unescaped_default, Flavour,
};
use crate::sql_schema::parsing::{
    decimal_constant, integer_constant, integer_pattern, number_pattern, parse_float, parse_int,
    unquote_string, unquoted, Precision,
};
use crate::sql_schema::{
    ColumnArity, ColumnType, ColumnTypeFamily, ColumnTypeFamilyView, ColumnTypeView, DefaultValue,
    DefaultValueView, Enum, EnumView,
};
use crate::text::{concat, str_eq};
use crate::values::{replace_text, replaced_text, PrismaValue, PrismaValueView};
use vstd::prelude::*;
use vstd::string::*;

verus! {

/// Whether the default of a column says that the column cannot hold a
/// boolean value: it is an integer other than 0 and 1.
pub open spec fn other_than_boolean(default: Option<Seq<char>>) -> bool {
    match default {
        Some(d) => d != "NULL"@ && match integer_constant(first_group(integer_pattern(), d)) {
            Some(PrismaValueView::Int(n)) => n != 0 && n != 1,
            _ => false,
        },
        None => false,
    }
}

/// The sizes with the values that stand in for those that are missing.
pub open spec fn precision_or(p: Option<u32>, fallback: u32) -> u32 {
    match p {
        Some(x) => x,
        None => fallback,
    }
}

/// The family and the native type of a column of the given data type.
pub open spec fn family_of(
    table: Seq<char>,
    column_name: Seq<char>,
    data_type: Seq<char>,
    full_data_type: Seq<char>,
    precision: Precision,
    default: Option<Seq<char>>,
) -> (ColumnTypeFamilyView, Option<MySqlType>) {
    let numeric_precision = precision_or(precision.numeric_precision, 65);
    let numeric_scale = precision_or(precision.numeric_scale, 30);
    let length = precision_or(precision.character_maximum_length, 64000);
    let unsupported = (ColumnTypeFamilyView::Unsupported(full_data_type), None::<MySqlType>);
    if data_type == "int"@ {
        (ColumnTypeFamilyView::Int, Some(MySqlType::Int))
    } else if data_type == "smallint"@ {
        (ColumnTypeFamilyView::Int, Some(MySqlType::SmallInt))
    } else if data_type == "tinyint"@ {
        if precision_of(first_group(precision_pattern(), full_data_type)) == Some(1u32)
            && !other_than_boolean(default) {
            (ColumnTypeFamilyView::Boolean, Some(MySqlType::TinyInt))
        } else {
            (ColumnTypeFamilyView::Int, Some(MySqlType::TinyInt))
        }
    } else if data_type == "mediumint"@ {
        (ColumnTypeFamilyView::Int, Some(MySqlType::MediumInt))
    } else if data_type == "bigint"@ {
        (ColumnTypeFamilyView::Int, Some(MySqlType::BigInt))
    } else if data_type == "decimal"@ {
        (ColumnTypeFamilyView::Decimal, Some(MySqlType::Decimal(numeric_precision, numeric_scale)))
    } else if data_type == "numeric"@ {
        (ColumnTypeFamilyView::Decimal, Some(MySqlType::Numeric(numeric_precision, numeric_scale)))
    } else if data_type == "float"@ {
        (ColumnTypeFamilyView::Float, Some(MySqlType::Float))
    } else if data_type == "double"@ {
        (ColumnTypeFamilyView::Float, Some(MySqlType::Double))
    } else if data_type == "char"@ {
        (ColumnTypeFamilyView::String, Some(MySqlType::Char(length)))
    } else if data_type == "varchar"@ {
        (ColumnTypeFamilyView::String, Some(MySqlType::VarChar(length)))
    } else if data_type == "text"@ {
        (ColumnTypeFamilyView::String, Some(MySqlType::Text))
    } else if data_type == "tinytext"@ {
        (ColumnTypeFamilyView::String, Some(MySqlType::TinyText))
    } else if data_type == "mediumtext"@ {
        (ColumnTypeFamilyView::String, Some(MySqlType::MediumText))
    } else if data_type == "longtext"@ {
        (ColumnTypeFamilyView::String, Some(MySqlType::LongText))
    } else if data_type == "enum"@ {
        (ColumnTypeFamilyView::Enum(table + "_"@ + column_name), None)
    } else if data_type == "json"@ {
        (ColumnTypeFamilyView::Json, Some(MySqlType::JSON))
    } else if data_type == "set"@ {
        (ColumnTypeFamilyView::String, None)
    } else if data_type == "date"@ {
        (ColumnTypeFamilyView::DateTime, Some(MySqlType::Date))
    } else if data_type == "time"@ {
        (ColumnTypeFamilyView::DateTime, Some(MySqlType::Time(precision.time_precision)))
    } else if data_type == "datetime"@ {
        (ColumnTypeFamilyView::DateTime, Some(MySqlType::DateTime(precision.time_precision)))
    } else if data_type == "timestamp"@ {
        (ColumnTypeFamilyView::DateTime, Some(MySqlType::Timestamp(precision.time_precision)))
    } else if data_type == "year"@ {
        (ColumnTypeFamilyView::Int, Some(MySqlType::Year))
    } else if data_type == "bit"@ {
        (ColumnTypeFamilyView::Binary, Some(MySqlType::Bit(numeric_precision)))
    } else if data_type == "binary"@ {
        (ColumnTypeFamilyView::Binary, Some(MySqlType::Binary(length)))
    } else if data_type == "varbinary"@ {
        (ColumnTypeFamilyView::Binary, Some(MySqlType::VarBinary(length)))
    } else if data_type == "blob"@ {
        (ColumnTypeFamilyView::Binary, Some(MySqlType::Blob))
    } else if data_type == "tinyblob"@ {
        (ColumnTypeFamilyView::Binary, Some(MySqlType::TinyBlob))
    } else if data_type == "mediumblob"@ {
        (ColumnTypeFamilyView::Binary, Some(MySqlType::MediumBlob))
    } else if data_type == "longblob"@ {
        (ColumnTypeFamilyView::Binary, Some(MySqlType::LongBlob))
    } else {
        unsupported
    }
}

/// The type of a column of the given data type, and the enum that the
/// column makes, if its type is an enum.
pub open spec fn column_type_of(
    table: Seq<char>,
    column_name: Seq<char>,
    data_type: Seq<char>,
    full_data_type: Seq<char>,
    precision: Precision,
    arity: ColumnArity,
    default: Option<Seq<char>>,
) -> (ColumnTypeView, Option<EnumView>) {
    let (family, native) = family_of(table, column_name, data_type, full_data_type, precision, default);
    let tpe = ColumnTypeView {
        data_type,
        full_data_type,
        character_maximum_length: precision.character_maximum_length,
        family,
        arity,
        native_type: match native {
            Some(n) => Some(NativeType::MySql(n)),
            None => None,
        },
    };
    match family {
        ColumnTypeFamilyView::Enum(name) => (
            tpe,
            Some(EnumView { name, values: enum_values_of(full_data_type) }),
        ),
        _ => (tpe, None),
    }
}

fn invalid_bool_default(default: Option<&str>) -> (r: bool)
    ensures
        r == other_than_boolean(
            match default {
                Some(d) => Some(d@),
                None => None,
            },
        ),
{
    match default {
        Some(d) => {
            if str_eq(d, "NULL") {
                false
            } else {
                match parse_int(d) {
                    Some(PrismaValue::Int(n)) => n != 0 && n != 1,
                    _ => false,
                }
            }
        },
        None => false,
    }
}

/// The type of a column, and the enum that the column makes, if its type
/// is an enum.
pub fn get_column_type_and_enum(
    table: &str,
    column_name: &str,
    data_type: &str,
    full_data_type: &str,
    precision: Precision,
    arity: ColumnArity,
    default: Option<&str>,
) -> (r: (ColumnType, Option<Enum>))
    requires
        data_type@ == "enum"@ ==> enum_type_text(full_data_type@),
    ensures
        (r.0.deep_view(), r.1.deep_view()) == column_type_of(
            table@,
            column_name@,
            data_type@,
            full_data_type@,
            precision,
            arity,
            match default {
                Some(d) => Some(d@),
                None => None,
            },
        ),
{
    let (family, native_type): (ColumnTypeFamily, Option<MySqlType>) = if str_eq(data_type, "int") {
        (ColumnTypeFamily::Int, Some(MySqlType::Int))
    } else if str_eq(data_type, "smallint") {
        (ColumnTypeFamily::Int, Some(MySqlType::SmallInt))
    } else if str_eq(data_type, "tinyint") {
        let tiny1: bool = match extract_precision(full_data_type) {
            Some(1) => true,
            _ => false,
        };
        if tiny1 && !invalid_bool_default(default) {
            (ColumnTypeFamily::Boolean, Some(MySqlType::TinyInt))
        } else {
            (ColumnTypeFamily::Int, Some(MySqlType::TinyInt))
        }
    } else if str_eq(data_type, "mediumint") {
        (ColumnTypeFamily::Int, Some(MySqlType::MediumInt))
    } else if str_eq(data_type, "bigint") {
        (ColumnTypeFamily::Int, Some(MySqlType::BigInt))
    } else if str_eq(data_type, "decimal") {
        (
            ColumnTypeFamily::Decimal,
            Some(MySqlType::Decimal(precision.numeric_precision(), precision.numeric_scale())),
        )
    } else if str_eq(data_type, "numeric") {
        (
            ColumnTypeFamily::Decimal,
            Some(MySqlType::Numeric(precision.numeric_precision(), precision.numeric_scale())),
        )
    } else if str_eq(data_type, "float") {
        (ColumnTypeFamily::Float, Some(MySqlType::Float))
    } else if str_eq(data_type, "double") {
        (ColumnTypeFamily::Float, Some(MySqlType::Double))
    } else if str_eq(data_type, "char") {
        (ColumnTypeFamily::String, Some(MySqlType::Char(precision.character_max_length())))
    } else if str_eq(data_type, "varchar") {
        (ColumnTypeFamily::String, Some(MySqlType::VarChar(precision.character_max_length())))
    } else if str_eq(data_type, "text") {
        (ColumnTypeFamily::String, Some(MySqlType::Text))
    } else if str_eq(data_type, "tinytext") {
        (ColumnTypeFamily::String, Some(MySqlType::TinyText))
    } else if str_eq(data_type, "mediumtext") {
        (ColumnTypeFamily::String, Some(MySqlType::MediumText))
    } else if str_eq(data_type, "longtext") {
        (ColumnTypeFamily::String, Some(MySqlType::LongText))
    } else if str_eq(data_type, "enum") {
        let mut name: String = concat(table, "_");
        name.append(column_name);
        (ColumnTypeFamily::Enum(name), None)
    } else if str_eq(data_type, "json") {
        (ColumnTypeFamily::Json, Some(MySqlType::JSON))
    } else if str_eq(data_type, "set") {
        (ColumnTypeFamily::String, None)
    } else if str_eq(data_type, "date") {
        (ColumnTypeFamily::DateTime, Some(MySqlType::Date))
    } else if str_eq(data_type, "time") {
        (ColumnTypeFamily::DateTime, Some(MySqlType::Time(precision.time_precision())))
    } else if str_eq(data_type, "datetime") {
        (ColumnTypeFamily::DateTime, Some(MySqlType::DateTime(precision.time_precision())))
    } else if str_eq(data_type, "timestamp") {
        (ColumnTypeFamily::DateTime, Some(MySqlType::Timestamp(precision.time_precision())))
    } else if str_eq(data_type, "year") {
        (ColumnTypeFamily::Int, Some(MySqlType::Year))
    } else if str_eq(data_type, "bit") {
        (ColumnTypeFamily::Binary, Some(MySqlType::Bit(precision.numeric_precision())))
    } else if str_eq(data_type, "binary") {
        (ColumnTypeFamily::Binary, Some(MySqlType::Binary(precision.character_max_length())))
    } else if str_eq(data_type, "varbinary") {
        (ColumnTypeFamily::Binary, Some(MySqlType::VarBinary(precision.character_max_length())))
    } else if str_eq(data_type, "blob") {
        (ColumnTypeFamily::Binary, Some(MySqlType::Blob))
    } else if str_eq(data_type, "tinyblob") {
        (ColumnTypeFamily::Binary, Some(MySqlType::TinyBlob))
    } else if str_eq(data_type, "mediumblob") {
        (ColumnTypeFamily::Binary, Some(MySqlType::MediumBlob))
    } else if str_eq(data_type, "longblob") {
        (ColumnTypeFamily::Binary, Some(MySqlType::LongBlob))
    } else {
        (ColumnTypeFamily::Unsupported(full_data_type.to_owned()), None)
    };
    let enm: Option<Enum> = match &family {
        ColumnTypeFamily::Enum(name) => Some(
            Enum { name: name.clone(), values: extract_enum_values(full_data_type) },
        ),
        _ => None,
    };
    let tpe = ColumnType {
        data_type: data_type.to_owned(),
        full_data_type: full_data_type.to_owned(),
        character_maximum_length: precision.character_maximum_length,
        family,
        arity,
        native_type: match native_type {
            Some(n) => Some(NativeType::MySql(n)),
            None => None,
        },
    };
    (tpe, enm)
}

/// The default of a column, read from the text in which the server
/// reports it. A text that cannot be read as a constant of the column's
/// family stands for a default that the database makes.
pub open spec fn default_of(
    family: ColumnTypeFamilyView,
    default: Seq<char>,
    flavour: Flavour,
) -> DefaultValueView {
    let generated = DefaultValueView::DBGENERATED(default);
    match family {
        ColumnTypeFamilyView::Int => match integer_constant(first_group(integer_pattern(), default)) {
            Some(v) => DefaultValueView::VALUE(v),
            None => generated,
        },
        ColumnTypeFamilyView::Float => match decimal_constant(first_group(number_pattern(), default)) {
            Some(v) => DefaultValueView::VALUE(v),
            None => generated,
        },
        ColumnTypeFamilyView::Decimal => match decimal_constant(
            first_group(number_pattern(), default),
        ) {
            Some(v) => DefaultValueView::VALUE(v),
            None => generated,
        },
        ColumnTypeFamilyView::Boolean => match integer_constant(
            first_group(integer_pattern(), default),
        ) {
            Some(PrismaValueView::Int(n)) => if n == 1 {
                DefaultValueView::VALUE(PrismaValueView::Boolean(true))
            } else if n == 0 {
                DefaultValueView::VALUE(PrismaValueView::Boolean(false))
            } else {
                generated
            },
            _ => generated,
        },
        ColumnTypeFamilyView::String => DefaultValueView::VALUE(
            PrismaValueView::String(unescaped_default(default, flavour)),
        ),
        ColumnTypeFamilyView::DateTime => if found_in(timestamp_pattern(), default) {
            DefaultValueView::NOW
        } else {
            generated
        },
        ColumnTypeFamilyView::Enum(_) => DefaultValueView::VALUE(
            PrismaValueView::Enum(
                unquoted(replaced_text(replaced_text(default, "_utf8mb4"@, ""@), "\\\'"@, ""@)),
            ),
        ),
        _ => generated,
    }
}

/// The default of a column, read from the text in which the server reports it.
pub fn column_default(
    family: &ColumnTypeFamily,
    default_string: String,
    flavour: &Flavour,
) -> (r: DefaultValue)
    requires
        family.deep_view() is String ==> quoted_default(default_string@, *flavour),
    ensures
        r.deep_view() == default_of(family.deep_view(), default_string@, *flavour),
{
    match family {
        ColumnTypeFamily::Int => match parse_int(default_string.as_str()) {
            Some(v) => DefaultValue::VALUE(v),
            None => DefaultValue::DBGENERATED(default_string),
        },
        ColumnTypeFamily::Float => match parse_float(default_string.as_str()) {
            Some(v) => DefaultValue::VALUE(v),
            None => DefaultValue::DBGENERATED(default_string),
        },
        ColumnTypeFamily::Decimal => match parse_float(default_string.as_str()) {
            Some(v) => DefaultValue::VALUE(v),
            None => DefaultValue::DBGENERATED(default_string),
        },
        ColumnTypeFamily::Boolean => match parse_int(default_string.as_str()) {
            Some(PrismaValue::Int(1)) => DefaultValue::VALUE(PrismaValue::Boolean(true)),
            Some(PrismaValue::Int(0)) => DefaultValue::VALUE(PrismaValue::Boolean(false)),
            _ => DefaultValue::DBGENERATED(default_string),
        },
        ColumnTypeFamily::String => DefaultValue::VALUE(
            PrismaValue::String(unescape_and_unquote_default_string(default_string, flavour)),
        ),
        ColumnTypeFamily::DateTime => {
            if default_is_current_timestamp(default_string.as_str()) {
                DefaultValue::NOW
            } else {
                DefaultValue::DBGENERATED(default_string)
            }
        },
        ColumnTypeFamily::Enum(_) => {
            let a: String = replace_text(default_string.as_str(), "_utf8mb4", "");
            let b: String = replace_text(a.as_str(), "\\\'", "");
            DefaultValue::VALUE(PrismaValue::Enum(unquote_string(b.as_str())))
        },
        _ => DefaultValue::DBGENERATED(default_string),
    }
}

} // verus!
