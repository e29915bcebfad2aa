use schema_engine::capabilities::Capabilities;
use schema_engine::dml::ScalarType;
use schema_engine::flavours::{
    column_type_change, index_should_be_renamed, number_text, postgres_data_type, ColumnTypeChange,
};
use schema_engine::native_types::PostgresType;
use schema_engine::sql_schema::mysql::{extract_precision, is_mariadb, Flavour};
use schema_engine::sql_schema::{parse_bool, parse_float, parse_int, unquote_string, Precision};
use schema_engine::sql_schema::ColumnTypeFamily;
use schema_engine::values::{Decimal, PrismaValue};

#[test]
fn integers_are_parsed_from_defaults() {
    assert_eq!(parse_int("42"), Some(PrismaValue::Int(42)));
    assert_eq!(parse_int("'5'"), Some(PrismaValue::Int(5)));
    assert_eq!(parse_int("-7"), None);
    assert_eq!(parse_int("99999999999999999999"), None);
    assert_eq!(parse_int("abc"), None);
    assert_eq!(parse_int(""), None);
}

#[test]
fn booleans_are_parsed_from_defaults() {
    assert_eq!(parse_bool("true"), Some(PrismaValue::Boolean(true)));
    assert_eq!(parse_bool("FALSE"), Some(PrismaValue::Boolean(false)));
    assert_eq!(parse_bool("True"), Some(PrismaValue::Boolean(true)));
    assert_eq!(parse_bool("1"), None);
    assert_eq!(parse_bool("yes"), None);
}

#[test]
fn floats_are_parsed_from_defaults() {
    assert_eq!(parse_float("1.5"), Some(PrismaValue::Float(Decimal { mantissa: 15, scale: 1 })));
    assert_eq!(parse_float("3"), Some(PrismaValue::Float(Decimal { mantissa: 3, scale: 0 })));
    assert_eq!(parse_float("abc"), None);
}

#[test]
fn quotes_are_taken_off_both_ends() {
    assert_eq!(unquote_string("'abc'"), "abc");
    assert_eq!(unquote_string("\"abc\""), "abc");
    assert_eq!(unquote_string("abc"), "abc");
    assert_eq!(unquote_string("''abc''"), "abc");
    assert_eq!(unquote_string("'a'b'"), "a'b");
}

#[test]
fn fallback_precisions_are_fixed() {
    let missing = Precision {
        character_maximum_length: None,
        numeric_precision: None,
        numeric_precision_radix: None,
        numeric_scale: None,
        time_precision: None,
    };
    assert_eq!(missing.numeric_precision(), 65);
    assert_eq!(missing.numeric_scale(), 30);
    assert_eq!(missing.character_max_length(), 64000);
    assert_eq!(missing.time_precision(), None);
    let known = Precision {
        character_maximum_length: Some(191),
        numeric_precision: Some(10),
        numeric_precision_radix: Some(10),
        numeric_scale: Some(2),
        time_precision: Some(3),
    };
    assert_eq!(known.numeric_precision(), 10);
    assert_eq!(known.numeric_scale(), 2);
    assert_eq!(known.character_max_length(), 191);
    assert_eq!(known.time_precision(), Some(3));
}

#[test]
fn precision_is_read_from_the_type() {
    assert_eq!(extract_precision("datetime(3)"), Some(3));
    assert_eq!(extract_precision("timestamp(6)"), Some(6));
    assert_eq!(extract_precision("datetime"), None);
    assert_eq!(extract_precision("varchar(255)"), None);
}

#[test]
fn mariadb_is_told_by_its_version() {
    assert!(is_mariadb("5.5.5-10.1.40-MariaDB-0ubuntu0.18.04.1"));
    assert!(!is_mariadb("8.0.21"));
    assert_eq!(Flavour::from_version("10.4.1-MariaDB"), Flavour::MariaDb);
    assert_eq!(Flavour::from_version("5.7.31"), Flavour::Mysql);
}

#[test]
fn capabilities_are_known_by_name() {
    assert_eq!(Capabilities::from_str("enums").ok(), Some(Capabilities::Enums));
    assert_eq!(Capabilities::from_str("json").ok(), Some(Capabilities::Json));
    assert_eq!(Capabilities::from_str("scalar_lists").ok(), Some(Capabilities::ScalarLists));
    let unknown = Capabilities::from_str("doEverything").unwrap_err();
    assert_eq!(unknown.0, "doEverything");
}

#[test]
fn scalar_types_round_trip_through_their_names() {
    for t in [
        ScalarType::Int,
        ScalarType::Float,
        ScalarType::Boolean,
        ScalarType::String,
        ScalarType::DateTime,
        ScalarType::Json,
    ]
    .iter()
    {
        assert_eq!(ScalarType::from_str(&t.to_string()).ok(), Some(*t));
    }
    assert_eq!(ScalarType::Int.to_string(), "Int");
    assert!(ScalarType::from_str("Blob").is_err());
}

#[test]
fn numbers_are_written_in_decimal() {
    assert_eq!(number_text(0), "0");
    assert_eq!(number_text(7), "7");
    assert_eq!(number_text(255), "255");
    assert_eq!(number_text(4294967295), "4294967295");
}

#[test]
fn postgres_types_are_written_with_their_sizes() {
    assert_eq!(postgres_data_type(PostgresType::VarChar(191)), "VARCHAR(191)");
    assert_eq!(postgres_data_type(PostgresType::Numeric(10, 2)), "NUMERIC(10, 2)");
    assert_eq!(postgres_data_type(PostgresType::Integer), "INTEGER");
}

#[test]
fn an_index_is_renamed_when_its_name_differs() {
    assert!(index_should_be_renamed("a_idx", "b_idx"));
    assert!(!index_should_be_renamed("a_idx", "a_idx"));
    let cut = "x".repeat(64);
    let long = "x".repeat(70);
    assert!(!index_should_be_renamed(&cut, &long));
    assert!(index_should_be_renamed(&"x".repeat(63), &long));
    assert!(index_should_be_renamed(&"y".repeat(64), &long));
}

#[test]
fn a_changed_family_is_a_cast() {
    assert_eq!(
        column_type_change(false, &ColumnTypeFamily::Int, &ColumnTypeFamily::Int, None, None),
        None
    );
    assert_eq!(
        column_type_change(false, &ColumnTypeFamily::Int, &ColumnTypeFamily::String, None, None),
        Some(ColumnTypeChange::SafeCast)
    );
    assert_eq!(
        column_type_change(false, &ColumnTypeFamily::String, &ColumnTypeFamily::Int, None, None),
        Some(ColumnTypeChange::RiskyCast)
    );
    assert_eq!(
        column_type_change(true, &ColumnTypeFamily::String, &ColumnTypeFamily::Json, None, None),
        None
    );
    assert_eq!(
        column_type_change(false, &ColumnTypeFamily::String, &ColumnTypeFamily::Json, None, None),
        Some(ColumnTypeChange::RiskyCast)
    );
}
