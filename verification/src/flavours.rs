//! What differs from one kind of database to another.

use crate::dml::{Datamodel, EnumValueView, FieldArity};
use crate::native_types::{NativeType, PostgresType};
use crate::seqs::{lemma_map_step, lemma_of_nothing, lemma_take_ends};
use crate::sql_schema::{
    ColumnArity, ColumnType, ColumnTypeFamily, ColumnTypeFamilyView, ColumnTypeView, Enum, EnumView,
};
use crate::text::{concat, names_contain};
use vstd::prelude::*;
use vstd::string::*;

verus! {

/// What becomes of the values of a column when its type changes.
#[derive(Debug, PartialEq, Eq, Structural, Clone, Copy)]
pub enum ColumnTypeChange {
    /// Every value can be kept.
    SafeCast,
    /// Some value may not be kept.
    RiskyCast,
}

/// Whether MariaDB takes the family for text: JSON is text there.
pub open spec fn mariadb_text(family: ColumnTypeFamilyView) -> bool {
    family is String || family is Json
}

/// The values of `previous` that are not among `next`.
pub open spec fn value_lost(next: Seq<Seq<char>>) -> spec_fn(Seq<char>) -> bool {
    |v: Seq<char>| !next.contains(v)
}

/// What becomes of the values of a MySQL column when its type changes from
/// one family to another. On MariaDB a change between text and JSON is
/// none. Any type can be cast to text safely; any other change of family
/// is risky. An enum whose values change can be cast safely where it loses
/// no value.
pub open spec fn type_change(
    is_mariadb: bool,
    previous: ColumnTypeFamilyView,
    next: ColumnTypeFamilyView,
    previous_values: Option<Seq<Seq<char>>>,
    next_values: Option<Seq<Seq<char>>>,
) -> Option<ColumnTypeChange> {
    if is_mariadb && mariadb_text(previous) && mariadb_text(next) {
        None
    } else if previous != next {
        if next is String {
            Some(ColumnTypeChange::SafeCast)
        } else {
            Some(ColumnTypeChange::RiskyCast)
        }
    } else {
        match (previous_values, next_values) {
            (Some(p), Some(n)) => if p == n {
                None
            } else if crate::seqs::any(p, value_lost(n)) {
                Some(ColumnTypeChange::RiskyCast)
            } else {
                Some(ColumnTypeChange::SafeCast)
            },
            _ => None,
        }
    }
}

fn is_mariadb_text(family: &ColumnTypeFamily) -> (r: bool)
    ensures
        r == mariadb_text(family.deep_view()),
{
    matches!(family, ColumnTypeFamily::String | ColumnTypeFamily::Json)
}

/// What becomes of the values of a MySQL column when its type changes.
/// The enums are those of the two columns, where their types are enums.
#[verifier::loop_isolation(false)]
pub fn column_type_change(
    is_mariadb: bool,
    previous: &ColumnTypeFamily,
    next: &ColumnTypeFamily,
    previous_enum: Option<&Enum>,
    next_enum: Option<&Enum>,
) -> (r: Option<ColumnTypeChange>)
    ensures
        r == type_change(
            is_mariadb,
            previous.deep_view(),
            next.deep_view(),
            match previous_enum {
                Some(e) => Some(e.deep_view().values),
                None => None,
            },
            match next_enum {
                Some(e) => Some(e.deep_view().values),
                None => None,
            },
        ),
{
    if is_mariadb && is_mariadb_text(previous) && is_mariadb_text(next) {
        return None;
    }
    if !crate::seqs::Same::same(previous, next) {
        return match next {
            ColumnTypeFamily::String => Some(ColumnTypeChange::SafeCast),
            _ => Some(ColumnTypeChange::RiskyCast),
        };
    }
    match (previous_enum, next_enum) {
        (Some(p), Some(n)) => {
            if crate::text::names_eq(&p.values, &n.values) {
                return None;
            }
            let ghost lost = value_lost(n.deep_view().values);
            let ghost pv = p.deep_view().values;
            let mut i: usize = 0;
            while i < p.values.len()
                invariant
                    i <= p.values.len(),
                    forall|j: int| 0 <= j < i ==> !lost(#[trigger] pv[j]),
                decreases p.values.len() - i,
            {
                assert(pv[i as int] == p.values[i as int]@);
                if !names_contain(&n.values, p.values[i].as_str()) {
                    proof {
                        crate::seqs::lemma_position_is(pv, lost, i as int);
                    }
                    return Some(ColumnTypeChange::RiskyCast);
                }
                i = i + 1;
            }
            proof {
                crate::seqs::lemma_position_none(pv, lost);
            }
            Some(ColumnTypeChange::SafeCast)
        },
        _ => None,
    }
}

/// The number of bytes that a name can have on MySQL.
pub const MYSQL_IDENTIFIER_SIZE_LIMIT: usize = 64;

/// Whether an index was given another name. MySQL cuts a name off after 64
/// bytes: a name of 64 bytes is the same as a longer name that begins with
/// it.
pub open spec fn index_renamed(previous: Seq<u8>, next: Seq<u8>) -> bool {
    if previous.len() == 64 && next.len() > 64 {
        previous != next.subrange(0, 64)
    } else {
        previous != next
    }
}

/// Whether an index was given another name.
#[verifier::loop_isolation(false)]
pub fn index_should_be_renamed(previous: &str, next: &str) -> (r: bool)
    ensures
        r == index_renamed(previous.spec_bytes(), next.spec_bytes()),
{
    let p: &[u8] = previous.as_bytes();
    let n: &[u8] = next.as_bytes();
    let cut: bool = p.len() == MYSQL_IDENTIFIER_SIZE_LIMIT && n.len() > MYSQL_IDENTIFIER_SIZE_LIMIT;
    if !cut && p.len() != n.len() {
        return true;
    }
    let mut i: usize = 0;
    while i < p.len()
        invariant
            i <= p.len(),
            p.len() <= n.len(),
            forall|j: int| 0 <= j < i ==> p@[j] == n@[j],
        decreases p.len() - i,
    {
        if p[i] != n[i] {
            proof {
                if cut {
                    assert(n@.subrange(0, 64)[i as int] == n@[i as int]);
                }
            }
            return true;
        }
        i = i + 1;
    }
    proof {
        if cut {
            assert(p@ =~= n@.subrange(0, 64));
        } else {
            assert(p@ =~= n@);
        }
    }
    false
}

/// The character of a digit.
pub open spec fn digit_char(d: int) -> char {
    if d == 0 {
        '0'
    } else if d == 1 {
        '1'
    } else if d == 2 {
        '2'
    } else if d == 3 {
        '3'
    } else if d == 4 {
        '4'
    } else if d == 5 {
        '5'
    } else if d == 6 {
        '6'
    } else if d == 7 {
        '7'
    } else if d == 8 {
        '8'
    } else {
        '9'
    }
}

/// A number in decimal digits.
pub open spec fn decimal_text(n: nat) -> Seq<char>
    decreases n,
{
    if n < 10 {
        seq![digit_char(n as int)]
    } else {
        decimal_text(n / 10).push(digit_char((n % 10) as int))
    }
}

fn digit_text(d: u32) -> (r: &'static str)
    requires
        d < 10,
    ensures
        r@ == seq![digit_char(d as int)],
{
    proof {
        reveal_strlit("0");
        reveal_strlit("1");
        reveal_strlit("2");
        reveal_strlit("3");
        reveal_strlit("4");
        reveal_strlit("5");
        reveal_strlit("6");
        reveal_strlit("7");
        reveal_strlit("8");
        reveal_strlit("9");
    }
    let r: &'static str = if d == 0 {
        "0"
    } else if d == 1 {
        "1"
    } else if d == 2 {
        "2"
    } else if d == 3 {
        "3"
    } else if d == 4 {
        "4"
    } else if d == 5 {
        "5"
    } else if d == 6 {
        "6"
    } else if d == 7 {
        "7"
    } else if d == 8 {
        "8"
    } else {
        "9"
    };
    assert(r@ =~= seq![digit_char(d as int)]);
    r
}

/// A number in decimal digits.
pub fn number_text(n: u32) -> (r: String)
    ensures
        r@ == decimal_text(n as nat),
    decreases n,
{
    if n < 10 {
        digit_text(n).to_owned()
    } else {
        let mut s: String = number_text(n / 10);
        s.append(digit_text(n % 10));
        assert(s@ =~= decimal_text((n / 10) as nat).push(digit_char((n % 10) as int)));
        s
    }
}

/// The size of a type in brackets, or nothing where the type has none.
pub open spec fn in_brackets(size: Option<u32>) -> Seq<char> {
    match size {
        Some(n) => "("@ + decimal_text(n as nat) + ")"@,
        None => Seq::empty(),
    }
}

/// A type with its size in brackets.
pub open spec fn sized_text(name: Seq<char>, n: u32) -> Seq<char> {
    name + "("@ + decimal_text(n as nat) + ")"@
}

/// A type with its precision and scale in brackets.
pub open spec fn scaled_text(name: Seq<char>, p: u32, s: u32) -> Seq<char> {
    name + "("@ + decimal_text(p as nat) + ", "@ + decimal_text(s as nat) + ")"@
}

/// How PostgreSQL writes a native type.
pub open spec fn postgres_type_text(t: PostgresType) -> Seq<char> {
    match t {
        PostgresType::SmallInt => "SMALLINT"@,
        PostgresType::Integer => "INTEGER"@,
        PostgresType::BigInt => "BIGINT"@,
        PostgresType::Decimal(p, s) => scaled_text("DECIMAL"@, p, s),
        PostgresType::Numeric(p, s) => scaled_text("NUMERIC"@, p, s),
        PostgresType::Real => "REAL"@,
        PostgresType::DoublePrecision => "DOUBLE PRECISION"@,
        PostgresType::SmallSerial => "SMALLSERIAL"@,
        PostgresType::Serial => "SERIAL"@,
        PostgresType::BigSerial => "BIGSERIAL"@,
        PostgresType::VarChar(n) => sized_text("VARCHAR"@, n),
        PostgresType::Char(n) => sized_text("CHAR"@, n),
        PostgresType::Text => "TEXT"@,
        PostgresType::ByteA => "BYTEA"@,
        PostgresType::Timestamp(p) => "TIMESTAMP"@ + in_brackets(p),
        PostgresType::TimestampWithTimeZone(p) => "TIMESTAMP"@ + in_brackets(p)
            + " WITH TIME ZONE"@,
        PostgresType::Date => "DATE"@,
        PostgresType::Time(p) => "TIME"@ + in_brackets(p),
        PostgresType::TimeWithTimeZone(p) => "TIMETZ"@ + in_brackets(p),
        PostgresType::Interval(p) => "INTERVAL"@ + in_brackets(p),
        PostgresType::Boolean => "BOOLEAN"@,
        PostgresType::Bit(n) => sized_text("BIT"@, n),
        PostgresType::VarBit(n) => sized_text("VARBIT"@, n),
        PostgresType::UUID => "UUID"@,
        PostgresType::XML => "XML"@,
        PostgresType::JSON => "JSON"@,
        PostgresType::JSONB => "JSONB"@,
    }
}

fn render(input: Option<u32>) -> (r: String)
    ensures
        r@ == in_brackets(input),
{
    match input {
        None => String::new(),
        Some(arg) => {
            let mut s: String = concat("(", number_text(arg).as_str());
            s.append(")");
            s
        },
    }
}

fn sized(name: &str, n: u32) -> (r: String)
    ensures
        r@ == sized_text(name@, n),
{
    let mut s: String = concat(name, "(");
    s.append(number_text(n).as_str());
    s.append(")");
    s
}

fn scaled(name: &str, p: u32, sc: u32) -> (r: String)
    ensures
        r@ == scaled_text(name@, p, sc),
{
    let mut s: String = concat(name, "(");
    s.append(number_text(p).as_str());
    s.append(", ");
    s.append(number_text(sc).as_str());
    s.append(")");
    s
}

/// How PostgreSQL writes a native type.
pub fn postgres_data_type(t: PostgresType) -> (r: String)
    ensures
        r@ == postgres_type_text(t),
{
    match t {
        PostgresType::SmallInt => "SMALLINT".to_owned(),
        PostgresType::Integer => "INTEGER".to_owned(),
        PostgresType::BigInt => "BIGINT".to_owned(),
        PostgresType::Decimal(p, s) => scaled("DECIMAL", p, s),
        PostgresType::Numeric(p, s) => scaled("NUMERIC", p, s),
        PostgresType::Real => "REAL".to_owned(),
        PostgresType::DoublePrecision => "DOUBLE PRECISION".to_owned(),
        PostgresType::SmallSerial => "SMALLSERIAL".to_owned(),
        PostgresType::Serial => "SERIAL".to_owned(),
        PostgresType::BigSerial => "BIGSERIAL".to_owned(),
        PostgresType::VarChar(n) => sized("VARCHAR", n),
        PostgresType::Char(n) => sized("CHAR", n),
        PostgresType::Text => "TEXT".to_owned(),
        PostgresType::ByteA => "BYTEA".to_owned(),
        PostgresType::Timestamp(p) => concat("TIMESTAMP", render(p).as_str()),
        PostgresType::TimestampWithTimeZone(p) => {
            let mut s: String = concat("TIMESTAMP", render(p).as_str());
            s.append(" WITH TIME ZONE");
            s
        },
        PostgresType::Date => "DATE".to_owned(),
        PostgresType::Time(p) => concat("TIME", render(p).as_str()),
        PostgresType::TimeWithTimeZone(p) => concat("TIMETZ", render(p).as_str()),
        PostgresType::Interval(p) => concat("INTERVAL", render(p).as_str()),
        PostgresType::Boolean => "BOOLEAN".to_owned(),
        PostgresType::Bit(n) => sized("BIT", n),
        PostgresType::VarBit(n) => sized("VARBIT", n),
        PostgresType::UUID => "UUID".to_owned(),
        PostgresType::XML => "XML".to_owned(),
        PostgresType::JSON => "JSON".to_owned(),
        PostgresType::JSONB => "JSONB".to_owned(),
    }
}

/// The type of the column that holds a field of a native type of
/// PostgreSQL.
pub fn column_type_for_native_type(arity: FieldArity, native_type: PostgresType) -> (r: ColumnType)
    ensures
        r.deep_view() == (ColumnTypeView {
            data_type: postgres_type_text(native_type),
            full_data_type: postgres_type_text(native_type),
            character_maximum_length: None,
            family: ColumnTypeFamilyView::String,
            arity: match arity {
                FieldArity::Required => ColumnArity::Required,
                FieldArity::Optional => ColumnArity::Nullable,
                FieldArity::List => ColumnArity::List,
            },
            native_type: Some(NativeType::Postgres(native_type)),
        }),
{
    let data_type: String = postgres_data_type(native_type);
    ColumnType {
        data_type: data_type.clone(),
        full_data_type: data_type,
        character_maximum_length: None,
        family: ColumnTypeFamily::String,
        arity: match arity {
            FieldArity::Required => ColumnArity::Required,
            FieldArity::Optional => ColumnArity::Nullable,
            FieldArity::List => ColumnArity::List,
        },
        native_type: Some(NativeType::Postgres(native_type)),
    }
}

/// The name of a value of an enum in the database.
pub open spec fn database_value() -> spec_fn(EnumValueView) -> Seq<char> {
    |v: EnumValueView|
        match v.database_name {
            Some(n) => n,
            None => v.name,
        }
}

/// The enum of the database that stands for an enum of a data model.
pub open spec fn database_enum() -> spec_fn(crate::dml::EnumView) -> EnumView {
    |e: crate::dml::EnumView|
        EnumView {
            name: match e.database_name {
                Some(n) => n,
                None => e.name,
            },
            values: e.values.map_values(database_value()),
        }
}

/// The enums that a PostgreSQL database holds for a data model.
#[verifier::loop_isolation(false)]
pub fn calculate_enums(data_model: &Datamodel) -> (r: Vec<Enum>)
    ensures
        r.deep_view() == data_model.deep_view().enums.map_values(database_enum()),
{
    let ghost es = data_model.deep_view().enums;
    let mut out: Vec<Enum> = Vec::new();
    let mut i: usize = 0;
    proof {
        lemma_take_ends(es);
        lemma_of_nothing(
            |e: crate::dml::EnumView| true,
            database_enum(),
            |e: crate::dml::EnumView| Seq::<int>::empty(),
        );
    }
    while i < data_model.enums.len()
        invariant
            i <= data_model.enums.len(),
            out.deep_view() == es.take(i as int).map_values(database_enum()),
        decreases data_model.enums.len() - i,
    {
        let e: &crate::dml::Enum = &data_model.enums[i];
        let ghost ev = es[i as int];
        assert(ev == e.deep_view());
        proof {
            lemma_map_step(es, database_enum(), i as int);
            lemma_take_ends(ev.values);
            lemma_of_nothing(
                |v: EnumValueView| true,
                database_value(),
                |v: EnumValueView| Seq::<int>::empty(),
            );
        }
        let mut values: Vec<String> = Vec::new();
        let mut k: usize = 0;
        while k < e.values.len()
            invariant
                k <= e.values.len(),
                values.deep_view() == ev.values.take(k as int).map_values(database_value()),
            decreases e.values.len() - k,
        {
            proof {
                lemma_map_step(ev.values, database_value(), k as int);
            }
            assert(ev.values[k as int] == e.values[k as int].deep_view());
            let ghost vb = values.deep_view();
            let name: String = match &e.values[k].database_name {
                Some(n) => n.clone(),
                None => e.values[k].name.clone(),
            };
            let ghost nv = name@;
            values.push(name);
            assert(values.deep_view() =~= vb.push(nv));
            k = k + 1;
        }
        let ghost ob = out.deep_view();
        let en = Enum {
            name: match &e.database_name {
                Some(n) => n.clone(),
                None => e.name.clone(),
            },
            values,
        };
        let ghost env = en.deep_view();
        out.push(en);
        assert(out.deep_view() =~= ob.push(env));
        i = i + 1;
    }
    out
}

} // verus!
