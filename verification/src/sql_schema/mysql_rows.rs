//! From the rows in which MySQL reports its columns to the columns of a
//! table.

use crate::sql_schema::mysql::{enum_type_text, quoted_default, Flavour};
use crate::sql_schema::mysql_columns::{
    column_default, column_type_of, default_of, get_column_type_and_enum,
};
use crate::sql_schema::parsing::Precision;
use crate::sql_schema::{
    Column, ColumnArity, ColumnTypeFamilyView, ColumnView, DefaultValue, Enum, EnumView,
};
use crate::seqs::{
    lemma_filter_step, lemma_of_nothing, lemma_position_is, lemma_take_ends, position,
};
use crate::text::str_eq;
use crate::values::{lowercase, to_lowercase};
use vstd::prelude::*;
use vstd::string::*;

verus! {

/// What the server reports of a column.
#[derive(Debug, PartialEq)]
pub struct ColumnRow {
    pub table_name: String,
    pub column_name: String,
    pub data_type: String,
    pub full_data_type: String,
    /// Whether the column can be null: `YES` or `NO`, in any case of letters.
    pub is_nullable: String,
    pub character_maximum_length: Option<i64>,
    pub numeric_precision: Option<i64>,
    pub numeric_scale: Option<i64>,
    pub datetime_precision: Option<i64>,
    pub column_default: Option<String>,
    /// What else the server says of the column, such as `auto_increment`.
    pub extra: String,
}

/// Why a row could not be read.
#[derive(Debug, PartialEq)]
pub enum RowError {
    /// The row does not say whether the column can be null.
    UnrecognizedNullable { found: String },
    /// The full data type of an enum is too short to hold values.
    MalformedEnumType { found: String },
    /// The default of a column of text does not stand between quotes.
    MalformedDefault { found: String },
}

pub enum RowErrorView {
    UnrecognizedNullable { found: Seq<char> },
    MalformedEnumType { found: Seq<char> },
    MalformedDefault { found: Seq<char> },
}

impl DeepView for RowError {
    type V = RowErrorView;

    open spec fn deep_view(&self) -> RowErrorView {
        match self {
            RowError::UnrecognizedNullable { found } => RowErrorView::UnrecognizedNullable {
                found: found@,
            },
            RowError::MalformedEnumType { found } => RowErrorView::MalformedEnumType {
                found: found@,
            },
            RowError::MalformedDefault { found } => RowErrorView::MalformedDefault { found: found@ },
        }
    }
}

/// A size as the library holds it: the low 32 bits of what the server reports.
pub open spec fn size_of(x: Option<i64>) -> Option<u32> {
    match x {
        Some(v) => Some((v as int % 0x1_0000_0000) as u32),
        None => None,
    }
}

fn to_size(x: Option<i64>) -> (r: Option<u32>)
    ensures
        r == size_of(x),
{
    match x {
        Some(v) => {
            let m: i64 = 4294967296;
            let rem: i64 = v % m;
            let low: i64 = if rem < 0 {
                rem + m
            } else {
                rem
            };
            assert(low as int == v as int % 0x1_0000_0000) by {
                assert(v as int % 0x1_0000_0000 == low as int) by (nonlinear_arith)
                    requires
                        m == 0x1_0000_0000,
                        rem as int == v as int - (v as int / 0x1_0000_0000) * 0x1_0000_0000 || rem as int
                            == v as int - ((v as int / 0x1_0000_0000) + 1) * 0x1_0000_0000,
                        low as int == if (rem as int) < 0 {
                            rem as int + 0x1_0000_0000
                        } else {
                            rem as int
                        },
                        0 <= low < 0x1_0000_0000,
                ;
            }
            Some(low as u32)
        },
        None => None,
    }
}

impl ColumnRow {
    /// The sizes that the row reports.
    pub open spec fn precision(self) -> Precision {
        Precision {
            character_maximum_length: size_of(self.character_maximum_length),
            numeric_precision: size_of(self.numeric_precision),
            numeric_precision_radix: None,
            numeric_scale: size_of(self.numeric_scale),
            time_precision: size_of(self.datetime_precision),
        }
    }

    /// The default that the row reports, if the column has one.
    pub open spec fn reported_default(self) -> Option<Seq<char>> {
        match self.column_default {
            Some(d) => if d@ == "NULL"@ {
                None
            } else {
                Some(d@)
            },
            None => None,
        }
    }

    /// The default as the server wrote it, whatever it says.
    pub open spec fn raw_default(self) -> Option<Seq<char>> {
        match self.column_default {
            Some(d) => Some(d@),
            None => None,
        }
    }

    /// The arity of the column, if the row tells it.
    pub open spec fn arity(self) -> Option<ColumnArity> {
        if lowercase(self.is_nullable@) == "no"@ {
            Some(ColumnArity::Required)
        } else if lowercase(self.is_nullable@) == "yes"@ {
            Some(ColumnArity::Nullable)
        } else {
            None
        }
    }

    /// Whether the row can be read: it tells the arity of the column, the
    /// type of an enum holds values, and where a column of text is reported
    /// by MariaDB its default stands between quotes.
    pub open spec fn readable(self, flavour: Flavour) -> bool {
        &&& self.arity() is Some
        &&& self.data_type@ == "enum"@ ==> enum_type_text(self.full_data_type@)
        &&& (self.column_family() is String && self.reported_default() is Some) ==> quoted_default(
            self.reported_default()->Some_0,
            flavour,
        )
    }

    /// Why a row that cannot be read cannot be read: the first of the
    /// three things that it fails to tell.
    pub open spec fn failure(self) -> RowErrorView {
        if self.arity() is None {
            RowErrorView::UnrecognizedNullable { found: self.is_nullable@ }
        } else if self.data_type@ == "enum"@ && !enum_type_text(self.full_data_type@) {
            RowErrorView::MalformedEnumType { found: self.full_data_type@ }
        } else {
            RowErrorView::MalformedDefault {
                found: match self.reported_default() {
                    Some(d) => d,
                    None => Seq::empty(),
                },
            }
        }
    }

    /// The family of the column that the row reports.
    pub open spec fn column_family(self) -> ColumnTypeFamilyView {
        column_type_of(
            self.table_name@,
            self.column_name@,
            self.data_type@,
            self.full_data_type@,
            self.precision(),
            self.arity()->Some_0,
            self.raw_default(),
        ).0.family
    }

    /// The column that a readable row reports.
    pub open spec fn column(self, flavour: Flavour) -> ColumnView {
        let tpe = column_type_of(
            self.table_name@,
            self.column_name@,
            self.data_type@,
            self.full_data_type@,
            self.precision(),
            self.arity()->Some_0,
            self.raw_default(),
        ).0;
        ColumnView {
            name: self.column_name@,
            tpe,
            default: match self.reported_default() {
                Some(d) => Some(default_of(tpe.family, d, flavour)),
                None => None,
            },
            auto_increment: lowercase(self.extra@) == "auto_increment"@,
        }
    }

    /// The enum that a readable row reports, if the column makes one.
    pub open spec fn enumeration(self) -> Option<EnumView> {
        column_type_of(
            self.table_name@,
            self.column_name@,
            self.data_type@,
            self.full_data_type@,
            self.precision(),
            self.arity()->Some_0,
            self.raw_default(),
        ).1
    }
}

/// The rows that cannot be read.
pub open spec fn unreadable(flavour: Flavour) -> spec_fn(ColumnRow) -> bool {
    |row: ColumnRow| !row.readable(flavour)
}

/// The column and the enum that a row reports, or why the row cannot be read.
pub fn column_from_row(row: &ColumnRow, flavour: &Flavour) -> (r: Result<
    (Column, Option<Enum>),
    RowError,
>)
    ensures
        match r {
            Ok((column, enm)) => row.readable(*flavour) && column.deep_view() == row.column(
                *flavour,
            ) && enm.deep_view() == row.enumeration(),
            Err(e) => !row.readable(*flavour) && e.deep_view() == row.failure(),
        },
{
    let nullable: String = to_lowercase(row.is_nullable.as_str());
    let arity: ColumnArity = if str_eq(nullable.as_str(), "no") {
        ColumnArity::Required
    } else if str_eq(nullable.as_str(), "yes") {
        ColumnArity::Nullable
    } else {
        return Err(RowError::UnrecognizedNullable { found: row.is_nullable.clone() });
    };
    if str_eq(row.data_type.as_str(), "enum") && row.full_data_type.as_str().unicode_len() < 6 {
        return Err(RowError::MalformedEnumType { found: row.full_data_type.clone() });
    }
    let precision = Precision {
        character_maximum_length: to_size(row.character_maximum_length),
        numeric_precision: to_size(row.numeric_precision),
        numeric_precision_radix: None,
        numeric_scale: to_size(row.numeric_scale),
        time_precision: to_size(row.datetime_precision),
    };
    let raw: Option<&str> = match &row.column_default {
        Some(d) => Some(d.as_str()),
        None => None,
    };
    let (tpe, enm) = get_column_type_and_enum(
        row.table_name.as_str(),
        row.column_name.as_str(),
        row.data_type.as_str(),
        row.full_data_type.as_str(),
        precision,
        arity,
        raw,
    );
    let extra: String = to_lowercase(row.extra.as_str());
    let auto_increment: bool = str_eq(extra.as_str(), "auto_increment");
    let default: Option<DefaultValue> = match &row.column_default {
        None => None,
        Some(d) => {
            if str_eq(d.as_str(), "NULL") {
                None
            } else {
                let text: bool = matches!(tpe.family, crate::sql_schema::ColumnTypeFamily::String);
                if text && matches!(flavour, Flavour::MariaDb) && d.as_str().unicode_len() < 2 {
                    return Err(RowError::MalformedDefault { found: d.clone() });
                }
                Some(column_default(&tpe.family, d.clone(), flavour))
            }
        },
    };
    Ok((Column { name: row.column_name.clone(), tpe, default, auto_increment }, enm))
}

/// The rows of the given table.
pub open spec fn of_table(table: Seq<char>) -> spec_fn(ColumnRow) -> bool {
    |row: ColumnRow| row.table_name@ == table
}

/// The columns that the first `k` rows report.
pub open spec fn columns_upto(rows: Seq<ColumnRow>, flavour: Flavour, k: int) -> Seq<ColumnView>
    decreases k,
{
    if k <= 0 {
        Seq::empty()
    } else {
        columns_upto(rows, flavour, k - 1).push(rows[k - 1].column(flavour))
    }
}

/// The enums that the first `k` rows report.
pub open spec fn enums_upto(rows: Seq<ColumnRow>, k: int) -> Seq<EnumView>
    decreases k,
{
    if k <= 0 {
        Seq::empty()
    } else {
        match rows[k - 1].enumeration() {
            Some(e) => enums_upto(rows, k - 1).push(e),
            None => enums_upto(rows, k - 1),
        }
    }
}

/// The columns of a table and the enums that they make, in the order of
/// the rows that report them; or why the first row that cannot be read
/// cannot be read.
#[verifier::loop_isolation(false)]
pub fn get_all_columns(rows: &Vec<ColumnRow>, table: &str, flavour: &Flavour) -> (r: Result<
    (Vec<Column>, Vec<Enum>),
    RowError,
>)
    ensures
        ({
            let mine = rows@.filter(of_table(table@));
            match r {
                Ok((columns, enums)) => (forall|i: int|
                    0 <= i < mine.len() ==> (#[trigger] mine[i]).readable(*flavour))
                    && columns.deep_view() == columns_upto(mine, *flavour, mine.len() as int)
                    && enums.deep_view() == enums_upto(mine, mine.len() as int),
                Err(e) => position(mine, unreadable(*flavour)) matches Some(k) && e.deep_view()
                    == mine[k].failure(),
            }
        }),
{
    let ghost p = of_table(table@);
    let ghost mine = rows@.filter(p);
    let mut columns: Vec<Column> = Vec::new();
    let mut enums: Vec<Enum> = Vec::new();
    let mut i: usize = 0;
    proof {
        lemma_take_ends(rows@);
        lemma_of_nothing(p, |r: ColumnRow| 0int, |r: ColumnRow| Seq::<int>::empty());
        assert(columns.deep_view() =~= Seq::<ColumnView>::empty());
        assert(enums.deep_view() =~= Seq::<EnumView>::empty());
    }
    while i < rows.len()
        invariant
            i <= rows.len(),
            forall|x: int|
                0 <= x < rows@.take(i as int).filter(p).len() ==> (#[trigger] rows@.take(
                    i as int,
                ).filter(p)[x]).readable(*flavour),
            columns.deep_view() == columns_upto(
                rows@.take(i as int).filter(p),
                *flavour,
                rows@.take(i as int).filter(p).len() as int,
            ),
            enums.deep_view() == enums_upto(
                rows@.take(i as int).filter(p),
                rows@.take(i as int).filter(p).len() as int,
            ),
        decreases rows.len() - i,
    {
        let ghost before = rows@.take(i as int).filter(p);
        let ghost after = rows@.take(i + 1).filter(p);
        proof {
            lemma_filter_step(rows@, p, i as int);
        }
        if str_eq(rows[i].table_name.as_str(), table) {
            proof {
                assert(after == before.push(rows@[i as int]));
                lemma_prefix_columns(before, after, *flavour, before.len() as int);
            }
            match column_from_row(&rows[i], flavour) {
                Ok((column, enm)) => {
                    let ghost cb = columns.deep_view();
                    let ghost cv = column.deep_view();
                    columns.push(column);
                    assert(columns.deep_view() =~= cb.push(cv));
                    match enm {
                        Some(e) => {
                            let ghost eb = enums.deep_view();
                            let ghost ev = e.deep_view();
                            enums.push(e);
                            assert(enums.deep_view() =~= eb.push(ev));
                        },
                        None => {},
                    }
                },
                Err(e) => {
                    proof {
                        let k = before.len() as int;
                        assert(after[k] == rows@[i as int]);
                        lemma_filter_more(rows@, p, i + 1, k);
                        assert forall|x: int| 0 <= x < k implies !unreadable(*flavour)(mine[x]) by {
                            lemma_filter_more(rows@, p, i + 1, x);
                            assert(after[x] == before[x]);
                        }
                        lemma_position_is(mine, unreadable(*flavour), k);
                    }
                    return Err(e);
                },
            }
        }
        i = i + 1;
    }
    Ok((columns, enums))
}

/// What rows report does not depend on the rows behind them.
pub proof fn lemma_prefix_columns(a: Seq<ColumnRow>, b: Seq<ColumnRow>, flavour: Flavour, k: int)
    requires
        0 <= k <= a.len(),
        k <= b.len(),
        forall|i: int| 0 <= i < k ==> a[i] == b[i],
    ensures
        columns_upto(a, flavour, k) == columns_upto(b, flavour, k),
        enums_upto(a, k) == enums_upto(b, k),
    decreases k,
{
    if k > 0 {
        lemma_prefix_columns(a, b, flavour, k - 1);
    }
}

/// An item that a filter of the first rows lets through at a position is
/// let through at that position by the filter of all rows.
pub proof fn lemma_filter_more<T>(s: Seq<T>, p: spec_fn(T) -> bool, i: int, k: int)
    requires
        0 <= i <= s.len(),
        0 <= k < s.take(i).filter(p).len(),
    ensures
        k < s.filter(p).len(),
        s.filter(p)[k] == s.take(i).filter(p)[k],
    decreases s.len() - i,
{
    if i < s.len() {
        lemma_filter_step(s, p, i);
        lemma_filter_more(s, p, i + 1, k);
    } else {
        assert(s.take(i) =~= s);
    }
}

} // verus!
