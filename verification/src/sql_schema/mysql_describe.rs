//! Putting together the description of a MySQL schema from the rows in
//! which the server reports it.

use crate::sql_schema::mysql::Flavour;
use crate::seqs::{lemma_position, position};
use crate::sql_schema::mysql_keys::{
    first_unreadable, first_unreadable_key, get_all_indexes, get_foreign_keys, index_state,
    key_row_failure, key_unreadable_before, keys_sorted, keys_upto, over_columns,
    unreadable_before, BadPosition, ForeignKeyRow, IndexRow, KeyRowError,
};
use crate::sql_schema::mysql_rows::{
    columns_upto, enums_upto, get_all_columns, of_table, unreadable, ColumnRow, RowError,
};
use crate::sql_schema::{Enum, EnumView, SqlSchema, Table, TableView};
use vstd::prelude::*;
use vstd::string::*;

verus! {

/// Why a schema could not be described.
#[derive(Debug, PartialEq)]
pub enum DescribeError {
    /// A row of a column could not be read.
    Column(RowError),
    /// A row of an index could not be read.
    Index(BadPosition),
    /// A row of a foreign key could not be read.
    Key(KeyRowError),
    /// No row reports a column of the table.
    TableColumnsNotFound { table: String },
}

/// Whether every row of the table can be read and the table has a column.
pub open spec fn describable(
    table: Seq<char>,
    columns: Seq<ColumnRow>,
    indexes: Seq<IndexRow>,
    keys: Seq<ForeignKeyRow>,
    flavour: Flavour,
) -> bool {
    let mine = columns.filter(of_table(table));
    &&& mine.len() > 0
    &&& forall|i: int| 0 <= i < mine.len() ==> (#[trigger] mine[i]).readable(flavour)
    &&& !unreadable_before(indexes, table, indexes.len() as int)
    &&& !key_unreadable_before(keys, table, keys.len() as int)
}

/// Whether the error tells why the table cannot be described: the first
/// row of a column that cannot be read; or that no row reports a column;
/// or, where the columns can be read, the first row of an index that
/// cannot be read; or, where the indexes can be read too, the first row of
/// a foreign key that cannot be read.
pub open spec fn explains(
    e: DescribeError,
    table: Seq<char>,
    columns: Seq<ColumnRow>,
    indexes: Seq<IndexRow>,
    keys: Seq<ForeignKeyRow>,
    flavour: Flavour,
) -> bool {
    let mine = columns.filter(of_table(table));
    let columns_readable = mine.len() > 0 && forall|i: int|
        0 <= i < mine.len() ==> (#[trigger] mine[i]).readable(flavour);
    match e {
        DescribeError::Column(c) => position(mine, unreadable(flavour)) matches Some(k)
            && c.deep_view() == mine[k].failure(),
        DescribeError::TableColumnsNotFound { table: t } => mine.len() == 0 && t@ == table,
        DescribeError::Index(b) => columns_readable && exists|i: int|
            #[trigger] first_unreadable(indexes, table, i) && b.name@ == indexes[i].index_name@
                && b.position == indexes[i].seq_in_index,
        DescribeError::Key(k) => columns_readable && !unreadable_before(
            indexes,
            table,
            indexes.len() as int,
        ) && exists|i: int|
            #[trigger] first_unreadable_key(keys, table, i) && k.deep_view() == key_row_failure(
                keys[i],
            ),
    }
}

/// The table that the rows describe.
pub open spec fn described_table(
    table: Seq<char>,
    columns: Seq<ColumnRow>,
    indexes: Seq<IndexRow>,
    keys: Seq<ForeignKeyRow>,
    flavour: Flavour,
) -> TableView {
    let mine = columns.filter(of_table(table));
    let s = index_state(indexes, table, indexes.len() as int);
    let k = keys_upto(keys, table, keys.len() as int);
    TableView {
        name: table,
        columns: columns_upto(mine, flavour, mine.len() as int),
        indices: s.indices.filter(over_columns(s.expressions)),
        primary_key: s.primary_key,
        foreign_keys: keys_sorted(k, k.len() as int),
    }
}

/// The enums that the columns of the table make.
pub open spec fn described_enums(table: Seq<char>, columns: Seq<ColumnRow>) -> Seq<EnumView> {
    let mine = columns.filter(of_table(table));
    enums_upto(mine, mine.len() as int)
}

/// The table of the given name and the enums that its columns make.
pub fn get_table(
    name: &str,
    columns: &Vec<ColumnRow>,
    indexes: &Vec<IndexRow>,
    foreign_keys: &Vec<ForeignKeyRow>,
    flavour: &Flavour,
) -> (r: Result<(Table, Vec<Enum>), DescribeError>)
    ensures
        match r {
            Ok((table, enums)) => describable(name@, columns@, indexes@, foreign_keys@, *flavour)
                && table.deep_view() == described_table(
                name@,
                columns@,
                indexes@,
                foreign_keys@,
                *flavour,
            ) && enums.deep_view() == described_enums(name@, columns@),
            Err(e) => !describable(name@, columns@, indexes@, foreign_keys@, *flavour) && explains(
                e,
                name@,
                columns@,
                indexes@,
                foreign_keys@,
                *flavour,
            ),
        },
{
    let (cols, enums) = match get_all_columns(columns, name, flavour) {
        Ok(x) => x,
        Err(e) => {
            proof {
                let mine = columns@.filter(of_table(name@));
                lemma_position(mine, unreadable(*flavour));
                let k = position(mine, unreadable(*flavour))->0;
                assert(!mine[k].readable(*flavour));
            }
            return Err(DescribeError::Column(e));
        },
    };
    if cols.len() == 0 {
        proof {
            let mine = columns@.filter(of_table(name@));
            lemma_columns_len(mine, *flavour, mine.len() as int);
        }
        return Err(DescribeError::TableColumnsNotFound { table: name.to_owned() });
    }
    proof {
        let mine = columns@.filter(of_table(name@));
        lemma_columns_len(mine, *flavour, mine.len() as int);
    }
    let (indices, primary_key) = match get_all_indexes(indexes, name) {
        Ok(x) => x,
        Err(e) => {
            return Err(DescribeError::Index(e));
        },
    };
    let keys = match get_foreign_keys(foreign_keys, name) {
        Ok(x) => x,
        Err(e) => {
            return Err(DescribeError::Key(e));
        },
    };
    Ok((Table { name: name.to_owned(), columns: cols, indices, primary_key, foreign_keys: keys }, enums))
}

/// There are as many columns as rows.
pub proof fn lemma_columns_len(rows: Seq<ColumnRow>, flavour: Flavour, k: int)
    requires
        0 <= k,
    ensures
        columns_upto(rows, flavour, k).len() == k,
    decreases k,
{
    if k > 0 {
        lemma_columns_len(rows, flavour, k - 1);
    }
}

/// The tables of the first `k` names.
pub open spec fn described_tables(
    names: Seq<Seq<char>>,
    columns: Seq<ColumnRow>,
    indexes: Seq<IndexRow>,
    keys: Seq<ForeignKeyRow>,
    flavour: Flavour,
    k: int,
) -> Seq<TableView>
    decreases k,
{
    if k <= 0 {
        Seq::empty()
    } else {
        described_tables(names, columns, indexes, keys, flavour, k - 1).push(
            described_table(names[k - 1], columns, indexes, keys, flavour),
        )
    }
}

/// The enums of the tables of the first `k` names.
pub open spec fn all_described_enums(names: Seq<Seq<char>>, columns: Seq<ColumnRow>, k: int) -> Seq<
    EnumView,
>
    decreases k,
{
    if k <= 0 {
        Seq::empty()
    } else {
        all_described_enums(names, columns, k - 1) + described_enums(names[k - 1], columns)
    }
}

/// The schema that the rows describe: the tables of the given names in
/// their order, and the enums that their columns make. MySQL has no
/// sequences. Fails with the first table that cannot be described.
#[verifier::loop_isolation(false)]
pub fn describe(
    table_names: &Vec<String>,
    columns: &Vec<ColumnRow>,
    indexes: &Vec<IndexRow>,
    foreign_keys: &Vec<ForeignKeyRow>,
    flavour: &Flavour,
) -> (r: Result<SqlSchema, DescribeError>)
    ensures
        match r {
            Ok(schema) => (forall|i: int|
                0 <= i < table_names.len() ==> describable(
                    #[trigger] table_names.deep_view()[i],
                    columns@,
                    indexes@,
                    foreign_keys@,
                    *flavour,
                )) && schema.deep_view().tables == described_tables(
                table_names.deep_view(),
                columns@,
                indexes@,
                foreign_keys@,
                *flavour,
                table_names.len() as int,
            ) && schema.deep_view().enums == all_described_enums(
                table_names.deep_view(),
                columns@,
                table_names.len() as int,
            ) && schema.deep_view().sequences.len() == 0,
            Err(e) => exists|i: int|
                0 <= i < table_names.len() && !describable(
                    #[trigger] table_names.deep_view()[i],
                    columns@,
                    indexes@,
                    foreign_keys@,
                    *flavour,
                ) && (forall|x: int|
                    0 <= x < i ==> describable(
                        #[trigger] table_names.deep_view()[x],
                        columns@,
                        indexes@,
                        foreign_keys@,
                        *flavour,
                    )) && explains(
                    e,
                    table_names.deep_view()[i],
                    columns@,
                    indexes@,
                    foreign_keys@,
                    *flavour,
                ),
        },
{
    let ghost names = table_names.deep_view();
    let mut tables: Vec<Table> = Vec::new();
    let mut enums: Vec<Enum> = Vec::new();
    let mut i: usize = 0;
    assert(tables.deep_view() =~= Seq::<TableView>::empty());
    assert(enums.deep_view() =~= Seq::<EnumView>::empty());
    while i < table_names.len()
        invariant
            i <= table_names.len(),
            forall|x: int|
                0 <= x < i ==> describable(
                    #[trigger] names[x],
                    columns@,
                    indexes@,
                    foreign_keys@,
                    *flavour,
                ),
            tables.deep_view() == described_tables(
                names,
                columns@,
                indexes@,
                foreign_keys@,
                *flavour,
                i as int,
            ),
            enums.deep_view() == all_described_enums(names, columns@, i as int),
        decreases table_names.len() - i,
    {
        assert(names[i as int] == table_names[i as int]@);
        match get_table(table_names[i].as_str(), columns, indexes, foreign_keys, flavour) {
            Ok((table, mut enms)) => {
                let ghost tb = tables.deep_view();
                let ghost tv = table.deep_view();
                let ghost eb = enums.deep_view();
                let ghost ev = enms.deep_view();
                tables.push(table);
                enums.append(&mut enms);
                assert(tables.deep_view() =~= tb.push(tv));
                assert(enums.deep_view() =~= eb + ev);
            },
            Err(e) => {
                return Err(e);
            },
        }
        i = i + 1;
    }
    let sequences: Vec<crate::sql_schema::Sequence> = Vec::new();
    Ok(SqlSchema { tables, enums, sequences })
}

} // verus!
