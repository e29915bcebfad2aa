//! From the rows in which MySQL reports its indexes and foreign keys to the
//! indexes and keys of a table.

use crate::seqs::{any, lemma_position_is, lemma_position_none, position};
use crate::sql_schema::{
    ForeignKey, ForeignKeyAction, ForeignKeyView, Index, IndexType, IndexView, PrimaryKey,
    PrimaryKeyView,
};
use crate::text::{lex_lt, names_contain, str_eq, str_lt};
use crate::values::{lowercase, to_lowercase};
use vstd::prelude::*;
use vstd::string::*;

verus! {

/// What the server reports of one column of an index.
#[derive(Debug, PartialEq)]
pub struct IndexRow {
    pub table_name: String,
    pub index_name: String,
    pub non_unique: bool,
    /// The column; none where the index is over an expression.
    pub column_name: Option<String>,
    /// The place of the column in the index, counted from 1.
    pub seq_in_index: i64,
}

/// A row gives a place that is not a place.
#[derive(Debug, PartialEq)]
pub struct BadPosition {
    pub name: String,
    pub position: i64,
}

/// The names with `name` at the place `pos`: names that are missing
/// before that place are empty.
pub open spec fn set_at(names: Seq<Seq<char>>, pos: int, name: Seq<char>) -> Seq<Seq<char>> {
    Seq::new(
        if names.len() > pos {
            names.len()
        } else {
            (pos + 1) as nat
        },
        |i: int|
            if i == pos {
                name
            } else if i < names.len() {
                names[i]
            } else {
                Seq::empty()
            },
    )
}

/// Puts a name at a place of a list of names.
#[verifier::loop_isolation(false)]
pub fn put_at(names: &mut Vec<String>, pos: usize, name: String)
    requires
        pos < usize::MAX,
    ensures
        final(names).deep_view() == set_at(old(names).deep_view(), pos as int, name@),
{
    let ghost before = names.deep_view();
    while names.len() <= pos
        invariant
            names.len() >= before.len(),
            forall|i: int| 0 <= i < before.len() ==> names.deep_view()[i] == before[i],
            forall|i: int| before.len() <= i < names.len() ==> names.deep_view()[i] == Seq::<char>::empty(),
            before.len() > pos ==> names.len() == before.len(),
            before.len() <= pos ==> names.len() <= pos + 1,
        decreases pos + 1 - names.len(),
    {
        let ghost b = names.deep_view();
        names.push(String::new());
        assert(names.deep_view() =~= b.push(Seq::<char>::empty()));
    }
    let ghost mid = names.deep_view();
    names.set(pos, name);
    assert(names.deep_view() =~= mid.update(pos as int, name@));
    assert(names.deep_view() =~= set_at(before, pos as int, name@));
}

/// The indexes of the given name.
pub open spec fn index_named(name: Seq<char>) -> spec_fn(IndexView) -> bool {
    |i: IndexView| i.name == name
}

/// The indexes whose name does not come before the given name.
pub open spec fn not_before(name: Seq<char>) -> spec_fn(IndexView) -> bool {
    |i: IndexView| !lex_lt(i.name, name)
}

/// What is known of the indexes of a table after some rows.
pub struct IndexState {
    /// The indexes, by their names.
    pub indices: Seq<IndexView>,
    pub primary_key: Option<PrimaryKeyView>,
    /// The names of the indexes over expressions.
    pub expressions: Seq<Seq<char>>,
}

/// What is known after one row more of the table. A row without a column
/// marks its index as one over an expression; a row of the index named
/// `primary` puts its column at its place in the primary key, or begins the
/// key; any other row adds its column to its index, or begins the index.
pub open spec fn after_row(s: IndexState, row: IndexRow) -> IndexState {
    match row.column_name {
        None => IndexState { expressions: s.expressions.push(row.index_name@), ..s },
        Some(column) => if lowercase(row.index_name@) == "primary"@ {
            IndexState {
                primary_key: Some(
                    match s.primary_key {
                        Some(pk) => PrimaryKeyView {
                            columns: set_at(pk.columns, row.seq_in_index - 1, column@),
                            ..pk
                        },
                        None => PrimaryKeyView {
                            columns: seq![column@],
                            sequence: None,
                            constraint_name: None,
                        },
                    },
                ),
                ..s
            }
        } else {
            match position(s.indices, index_named(row.index_name@)) {
                Some(i) => IndexState {
                    indices: s.indices.update(
                        i,
                        IndexView { columns: s.indices[i].columns.push(column@), ..s.indices[i] },
                    ),
                    ..s
                },
                None => {
                    let at = match position(s.indices, not_before(row.index_name@)) {
                        Some(i) => i,
                        None => s.indices.len() as int,
                    };
                    IndexState {
                        indices: s.indices.insert(
                            at,
                            IndexView {
                                name: row.index_name@,
                                columns: seq![column@],
                                tpe: if row.non_unique {
                                    IndexType::Normal
                                } else {
                                    IndexType::Unique
                                },
                            },
                        ),
                        ..s
                    }
                },
            }
        },
    }
}

/// Whether the row can be read: the place of its column is a place.
pub open spec fn row_readable(row: IndexRow) -> bool {
    row.column_name is Some ==> 1 <= row.seq_in_index <= usize::MAX
}

/// What is known after the first `k` rows, of which those of the table count.
pub open spec fn index_state(rows: Seq<IndexRow>, table: Seq<char>, k: int) -> IndexState
    decreases k,
{
    if k <= 0 {
        IndexState { indices: Seq::empty(), primary_key: None, expressions: Seq::empty() }
    } else {
        let s = index_state(rows, table, k - 1);
        if rows[k - 1].table_name@ == table {
            after_row(s, rows[k - 1])
        } else {
            s
        }
    }
}

/// The indexes that are not over an expression.
pub open spec fn over_columns(expressions: Seq<Seq<char>>) -> spec_fn(IndexView) -> bool {
    |i: IndexView| !expressions.contains(i.name)
}

/// The rows of the table among the first `k` that cannot be read.
pub open spec fn unreadable_before(rows: Seq<IndexRow>, table: Seq<char>, k: int) -> bool {
    exists|i: int| 0 <= i < k && (#[trigger] rows[i]).table_name@ == table && !row_readable(rows[i])
}

/// Whether the row at `i` is the first row of the table that cannot be read.
pub open spec fn first_unreadable(rows: Seq<IndexRow>, table: Seq<char>, i: int) -> bool {
    0 <= i < rows.len() && rows[i].table_name@ == table && !row_readable(rows[i])
        && !unreadable_before(rows, table, i)
}

/// The indexes and the primary key of a table, as the rows report them:
/// the indexes by their names, without those over expressions. Or the
/// first row of the table that gives a place which is none.
#[verifier::loop_isolation(false)]
pub fn get_all_indexes(rows: &Vec<IndexRow>, table: &str) -> (r: Result<
    (Vec<Index>, Option<PrimaryKey>),
    BadPosition,
>)
    ensures
        match r {
            Ok((indices, primary_key)) => {
                let s = index_state(rows@, table@, rows@.len() as int);
                !unreadable_before(rows@, table@, rows@.len() as int) && indices.deep_view()
                    == s.indices.filter(over_columns(s.expressions)) && primary_key.deep_view()
                    == s.primary_key
            },
            Err(e) => unreadable_before(rows@, table@, rows@.len() as int) && exists|i: int|
                #[trigger] first_unreadable(rows@, table@, i) && e.name@ == rows@[i].index_name@
                    && e.position == rows@[i].seq_in_index,
        },
{
    let mut indices: Vec<Index> = Vec::new();
    let mut primary_key: Option<PrimaryKey> = None;
    let mut expressions: Vec<String> = Vec::new();
    let mut i: usize = 0;
    assert(indices.deep_view() =~= Seq::<IndexView>::empty());
    assert(expressions.deep_view() =~= Seq::<Seq<char>>::empty());
    while i < rows.len()
        invariant
            i <= rows.len(),
            !unreadable_before(rows@, table@, i as int),
            indices.deep_view() == index_state(rows@, table@, i as int).indices,
            primary_key.deep_view() == index_state(rows@, table@, i as int).primary_key,
            expressions.deep_view() == index_state(rows@, table@, i as int).expressions,
        decreases rows.len() - i,
    {
        let row: &IndexRow = &rows[i];
        let ghost s = index_state(rows@, table@, i as int);
        if str_eq(row.table_name.as_str(), table) {
            match &row.column_name {
                None => {
                    let ghost eb = expressions.deep_view();
                    expressions.push(row.index_name.clone());
                    assert(expressions.deep_view() =~= eb.push(row.index_name@));
                },
                Some(column) => {
                    if row.seq_in_index < 1 || (row.seq_in_index - 1) as u64 >= usize::MAX as u64 {
                        assert(!row_readable(rows@[i as int]));
                        assert(first_unreadable(rows@, table@, i as int));
                        return Err(
                            BadPosition { name: row.index_name.clone(), position: row.seq_in_index },
                        );
                    }
                    let lower: String = to_lowercase(row.index_name.as_str());
                    if str_eq(lower.as_str(), "primary") {
                        let pos: usize = (row.seq_in_index - 1) as usize;
                        primary_key = match primary_key {
                            Some(pk) => {
                                let mut columns: Vec<String> = pk.columns;
                                put_at(&mut columns, pos, column.clone());
                                Some(
                                    PrimaryKey {
                                        columns,
                                        sequence: pk.sequence,
                                        constraint_name: pk.constraint_name,
                                    },
                                )
                            },
                            None => {
                                let mut columns: Vec<String> = Vec::new();
                                columns.push(column.clone());
                                assert(columns.deep_view() =~= seq![column@]);
                                Some(PrimaryKey { columns, sequence: None, constraint_name: None })
                            },
                        };
                    } else {
                        let ghost iv = indices.deep_view();
                        let ghost p = index_named(row.index_name@);
                        let ghost q = not_before(row.index_name@);
                        let mut found: Option<usize> = None;
                        let mut place: Option<usize> = None;
                        let mut k: usize = 0;
                        while k < indices.len() && found.is_none()
                            invariant
                                k <= indices.len(),
                                indices.deep_view() == iv,
                                found.is_none() ==> forall|x: int| 0 <= x < k ==> !p(#[trigger] iv[x]),
                                found matches Some(f) ==> f < indices.len() && position(iv, p) == Some(
                                    f as int,
                                ),
                                place.is_none() ==> forall|x: int| 0 <= x < k ==> !q(#[trigger] iv[x]),
                                place matches Some(f) ==> f < indices.len() && position(iv, q) == Some(
                                    f as int,
                                ),
                            decreases indices.len() - k + if found.is_none() { 1int } else { 0int },
                        {
                            assert(iv[k as int] == indices[k as int].deep_view());
                            if place.is_none() && !str_lt(
                                indices[k].name.as_str(),
                                row.index_name.as_str(),
                            ) {
                                proof {
                                    lemma_position_is(iv, q, k as int);
                                }
                                place = Some(k);
                            }
                            if indices[k].name == row.index_name {
                                proof {
                                    lemma_position_is(iv, p, k as int);
                                }
                                found = Some(k);
                            } else {
                                k = k + 1;
                            }
                        }
                        match found {
                            Some(f) => {
                                let mut index: Index = indices.remove(f);
                                let ghost v1 = indices@;
                                let ghost cb = index.columns.deep_view();
                                index.columns.push(column.clone());
                                assert(index.columns.deep_view() =~= cb.push(column@));
                                let ghost nv = index.deep_view();
                                indices.insert(f, index);
                                assert(indices.deep_view() =~= iv.update(f as int, nv)) by {
                                    assert forall|x: int| 0 <= x < iv.len() implies #[trigger] indices.deep_view()[x]
                                        == iv.update(f as int, nv)[x] by {
                                        if x < f {
                                            assert(indices@[x] == v1[x]);
                                        } else if x > f {
                                            assert(indices@[x] == v1[x - 1]);
                                        }
                                    }
                                }
                            },
                            None => {
                                proof {
                                    lemma_position_none(iv, p);
                                    if place.is_none() {
                                        lemma_position_none(iv, q);
                                    }
                                }
                                let at: usize = match place {
                                    Some(a) => a,
                                    None => indices.len(),
                                };
                                let mut columns: Vec<String> = Vec::new();
                                columns.push(column.clone());
                                assert(columns.deep_view() =~= seq![column@]);
                                let index = Index {
                                    name: row.index_name.clone(),
                                    columns,
                                    tpe: if row.non_unique {
                                        IndexType::Normal
                                    } else {
                                        IndexType::Unique
                                    },
                                };
                                let ghost nv = index.deep_view();
                                let ghost v0 = indices@;
                                indices.insert(at, index);
                                assert(indices.deep_view() =~= iv.insert(at as int, nv)) by {
                                    assert forall|x: int| 0 <= x < iv.len() + 1 implies #[trigger] indices.deep_view()[x]
                                        == iv.insert(at as int, nv)[x] by {
                                        if x < at {
                                            assert(indices@[x] == v0[x]);
                                        } else if x > at {
                                            assert(indices@[x] == v0[x - 1]);
                                        }
                                    }
                                }
                            },
                        }
                    }
                },
            }
        }
        i = i + 1;
    }
    let ghost s = index_state(rows@, table@, rows@.len() as int);
    let ghost keep = over_columns(s.expressions);
    let mut out: Vec<Index> = Vec::new();
    let mut k: usize = 0;
    proof {
        crate::seqs::lemma_take_ends(s.indices);
        crate::seqs::lemma_of_nothing(keep, |x: IndexView| 0int, |x: IndexView| Seq::<int>::empty());
        assert(out.deep_view() =~= Seq::<IndexView>::empty());
    }
    while k < indices.len()
        invariant
            k <= indices.len(),
            indices.deep_view() == s.indices,
            out.deep_view() == s.indices.take(k as int).filter(keep),
        decreases indices.len() - k,
    {
        proof {
            crate::seqs::lemma_filter_step(s.indices, keep, k as int);
        }
        assert(s.indices[k as int] == indices[k as int].deep_view());
        if !names_contain(&expressions, indices[k].name.as_str()) {
            let ghost ob = out.deep_view();
            let copy: Index = indices[k].clone();
            let ghost cv = copy.deep_view();
            out.push(copy);
            assert(out.deep_view() =~= ob.push(cv));
        }
        k = k + 1;
    }
    Ok((out, primary_key))
}

/// What the server reports of one column of a foreign key.
#[derive(Debug, PartialEq)]
pub struct ForeignKeyRow {
    pub table_name: String,
    pub constraint_name: String,
    pub column_name: String,
    pub referenced_table_name: String,
    pub referenced_column_name: String,
    /// The place of the column in the key, counted from 1.
    pub ordinal_position: i64,
    pub delete_rule: String,
    pub update_rule: String,
}

/// Why a row of a foreign key could not be read.
#[derive(Debug, PartialEq)]
pub enum KeyRowError {
    /// The rule is none of those that a foreign key can have.
    UnrecognizedAction { rule: String },
    /// The place of a column is none.
    BadPosition { constraint: String, position: i64 },
}

pub enum KeyRowErrorView {
    UnrecognizedAction { rule: Seq<char> },
    BadPosition { constraint: Seq<char>, position: i64 },
}

impl DeepView for KeyRowError {
    type V = KeyRowErrorView;

    open spec fn deep_view(&self) -> KeyRowErrorView {
        match self {
            KeyRowError::UnrecognizedAction { rule } => KeyRowErrorView::UnrecognizedAction {
                rule: rule@,
            },
            KeyRowError::BadPosition { constraint, position } => KeyRowErrorView::BadPosition {
                constraint: constraint@,
                position: *position,
            },
        }
    }
}

/// The action that a rule in lower case names.
pub open spec fn action_named(rule: Seq<char>) -> Option<ForeignKeyAction> {
    if rule == "cascade"@ {
        Some(ForeignKeyAction::Cascade)
    } else if rule == "set null"@ {
        Some(ForeignKeyAction::SetNull)
    } else if rule == "set default"@ {
        Some(ForeignKeyAction::SetDefault)
    } else if rule == "restrict"@ {
        Some(ForeignKeyAction::Restrict)
    } else if rule == "no action"@ {
        Some(ForeignKeyAction::NoAction)
    } else {
        None
    }
}

/// The action that a rule in lower case names.
pub fn action_from_lowercase(rule: &str) -> (r: Option<ForeignKeyAction>)
    ensures
        r == action_named(rule@),
{
    if str_eq(rule, "cascade") {
        Some(ForeignKeyAction::Cascade)
    } else if str_eq(rule, "set null") {
        Some(ForeignKeyAction::SetNull)
    } else if str_eq(rule, "set default") {
        Some(ForeignKeyAction::SetDefault)
    } else if str_eq(rule, "restrict") {
        Some(ForeignKeyAction::Restrict)
    } else if str_eq(rule, "no action") {
        Some(ForeignKeyAction::NoAction)
    } else {
        None
    }
}

/// The foreign keys of the given constraint.
pub open spec fn constraint_named(name: Seq<char>) -> spec_fn(ForeignKeyView) -> bool {
    |fk: ForeignKeyView| fk.constraint_name == Some(name)
}

/// Whether a row can be read, given the keys known before it: its rules
/// name actions, and where its key is known already, the place of its
/// column is a place.
pub open spec fn key_row_readable(keys: Seq<ForeignKeyView>, row: ForeignKeyRow) -> bool {
    action_named(lowercase(row.delete_rule@)) is Some && action_named(
        lowercase(row.update_rule@),
    ) is Some && (position(keys, constraint_named(row.constraint_name@)) is Some ==> 1
        <= row.ordinal_position <= usize::MAX)
}

/// The keys after one row more: the row puts its columns at their place in
/// its key, or begins the key.
pub open spec fn keys_after(keys: Seq<ForeignKeyView>, row: ForeignKeyRow) -> Seq<ForeignKeyView> {
    match position(keys, constraint_named(row.constraint_name@)) {
        Some(i) => keys.update(
            i,
            ForeignKeyView {
                columns: set_at(keys[i].columns, row.ordinal_position - 1, row.column_name@),
                referenced_columns: set_at(
                    keys[i].referenced_columns,
                    row.ordinal_position - 1,
                    row.referenced_column_name@,
                ),
                ..keys[i]
            },
        ),
        None => keys.push(
            ForeignKeyView {
                constraint_name: Some(row.constraint_name@),
                columns: seq![row.column_name@],
                referenced_table: row.referenced_table_name@,
                referenced_columns: seq![row.referenced_column_name@],
                on_delete_action: action_named(lowercase(row.delete_rule@))->Some_0,
                on_update_action: action_named(lowercase(row.update_rule@))->Some_0,
            },
        ),
    }
}

/// The keys after the first `k` rows, of which those of the table count.
pub open spec fn keys_upto(rows: Seq<ForeignKeyRow>, table: Seq<char>, k: int) -> Seq<ForeignKeyView>
    decreases k,
{
    if k <= 0 {
        Seq::empty()
    } else {
        let keys = keys_upto(rows, table, k - 1);
        if rows[k - 1].table_name@ == table {
            keys_after(keys, rows[k - 1])
        } else {
            keys
        }
    }
}

/// Why a row that cannot be read cannot be read: the first of its two
/// rules that names no action, or else the place of its column.
pub open spec fn key_row_failure(row: ForeignKeyRow) -> KeyRowErrorView {
    if action_named(lowercase(row.delete_rule@)) is None {
        KeyRowErrorView::UnrecognizedAction { rule: row.delete_rule@ }
    } else if action_named(lowercase(row.update_rule@)) is None {
        KeyRowErrorView::UnrecognizedAction { rule: row.update_rule@ }
    } else {
        KeyRowErrorView::BadPosition {
            constraint: row.constraint_name@,
            position: row.ordinal_position,
        }
    }
}

/// Whether the row at `i` is the first row of the table that cannot be read.
pub open spec fn first_unreadable_key(rows: Seq<ForeignKeyRow>, table: Seq<char>, i: int) -> bool {
    0 <= i < rows.len() && rows[i].table_name@ == table && !key_row_readable(
        keys_upto(rows, table, i),
        rows[i],
    ) && !key_unreadable_before(rows, table, i)
}

/// Whether a row of the table among the first `k` cannot be read.
pub open spec fn key_unreadable_before(rows: Seq<ForeignKeyRow>, table: Seq<char>, k: int) -> bool {
    exists|i: int|
        0 <= i < k && (#[trigger] rows[i]).table_name@ == table && !key_row_readable(
            keys_upto(rows, table, i),
            rows[i],
        )
}

/// Whether one list of names comes before another: the lists are compared
/// name by name, and a list comes before the lists that go on from it.
pub open spec fn names_lt(a: Seq<Seq<char>>, b: Seq<Seq<char>>) -> bool
    decreases a.len(),
{
    if b.len() == 0 {
        false
    } else if a.len() == 0 {
        true
    } else if a[0] != b[0] {
        lex_lt(a[0], b[0])
    } else {
        names_lt(a.drop_first(), b.drop_first())
    }
}

proof fn lemma_names_lt_skip(a: Seq<Seq<char>>, b: Seq<Seq<char>>, k: int)
    requires
        0 <= k <= a.len(),
        k <= b.len(),
        forall|i: int| 0 <= i < k ==> a[i] == b[i],
    ensures
        names_lt(a, b) == names_lt(a.skip(k), b.skip(k)),
    decreases k,
{
    if k == 0 {
        assert(a.skip(0) =~= a);
        assert(b.skip(0) =~= b);
    } else {
        lemma_names_lt_skip(a, b, k - 1);
        assert(a.skip(k - 1)[0] == a[k - 1]);
        assert(b.skip(k - 1)[0] == b[k - 1]);
        assert(a.skip(k - 1).drop_first() =~= a.skip(k));
        assert(b.skip(k - 1).drop_first() =~= b.skip(k));
    }
}

/// Whether one list of names comes before another.
#[verifier::loop_isolation(false)]
pub fn names_before(a: &Vec<String>, b: &Vec<String>) -> (r: bool)
    ensures
        r == names_lt(a.deep_view(), b.deep_view()),
{
    let ghost av = a.deep_view();
    let ghost bv = b.deep_view();
    let mut i: usize = 0;
    while i < a.len() && i < b.len()
        invariant
            i <= a.len(),
            i <= b.len(),
            forall|j: int| 0 <= j < i ==> av[j] == bv[j],
        decreases a.len() - i,
    {
        assert(av[i as int] == a[i as int]@);
        assert(bv[i as int] == b[i as int]@);
        if a[i] != b[i] {
            proof {
                lemma_names_lt_skip(av, bv, i as int);
                assert(av.skip(i as int)[0] == av[i as int]);
                assert(bv.skip(i as int)[0] == bv[i as int]);
            }
            return str_lt(a[i].as_str(), b[i].as_str());
        }
        i = i + 1;
    }
    proof {
        lemma_names_lt_skip(av, bv, i as int);
    }
    i < b.len()
}

/// The foreign keys whose columns come after the given columns.
pub open spec fn comes_after(columns: Seq<Seq<char>>) -> spec_fn(ForeignKeyView) -> bool {
    |fk: ForeignKeyView| names_lt(columns, fk.columns)
}

/// The first `k` keys in the order of their columns; keys of the same
/// columns stay in the order in which they came.
pub open spec fn keys_sorted(keys: Seq<ForeignKeyView>, k: int) -> Seq<ForeignKeyView>
    decreases k,
{
    if k <= 0 {
        Seq::empty()
    } else {
        let before = keys_sorted(keys, k - 1);
        let at = match position(before, comes_after(keys[k - 1].columns)) {
            Some(i) => i,
            None => before.len() as int,
        };
        before.insert(at, keys[k - 1])
    }
}

/// The keys in the order of their columns.
#[verifier::loop_isolation(false)]
pub fn sort_by_columns(keys: &Vec<ForeignKey>) -> (r: Vec<ForeignKey>)
    ensures
        r.deep_view() == keys_sorted(keys.deep_view(), keys.len() as int),
{
    let ghost kv = keys.deep_view();
    let mut out: Vec<ForeignKey> = Vec::new();
    let mut i: usize = 0;
    assert(out.deep_view() =~= Seq::<ForeignKeyView>::empty());
    while i < keys.len()
        invariant
            i <= keys.len(),
            out.len() == i,
            out.deep_view() == keys_sorted(kv, i as int),
        decreases keys.len() - i,
    {
        let fk: &ForeignKey = &keys[i];
        assert(kv[i as int] == fk.deep_view());
        let ghost ov = out.deep_view();
        let ghost p = comes_after(fk.deep_view().columns);
        let mut at: usize = out.len();
        let mut k: usize = 0;
        while k < out.len() && at == out.len()
            invariant
                k <= out.len(),
                out.deep_view() == ov,
                at == out.len() ==> forall|x: int| 0 <= x < k ==> !p(#[trigger] ov[x]),
                at < out.len() ==> position(ov, p) == Some(at as int),
                at <= out.len(),
            decreases out.len() - k + if at == out.len() { 1int } else { 0int },
        {
            assert(ov[k as int] == out[k as int].deep_view());
            if names_before(&fk.columns, &out[k].columns) {
                proof {
                    lemma_position_is(ov, p, k as int);
                }
                at = k;
            } else {
                k = k + 1;
            }
        }
        proof {
            if at == out.len() {
                lemma_position_none(ov, p);
            }
        }
        let copy: ForeignKey = fk.clone();
        let ghost cv = copy.deep_view();
        let ghost v0 = out@;
        out.insert(at, copy);
        assert(out.deep_view() =~= ov.insert(at as int, cv)) by {
            assert forall|x: int| 0 <= x < ov.len() + 1 implies #[trigger] out.deep_view()[x]
                == ov.insert(at as int, cv)[x] by {
                if x < at {
                    assert(out@[x] == v0[x]);
                } else if x > at {
                    assert(out@[x] == v0[x - 1]);
                }
            }
        }
        i = i + 1;
    }
    out
}

/// The foreign keys of a table, as the rows report them, in the order of
/// their columns. Or why the first row of the table that cannot be read
/// cannot be read.
#[verifier::loop_isolation(false)]
pub fn get_foreign_keys(rows: &Vec<ForeignKeyRow>, table: &str) -> (r: Result<
    Vec<ForeignKey>,
    KeyRowError,
>)
    ensures
        match r {
            Ok(keys) => !key_unreadable_before(rows@, table@, rows@.len() as int) && keys.deep_view()
                == keys_sorted(
                keys_upto(rows@, table@, rows@.len() as int),
                keys_upto(rows@, table@, rows@.len() as int).len() as int,
            ),
            Err(e) => key_unreadable_before(rows@, table@, rows@.len() as int) && exists|i: int|
                #[trigger] first_unreadable_key(rows@, table@, i) && e.deep_view()
                    == key_row_failure(rows@[i]),
        },
{
    let mut keys: Vec<ForeignKey> = Vec::new();
    let mut i: usize = 0;
    assert(keys.deep_view() =~= Seq::<ForeignKeyView>::empty());
    while i < rows.len()
        invariant
            i <= rows.len(),
            !key_unreadable_before(rows@, table@, i as int),
            keys.deep_view() == keys_upto(rows@, table@, i as int),
        decreases rows.len() - i,
    {
        let row: &ForeignKeyRow = &rows[i];
        let ghost kv = keys.deep_view();
        if str_eq(row.table_name.as_str(), table) {
            let delete_rule: String = to_lowercase(row.delete_rule.as_str());
            let on_delete_action: ForeignKeyAction = match action_from_lowercase(
                delete_rule.as_str(),
            ) {
                Some(a) => a,
                None => {
                    assert(!key_row_readable(keys_upto(rows@, table@, i as int), rows@[i as int]));
                    assert(first_unreadable_key(rows@, table@, i as int));
                    return Err(KeyRowError::UnrecognizedAction { rule: row.delete_rule.clone() });
                },
            };
            let update_rule: String = to_lowercase(row.update_rule.as_str());
            let on_update_action: ForeignKeyAction = match action_from_lowercase(
                update_rule.as_str(),
            ) {
                Some(a) => a,
                None => {
                    assert(!key_row_readable(keys_upto(rows@, table@, i as int), rows@[i as int]));
                    assert(first_unreadable_key(rows@, table@, i as int));
                    return Err(KeyRowError::UnrecognizedAction { rule: row.update_rule.clone() });
                },
            };
            let ghost p = constraint_named(row.constraint_name@);
            let mut found: Option<usize> = None;
            let mut k: usize = 0;
            while k < keys.len() && found.is_none()
                invariant
                    k <= keys.len(),
                    keys.deep_view() == kv,
                    found.is_none() ==> forall|x: int| 0 <= x < k ==> !p(#[trigger] kv[x]),
                    found matches Some(f) ==> f < keys.len() && position(kv, p) == Some(f as int),
                decreases keys.len() - k + if found.is_none() { 1int } else { 0int },
            {
                assert(kv[k as int] == keys[k as int].deep_view());
                let same: bool = match &keys[k].constraint_name {
                    Some(n) => *n == row.constraint_name,
                    None => false,
                };
                if same {
                    proof {
                        lemma_position_is(kv, p, k as int);
                    }
                    found = Some(k);
                } else {
                    k = k + 1;
                }
            }
            match found {
                Some(f) => {
                    if row.ordinal_position < 1 || (row.ordinal_position - 1) as u64
                        >= usize::MAX as u64 {
                        assert(!key_row_readable(
                            keys_upto(rows@, table@, i as int),
                            rows@[i as int],
                        ));
                        assert(first_unreadable_key(rows@, table@, i as int));
                        return Err(
                            KeyRowError::BadPosition {
                                constraint: row.constraint_name.clone(),
                                position: row.ordinal_position,
                            },
                        );
                    }
                    let pos: usize = (row.ordinal_position - 1) as usize;
                    let mut fk: ForeignKey = keys.remove(f);
                    let ghost v1 = keys@;
                    put_at(&mut fk.columns, pos, row.column_name.clone());
                    put_at(&mut fk.referenced_columns, pos, row.referenced_column_name.clone());
                    let ghost nv = fk.deep_view();
                    keys.insert(f, fk);
                    assert(keys.deep_view() =~= kv.update(f as int, nv)) by {
                        assert forall|x: int| 0 <= x < kv.len() implies #[trigger] keys.deep_view()[x]
                            == kv.update(f as int, nv)[x] by {
                            if x < f {
                                assert(keys@[x] == v1[x]);
                            } else if x > f {
                                assert(keys@[x] == v1[x - 1]);
                            }
                        }
                    }
                },
                None => {
                    proof {
                        lemma_position_none(kv, p);
                    }
                    let mut columns: Vec<String> = Vec::new();
                    columns.push(row.column_name.clone());
                    assert(columns.deep_view() =~= seq![row.column_name@]);
                    let mut referenced_columns: Vec<String> = Vec::new();
                    referenced_columns.push(row.referenced_column_name.clone());
                    assert(referenced_columns.deep_view() =~= seq![row.referenced_column_name@]);
                    let fk = ForeignKey {
                        constraint_name: Some(row.constraint_name.clone()),
                        columns,
                        referenced_table: row.referenced_table_name.clone(),
                        referenced_columns,
                        on_delete_action,
                        on_update_action,
                    };
                    let ghost nv = fk.deep_view();
                    keys.push(fk);
                    assert(keys.deep_view() =~= kv.push(nv));
                },
            }
        }
        i = i + 1;
    }
    Ok(sort_by_columns(&keys))
}

} // verus!
