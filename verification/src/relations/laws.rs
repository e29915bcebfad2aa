//! What holds of the pairing whatever the data model.

use crate::dml::lookup::{is_opposite, model_named};
use crate::dml::{DatamodelView, EnumView, FieldView, ModelView, RelationFieldView};
use crate::relations::pairing::{
    field_pairings, first_failure, first_of_each_name, model_pairings, named_before, pairing,
    relations, successes,
};
use crate::relations::{RelationErrorView, TempRelationHolderView};
use crate::seqs::lemma_position_is;
use crate::text::lemma_lex_lt_total;
use vstd::prelude::*;

verus! {

/// The field at `i` is the only relation field of the model.
pub open spec fn only_relation_field(m: ModelView, i: int, rf: RelationFieldView) -> bool {
    &&& 0 <= i < m.fields.len()
    &&& m.fields[i] == FieldView::RelationField(rf)
    &&& forall|j: int| 0 <= j < m.fields.len() && j != i ==> m.fields[j] is ScalarField
}

/// Two models of different names are connected by one relation: each has
/// one relation field, which points to the other model, and the two fields
/// carry the same relation name.
pub open spec fn connected_by_one_relation(
    a: ModelView,
    ia: int,
    fa: RelationFieldView,
    b: ModelView,
    ib: int,
    fb: RelationFieldView,
) -> bool {
    &&& a.name != b.name
    &&& only_relation_field(a, ia, fa)
    &&& only_relation_field(b, ib, fb)
    &&& fa.relation_info.to == b.name
    &&& fb.relation_info.to == a.name
    &&& fa.relation_info.name == fb.relation_info.name
}

proof fn lemma_single_relation_field(
    dm: DatamodelView,
    m: ModelView,
    i: int,
    rf: RelationFieldView,
    k: int,
)
    requires
        only_relation_field(m, i, rf),
        0 <= k <= m.fields.len(),
    ensures
        field_pairings(dm, m, k) == if k > i {
            seq![pairing(dm, m, rf)]
        } else {
            Seq::empty()
        },
    decreases k,
{
    if k > 0 {
        lemma_single_relation_field(dm, m, i, rf, k - 1);
        if k - 1 == i {
            assert(Seq::<Result<TempRelationHolderView, RelationErrorView>>::empty().push(
                pairing(dm, m, rf),
            ) =~= seq![pairing(dm, m, rf)]);
        }
    }
}

proof fn lemma_two_models(dm: DatamodelView, a: ModelView, b: ModelView)
    requires
        dm.models == seq![a, b],
        a.name != b.name,
    ensures
        dm.find_model(a.name) == Some(a),
        dm.find_model(b.name) == Some(b),
        model_pairings(dm, 2) == field_pairings(dm, a, a.fields.len() as int) + field_pairings(
            dm,
            b,
            b.fields.len() as int,
        ),
{
    lemma_position_is(dm.models, model_named(a.name), 0);
    lemma_position_is(dm.models, model_named(b.name), 1);
    assert(model_pairings(dm, 0) =~= Seq::empty());
    assert(model_pairings(dm, 1) =~= field_pairings(dm, a, a.fields.len() as int));
}

proof fn lemma_opposite(
    dm: DatamodelView,
    a: ModelView,
    fa: RelationFieldView,
    b: ModelView,
    ib: int,
    fb: RelationFieldView,
)
    requires
        a.name != b.name,
        only_relation_field(b, ib, fb),
        fa.relation_info.to == b.name,
        fb.relation_info.to == a.name,
        fa.relation_info.name == fb.relation_info.name,
        dm.find_model(b.name) == Some(b),
    ensures
        dm.find_related_field(a.name, fa.name, fa.relation_info) == Some(fb),
{
    lemma_position_is(b.fields, is_opposite(a.name, fa.name, fa.relation_info), ib);
}

proof fn lemma_pairing_mirrored(
    dm: DatamodelView,
    a: ModelView,
    fa: RelationFieldView,
    b: ModelView,
    fb: RelationFieldView,
)
    requires
        a.name != b.name,
        dm.find_model(a.name) == Some(a),
        dm.find_model(b.name) == Some(b),
        fa.relation_info.to == b.name,
        fb.relation_info.to == a.name,
        fa.relation_info.name == fb.relation_info.name,
        dm.find_related_field(a.name, fa.name, fa.relation_info) == Some(fb),
        dm.find_related_field(b.name, fb.name, fb.relation_info) == Some(fa),
    ensures
        match pairing(dm, a, fa) {
            Ok(h) => pairing(dm, b, fb) == Ok::<TempRelationHolderView, RelationErrorView>(h),
            Err(_) => pairing(dm, b, fb) is Err,
        },
{
    lemma_lex_lt_total(a.name, b.name);
}

proof fn lemma_same_twice(h: TempRelationHolderView)
    ensures
        first_of_each_name(seq![h, h]) == seq![h],
{
    let s = seq![h, h];
    assert(s.drop_last() =~= seq![h]);
    assert(seq![h].drop_last() =~= Seq::<TempRelationHolderView>::empty());
    assert(first_of_each_name(Seq::<TempRelationHolderView>::empty()) =~= Seq::empty());
    assert(!named_before(seq![h], 0));
    assert(first_of_each_name(seq![h]) =~= seq![h]);
    assert(s[0].name() == s[1].name());
    assert(named_before(s, 1));
}

/// Pairing is symmetric: where two models of different names are
/// connected by one relation, the fields can be paired in either order of
/// the two models or in neither, and where they can, the relations of the
/// data model are the same single relation whichever model comes first.
pub proof fn lemma_pairing_symmetric(
    enums: Seq<EnumView>,
    a: ModelView,
    ia: int,
    fa: RelationFieldView,
    b: ModelView,
    ib: int,
    fb: RelationFieldView,
)
    requires
        connected_by_one_relation(a, ia, fa, b, ib, fb),
    ensures
        relations(DatamodelView { enums, models: seq![a, b] }) is Ok <==> relations(
            DatamodelView { enums, models: seq![b, a] },
        ) is Ok,
        relations(DatamodelView { enums, models: seq![a, b] }) matches Ok(rs) ==> rs.len() == 1
            && relations(DatamodelView { enums, models: seq![b, a] }) == Ok::<
            Seq<TempRelationHolderView>,
            RelationErrorView,
        >(rs),
{
    let ab = DatamodelView { enums, models: seq![a, b] };
    let ba = DatamodelView { enums, models: seq![b, a] };
    lemma_two_models(ab, a, b);
    lemma_two_models(ba, b, a);
    lemma_single_relation_field(ab, a, ia, fa, a.fields.len() as int);
    lemma_single_relation_field(ab, b, ib, fb, b.fields.len() as int);
    lemma_single_relation_field(ba, a, ia, fa, a.fields.len() as int);
    lemma_single_relation_field(ba, b, ib, fb, b.fields.len() as int);
    lemma_opposite(ab, a, fa, b, ib, fb);
    lemma_opposite(ab, b, fb, a, ia, fa);
    lemma_opposite(ba, a, fa, b, ib, fb);
    lemma_opposite(ba, b, fb, a, ia, fa);
    lemma_pairing_mirrored(ab, a, fa, b, fb);
    lemma_pairing_mirrored(ba, a, fa, b, fb);
    let p = pairing(ab, a, fa);
    let q = pairing(ab, b, fb);
    assert(pairing(ba, a, fa) == p);
    assert(pairing(ba, b, fb) == q);
    let rs_ab = model_pairings(ab, 2);
    let rs_ba = model_pairings(ba, 2);
    assert(rs_ab =~= seq![p, q]);
    assert(rs_ba =~= seq![q, p]);
    let none = Seq::<Result<TempRelationHolderView, RelationErrorView>>::empty();
    assert(first_failure(none) is None);
    assert(rs_ab.drop_last() =~= seq![p]);
    assert(rs_ba.drop_last() =~= seq![q]);
    assert(seq![p].drop_last() =~= none);
    assert(seq![q].drop_last() =~= none);
    match p {
        Ok(h) => {
            assert(first_failure(seq![p]) is None);
            assert(first_failure(seq![q]) is None);
            assert(first_failure(rs_ab) is None);
            assert(first_failure(rs_ba) is None);
            assert(successes(rs_ab) =~= seq![h, h]);
            assert(successes(rs_ba) =~= seq![h, h]);
            lemma_same_twice(h);
        },
        Err(e) => {
            assert(first_failure(seq![p]) is Some);
            assert(first_failure(seq![q]) is Some);
            assert(first_failure(rs_ab) is Some);
            assert(first_failure(rs_ba) is Some);
        },
    }
}

} // verus!
