//! The pairing itself.

use crate::dml::{
    Datamodel, DatamodelView, Field, FieldArity, FieldView, Model, ModelView, RelationField,
    RelationFieldView,
};
use crate::relations::{
    RelationError, RelationErrorView, TempManifestationHolder, TempManifestationHolderView,
    TempRelationHolder, TempRelationHolderView,
};
use crate::text::{lex_lt, names_clone, str_lt};
use vstd::prelude::*;
use vstd::string::*;

verus! {

/// Where the relation between `field` of `model` and `related_field` of
/// `related_model` lives, given the two sides in their order; `None` where
/// both fields of a one-to-one relation name the fields they refer to.
pub open spec fn manifestation_of(
    model: ModelView,
    field: RelationFieldView,
    related_model: ModelView,
    related_field: RelationFieldView,
    inline_on_a: TempManifestationHolderView,
    inline_on_b: TempManifestationHolderView,
    a_is_list: bool,
    b_is_list: bool,
    a_first: bool,
) -> Option<TempManifestationHolderView> {
    if a_is_list && b_is_list {
        Some(TempManifestationHolderView::Table)
    } else if !a_is_list && b_is_list {
        Some(inline_on_a)
    } else if a_is_list && !b_is_list {
        Some(inline_on_b)
    } else {
        let here = field.relation_info.to_fields.len() > 0;
        let there = related_field.relation_info.to_fields.len() > 0;
        if here && !there {
            Some(
                TempManifestationHolderView::Inline {
                    in_table_of_model: model.name,
                    field,
                    referenced_fields: field.relation_info.to_fields,
                },
            )
        } else if !here && there {
            Some(
                TempManifestationHolderView::Inline {
                    in_table_of_model: related_model.name,
                    field: related_field,
                    referenced_fields: related_field.relation_info.to_fields,
                },
            )
        } else if !here && !there {
            if a_first {
                Some(inline_on_a)
            } else {
                Some(inline_on_b)
            }
        } else {
            None
        }
    }
}

/// The relation that `field` of `model` belongs to, seen from that field.
pub open spec fn pairing(dm: DatamodelView, model: ModelView, field: RelationFieldView) -> Result<
    TempRelationHolderView,
    RelationErrorView,
> {
    let info = field.relation_info;
    match dm.find_model(info.to) {
        None => Err(RelationErrorView::RelatedModelNotFound { model: info.to }),
        Some(related_model) => match dm.find_related_field(model.name, field.name, info) {
            None => Err(
                RelationErrorView::RelatedFieldNotFound { model: model.name, field: field.name },
            ),
            Some(related_field) => {
                let related_info = related_field.relation_info;
                let forward = lex_lt(model.name, related_model.name);
                let backward = lex_lt(related_model.name, model.name);
                let field_first = lex_lt(field.name, related_field.name);
                let model_a = if backward {
                    related_model
                } else {
                    model
                };
                let model_b = if backward {
                    model
                } else {
                    related_model
                };
                let swap_fields = backward || (!forward && !field_first);
                let field_a = if swap_fields {
                    related_field
                } else {
                    field
                };
                let field_b = if swap_fields {
                    field
                } else {
                    related_field
                };
                let referenced_a = if backward {
                    related_info.to_fields
                } else {
                    info.to_fields
                };
                let referenced_b = if backward {
                    info.to_fields
                } else {
                    related_info.to_fields
                };
                let inline_on_a = TempManifestationHolderView::Inline {
                    in_table_of_model: model_a.name,
                    field: field_a,
                    referenced_fields: referenced_a,
                };
                let inline_on_b = TempManifestationHolderView::Inline {
                    in_table_of_model: model_b.name,
                    field: field_b,
                    referenced_fields: referenced_b,
                };
                match manifestation_of(
                    model,
                    field,
                    related_model,
                    related_field,
                    inline_on_a,
                    inline_on_b,
                    field_a.arity == FieldArity::List,
                    field_b.arity == FieldArity::List,
                    lex_lt(model_a.name, model_b.name),
                ) {
                    Some(manifestation) => Ok(
                        TempRelationHolderView {
                            name: info.name,
                            model_a,
                            model_b,
                            field_a,
                            field_b,
                            manifestation,
                        },
                    ),
                    None => Err(
                        RelationErrorView::BothSidesInline {
                            field: field.name,
                            model: model.name,
                            related_field: related_field.name,
                            related_model: related_model.name,
                        },
                    ),
                }
            },
        },
    }
}

/// What the relation fields among the first `k` fields of `model` pair to,
/// in the order of the fields.
pub open spec fn field_pairings(dm: DatamodelView, model: ModelView, k: int) -> Seq<
    Result<TempRelationHolderView, RelationErrorView>,
>
    decreases k,
{
    if k <= 0 {
        Seq::empty()
    } else {
        let before = field_pairings(dm, model, k - 1);
        match model.fields[k - 1] {
            FieldView::RelationField(rf) => before.push(pairing(dm, model, rf)),
            FieldView::ScalarField(_) => before,
        }
    }
}

/// What the relation fields of the first `n` models pair to, model by model.
pub open spec fn model_pairings(dm: DatamodelView, n: int) -> Seq<
    Result<TempRelationHolderView, RelationErrorView>,
>
    decreases n,
{
    if n <= 0 {
        Seq::empty()
    } else {
        model_pairings(dm, n - 1) + field_pairings(
            dm,
            dm.models[n - 1],
            dm.models[n - 1].fields.len() as int,
        )
    }
}

/// Whether an earlier relation of the list has the name of the one at `i`.
pub open spec fn named_before(s: Seq<TempRelationHolderView>, i: int) -> bool {
    exists|j: int| 0 <= j < i && #[trigger] s[j].name() == s[i].name()
}

/// The relations of the list without those whose name an earlier one has.
pub open spec fn first_of_each_name(s: Seq<TempRelationHolderView>) -> Seq<TempRelationHolderView>
    decreases s.len(),
{
    if s.len() == 0 {
        Seq::empty()
    } else {
        let before = first_of_each_name(s.drop_last());
        if named_before(s, s.len() - 1) {
            before
        } else {
            before.push(s.last())
        }
    }
}

/// The pairings of the list, where none of them failed.
pub open spec fn successes(
    rs: Seq<Result<TempRelationHolderView, RelationErrorView>>,
) -> Seq<TempRelationHolderView> {
    Seq::new(rs.len(), |i: int| rs[i]->Ok_0)
}

/// The first failure in the list, if there is one.
pub open spec fn first_failure(
    rs: Seq<Result<TempRelationHolderView, RelationErrorView>>,
) -> Option<RelationErrorView>
    decreases rs.len(),
{
    if rs.len() == 0 {
        None
    } else {
        match first_failure(rs.drop_last()) {
            Some(e) => Some(e),
            None => match rs.last() {
                Err(e) => Some(e),
                Ok(_) => None,
            },
        }
    }
}

/// The relations of a data model: one for each relation name, the one that
/// the first field of that name pairs to. Where a field cannot be paired,
/// the reason for the first such field.
pub open spec fn relations(dm: DatamodelView) -> Result<
    Seq<TempRelationHolderView>,
    RelationErrorView,
> {
    let rs = model_pairings(dm, dm.models.len() as int);
    match first_failure(rs) {
        Some(e) => Err(e),
        None => Ok(first_of_each_name(successes(rs))),
    }
}

/// Calls `itertools::Itertools::unique_by` with the relation's name as the
/// key. Not proved: that it keeps, in their order, exactly the relations
/// whose name no earlier relation of the list has, as its documentation says.
#[verifier::external_body]
fn unique_by_name(relations: Vec<TempRelationHolder>) -> (r: Vec<TempRelationHolder>)
    ensures
        r.deep_view() == first_of_each_name(relations.deep_view()),
{
    itertools::Itertools::unique_by(relations.into_iter(), |rel| rel.name()).collect()
}

/// The relation that `field` of `model` belongs to.
pub fn pair_field(datamodel: &Datamodel, model: &Model, field: &RelationField) -> (r: Result<
    TempRelationHolder,
    RelationError,
>)
    ensures
        match r {
            Ok(h) => pairing(datamodel.deep_view(), model.deep_view(), field.deep_view()) == Ok::<
                TempRelationHolderView,
                RelationErrorView,
            >(h.deep_view()),
            Err(e) => pairing(datamodel.deep_view(), model.deep_view(), field.deep_view()) == Err::<
                TempRelationHolderView,
                RelationErrorView,
            >(e.deep_view()),
        },
{
    let info = &field.relation_info;
    let related_model: &Model = match datamodel.find_model(info.to.as_str()) {
        Some(m) => m,
        None => {
            return Err(RelationError::RelatedModelNotFound { model: info.to.clone() });
        },
    };
    let related_field: &RelationField = match datamodel.find_related_field(
        model.name.as_str(),
        field,
    ) {
        Some(f) => f,
        None => {
            return Err(
                RelationError::RelatedFieldNotFound {
                    model: model.name.clone(),
                    field: field.name.clone(),
                },
            );
        },
    };
    let related_info = &related_field.relation_info;
    let forward: bool = str_lt(model.name.as_str(), related_model.name.as_str());
    let backward: bool = str_lt(related_model.name.as_str(), model.name.as_str());
    let field_first: bool = str_lt(field.name.as_str(), related_field.name.as_str());
    let swap_fields: bool = backward || (!forward && !field_first);
    let model_a: &Model = if backward {
        related_model
    } else {
        model
    };
    let model_b: &Model = if backward {
        model
    } else {
        related_model
    };
    let field_a: &RelationField = if swap_fields {
        related_field
    } else {
        field
    };
    let field_b: &RelationField = if swap_fields {
        field
    } else {
        related_field
    };
    let referenced_a: &Vec<String> = if backward {
        &related_info.to_fields
    } else {
        &info.to_fields
    };
    let referenced_b: &Vec<String> = if backward {
        &info.to_fields
    } else {
        &related_info.to_fields
    };
    let a_is_list: bool = field_a.is_list();
    let b_is_list: bool = field_b.is_list();
    let manifestation: TempManifestationHolder = if a_is_list && b_is_list {
        TempManifestationHolder::Table
    } else if !a_is_list && b_is_list {
        TempManifestationHolder::Inline {
            in_table_of_model: model_a.name.clone(),
            field: field_a.clone(),
            referenced_fields: names_clone(referenced_a),
        }
    } else if a_is_list && !b_is_list {
        TempManifestationHolder::Inline {
            in_table_of_model: model_b.name.clone(),
            field: field_b.clone(),
            referenced_fields: names_clone(referenced_b),
        }
    } else {
        let here: bool = info.to_fields.len() > 0;
        let there: bool = related_info.to_fields.len() > 0;
        if here && !there {
            TempManifestationHolder::Inline {
                in_table_of_model: model.name.clone(),
                field: field.clone(),
                referenced_fields: names_clone(&info.to_fields),
            }
        } else if !here && there {
            TempManifestationHolder::Inline {
                in_table_of_model: related_model.name.clone(),
                field: related_field.clone(),
                referenced_fields: names_clone(&related_info.to_fields),
            }
        } else if !here && !there {
            if str_lt(model_a.name.as_str(), model_b.name.as_str()) {
                TempManifestationHolder::Inline {
                    in_table_of_model: model_a.name.clone(),
                    field: field_a.clone(),
                    referenced_fields: names_clone(referenced_a),
                }
            } else {
                TempManifestationHolder::Inline {
                    in_table_of_model: model_b.name.clone(),
                    field: field_b.clone(),
                    referenced_fields: names_clone(referenced_b),
                }
            }
        } else {
            return Err(
                RelationError::BothSidesInline {
                    field: field.name.clone(),
                    model: model.name.clone(),
                    related_field: related_field.name.clone(),
                    related_model: related_model.name.clone(),
                },
            );
        }
    };
    Ok(
        TempRelationHolder {
            name: info.name.clone(),
            model_a: model_a.clone(),
            model_b: model_b.clone(),
            field_a: field_a.clone(),
            field_b: field_b.clone(),
            manifestation,
        },
    )
}

/// The pairings up to a field of a model are the start of all pairings.
pub proof fn lemma_pairings_prefix(dm: DatamodelView, i: int, j: int)
    requires
        0 <= i < dm.models.len(),
        0 <= j <= dm.models[i].fields.len(),
    ensures
        (model_pairings(dm, i) + field_pairings(dm, dm.models[i], j)).is_prefix_of(
            model_pairings(dm, dm.models.len() as int),
        ),
{
    let m = dm.models[i];
    lemma_field_pairings_prefix(dm, m, j, m.fields.len() as int);
    lemma_model_pairings_prefix(dm, i + 1, dm.models.len() as int);
    let part = model_pairings(dm, i) + field_pairings(dm, m, j);
    let whole_model = model_pairings(dm, i + 1);
    assert(part.is_prefix_of(whole_model));
}

proof fn lemma_field_pairings_prefix(dm: DatamodelView, m: ModelView, j: int, k: int)
    requires
        0 <= j <= k <= m.fields.len(),
    ensures
        field_pairings(dm, m, j).is_prefix_of(field_pairings(dm, m, k)),
    decreases k - j,
{
    if j < k {
        lemma_field_pairings_prefix(dm, m, j, k - 1);
    }
}

proof fn lemma_model_pairings_prefix(dm: DatamodelView, i: int, n: int)
    requires
        0 <= i <= n <= dm.models.len(),
    ensures
        model_pairings(dm, i).is_prefix_of(model_pairings(dm, n)),
    decreases n - i,
{
    if i < n {
        lemma_model_pairings_prefix(dm, i, n - 1);
    }
}

/// A list that starts with pairings that succeeded, followed by one that
/// failed, has that failure as its first.
pub proof fn lemma_first_failure_at(
    rs: Seq<Result<TempRelationHolderView, RelationErrorView>>,
    k: int,
)
    requires
        0 <= k < rs.len(),
        forall|x: int| 0 <= x < k ==> rs[x] is Ok,
        rs[k] is Err,
    ensures
        first_failure(rs) == Some(rs[k]->Err_0),
    decreases rs.len(),
{
    if rs.len() - 1 > k {
        lemma_first_failure_at(rs.drop_last(), k);
    } else {
        lemma_no_failure(rs.drop_last());
    }
}

/// A list of pairings that all succeeded has no failure.
pub proof fn lemma_no_failure(rs: Seq<Result<TempRelationHolderView, RelationErrorView>>)
    requires
        forall|x: int| 0 <= x < rs.len() ==> rs[x] is Ok,
    ensures
        first_failure(rs) is None,
    decreases rs.len(),
{
    if rs.len() > 0 {
        lemma_no_failure(rs.drop_last());
    }
}

/// Pairs the relation fields of the data model into relations: one for each
/// relation name. Fails where a relation field points to a missing model,
/// has no field opposite it, or where both fields of a one-to-one relation
/// name the fields they refer to.
#[verifier::loop_isolation(false)]
pub fn calculate_relations(datamodel: &Datamodel) -> (r: Result<
    Vec<TempRelationHolder>,
    RelationError,
>)
    ensures
        match r {
            Ok(v) => relations(datamodel.deep_view()) == Ok::<
                Seq<TempRelationHolderView>,
                RelationErrorView,
            >(v.deep_view()),
            Err(e) => relations(datamodel.deep_view()) == Err::<
                Seq<TempRelationHolderView>,
                RelationErrorView,
            >(e.deep_view()),
        },
{
    let ghost dm = datamodel.deep_view();
    let mut result: Vec<TempRelationHolder> = Vec::new();
    let mut i: usize = 0;
    while i < datamodel.models.len()
        invariant
            i <= datamodel.models.len(),
            forall|x: int| 0 <= x < model_pairings(dm, i as int).len() ==> model_pairings(
                dm,
                i as int,
            )[x] is Ok,
            result.deep_view() == successes(model_pairings(dm, i as int)),
        decreases datamodel.models.len() - i,
    {
        let model: &Model = &datamodel.models[i];
        let ghost m = dm.models[i as int];
        assert(m == model.deep_view());
        let mut j: usize = 0;
        while j < model.fields.len()
            invariant
                j <= model.fields.len(),
                i < datamodel.models.len(),
                m == model.deep_view(),
                m == dm.models[i as int],
                forall|x: int|
                    0 <= x < (model_pairings(dm, i as int) + field_pairings(dm, m, j as int)).len()
                        ==> (model_pairings(dm, i as int) + field_pairings(dm, m, j as int))[x] is Ok,
                result.deep_view() == successes(
                    model_pairings(dm, i as int) + field_pairings(dm, m, j as int),
                ),
            decreases model.fields.len() - j,
        {
            let ghost before = model_pairings(dm, i as int) + field_pairings(dm, m, j as int);
            let ghost after = model_pairings(dm, i as int) + field_pairings(dm, m, j + 1);
            assert(m.fields[j as int] == model.fields[j as int].deep_view());
            match &model.fields[j] {
                Field::RelationField(field) => {
                    let paired = pair_field(datamodel, model, field);
                    proof {
                        assert(after =~= before.push(pairing(dm, m, field.deep_view())));
                    }
                    match paired {
                        Ok(h) => {
                            let ghost earlier = result.deep_view();
                            let ghost hv = h.deep_view();
                            result.push(h);
                            proof {
                                assert(result.deep_view() =~= earlier.push(hv));
                                assert(after[before.len() as int] == Ok::<
                                    TempRelationHolderView,
                                    RelationErrorView,
                                >(hv));
                                assert forall|x: int| 0 <= x < after.len() implies successes(after)[x]
                                    == result.deep_view()[x] by {
                                    if x < before.len() {
                                        assert(after[x] == before[x]);
                                        assert(successes(before)[x] == before[x]->Ok_0);
                                    }
                                }
                                assert(result.deep_view() =~= successes(after));
                            }
                        },
                        Err(e) => {
                            proof {
                                lemma_pairings_prefix(dm, i as int, j + 1);
                                let all = model_pairings(dm, dm.models.len() as int);
                                assert forall|x: int| 0 <= x < before.len() implies
                                    all[x] is Ok by {
                                    assert(all[x] == after[x]);
                                    assert(after[x] == before[x]);
                                }
                                assert(all[before.len() as int] == after[before.len() as int]);
                                lemma_first_failure_at(all, before.len() as int);
                            }
                            return Err(e);
                        },
                    }
                },
                Field::ScalarField(_) => {
                    proof {
                        assert(after =~= before);
                    }
                },
            }
            j = j + 1;
        }
        proof {
            assert(model_pairings(dm, i + 1) =~= model_pairings(dm, i as int) + field_pairings(
                dm,
                m,
                m.fields.len() as int,
            ));
        }
        i = i + 1;
    }
    proof {
        lemma_no_failure(model_pairings(dm, dm.models.len() as int));
    }
    Ok(unique_by_name(result))
}

} // verus!
