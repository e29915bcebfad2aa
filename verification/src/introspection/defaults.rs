//! The defaults that the legacy generations gave to identifiers without
//! telling the database.

use crate::dml::{
    Datamodel, DatamodelView, DefaultValue, DefaultValueView, Field, FieldView, Model, ModelView,
    ScalarField, ScalarFieldView, ValueGenerator, ValueGeneratorFn, ValueGeneratorView,
};
use crate::introspection::enrich::{column_of, table_of};
use crate::introspection::guardrails::warning_if_any;
use crate::introspection::reintrospect::{column_name, table_name};
use crate::introspection::warnings::WarningKind;
use crate::introspection::{Affected, AffectedView, SqlFamily, Version, Warning, WarningView};
use crate::seqs::{
    lemma_filter_map_step, lemma_flat_map_step, lemma_map_step, lemma_of_nothing, lemma_take_ends,
    list_clone,
};
use crate::sql_schema::{SqlSchema, SqlSchemaView};
use crate::text::{name_option_clone, names_clone};
use vstd::prelude::*;
use vstd::string::*;

verus! {

/// Whether the generation is one of the two legacy generations.
pub open spec fn is_legacy(version: Version) -> bool {
    version == Version::Prisma1 || version == Version::Prisma11
}

/// The default that a legacy generation gave to the field, if it is the
/// id of its model: the first generation made identifiers of 25
/// characters, the second of 36.
pub open spec fn legacy_default_of(schema: SqlSchemaView, m: ModelView, sf: ScalarFieldView) -> Option<
    ValueGeneratorFn,
> {
    if sf.is_id {
        match schema.table(table_of(m)) {
            Some(t) => match t.column(column_of(sf)) {
                Some(c) => if c.tpe.character_maximum_length == Some(25u32) {
                    Some(ValueGeneratorFn::CUID)
                } else if c.tpe.character_maximum_length == Some(36u32) {
                    Some(ValueGeneratorFn::UUID)
                } else {
                    None
                },
                None => None,
            },
            None => None,
        }
    } else {
        None
    }
}

/// A field with the default that a legacy generation gave it.
pub open spec fn with_default(schema: SqlSchemaView, m: ModelView) -> spec_fn(FieldView) -> FieldView {
    |f: FieldView|
        match f {
            FieldView::ScalarField(sf) => match legacy_default_of(schema, m, sf) {
                Some(ValueGeneratorFn::CUID) => FieldView::ScalarField(
                    ScalarFieldView {
                        default_value: Some(
                            DefaultValueView::Expression(
                                ValueGeneratorView {
                                    name: "cuid"@,
                                    generator: ValueGeneratorFn::CUID,
                                },
                            ),
                        ),
                        ..sf
                    },
                ),
                Some(ValueGeneratorFn::UUID) => FieldView::ScalarField(
                    ScalarFieldView {
                        default_value: Some(
                            DefaultValueView::Expression(
                                ValueGeneratorView {
                                    name: "uuid"@,
                                    generator: ValueGeneratorFn::UUID,
                                },
                            ),
                        ),
                        ..sf
                    },
                ),
                _ => f,
            },
            FieldView::RelationField(_) => f,
        }
}

/// A model with the defaults that a legacy generation gave its fields.
pub open spec fn defaulted_model(schema: SqlSchemaView) -> spec_fn(ModelView) -> ModelView {
    |m: ModelView| ModelView { fields: m.fields.map_values(with_default(schema, m)), ..m }
}

/// The data model with the defaults of the legacy generation that made
/// the database, if one did.
pub open spec fn with_legacy_defaults(
    schema: SqlSchemaView,
    version: Version,
    dm: DatamodelView,
) -> DatamodelView {
    if is_legacy(version) {
        DatamodelView { models: dm.models.map_values(defaulted_model(schema)), enums: dm.enums }
    } else {
        dm
    }
}

/// The fields that get the given default.
pub open spec fn gets(schema: SqlSchemaView, m: ModelView, generator: ValueGeneratorFn) -> spec_fn(
    FieldView,
) -> bool {
    |f: FieldView|
        match f {
            FieldView::ScalarField(sf) => legacy_default_of(schema, m, sf) == Some(generator),
            FieldView::RelationField(_) => false,
        }
}

pub open spec fn affected(m: ModelView) -> spec_fn(FieldView) -> AffectedView {
    |f: FieldView| AffectedView::model_and_field(m.name, f.name())
}

pub open spec fn defaulted_in(schema: SqlSchemaView, generator: ValueGeneratorFn) -> spec_fn(
    ModelView,
) -> Seq<AffectedView> {
    |m: ModelView| m.fields.filter(gets(schema, m, generator)).map_values(affected(m))
}

/// The warnings for the defaults that were added.
pub open spec fn legacy_warnings(schema: SqlSchemaView, version: Version, dm: DatamodelView) -> Seq<
    WarningView,
> {
    if is_legacy(version) {
        warning_if_any(
            WarningKind::DefaultCuid,
            dm.models.flat_map(defaulted_in(schema, ValueGeneratorFn::CUID)),
        ) + warning_if_any(
            WarningKind::DefaultUuid,
            dm.models.flat_map(defaulted_in(schema, ValueGeneratorFn::UUID)),
        )
    } else {
        Seq::empty()
    }
}

fn legacy_default(schema: &SqlSchema, m: &Model, sf: &ScalarField) -> (r: Option<ValueGeneratorFn>)
    ensures
        r == legacy_default_of(schema.deep_view(), m.deep_view(), sf.deep_view()),
{
    if !sf.is_id {
        return None;
    }
    match schema.get_table(table_name(m)) {
        Some(t) => match t.column(column_name(sf)) {
            Some(c) => match c.tpe.character_maximum_length {
                Some(25) => Some(ValueGeneratorFn::CUID),
                Some(36) => Some(ValueGeneratorFn::UUID),
                _ => None,
            },
            None => None,
        },
        None => None,
    }
}

#[verifier::loop_isolation(false)]
fn default_model(
    schema: &SqlSchema,
    m: &Model,
    cuids: &mut Vec<Affected>,
    uuids: &mut Vec<Affected>,
) -> (r: Model)
    ensures
        r.deep_view() == defaulted_model(schema.deep_view())(m.deep_view()),
        final(cuids).deep_view() == old(cuids).deep_view() + defaulted_in(
            schema.deep_view(),
            ValueGeneratorFn::CUID,
        )(m.deep_view()),
        final(uuids).deep_view() == old(uuids).deep_view() + defaulted_in(
            schema.deep_view(),
            ValueGeneratorFn::UUID,
        )(m.deep_view()),
{
    let ghost sv = schema.deep_view();
    let ghost mv = m.deep_view();
    let ghost c0 = cuids.deep_view();
    let ghost u0 = uuids.deep_view();
    let ghost f = with_default(sv, mv);
    let ghost pc = gets(sv, mv, ValueGeneratorFn::CUID);
    let ghost pu = gets(sv, mv, ValueGeneratorFn::UUID);
    let ghost a = affected(mv);
    let mut fields: Vec<Field> = Vec::new();
    let mut i: usize = 0;
    proof {
        lemma_take_ends(mv.fields);
        lemma_of_nothing(pc, f, |x: FieldView| Seq::<int>::empty());
        lemma_of_nothing(pu, a, |x: FieldView| Seq::<int>::empty());
        assert(c0 + mv.fields.take(0).filter(pc).map_values(a) =~= c0);
        assert(u0 + mv.fields.take(0).filter(pu).map_values(a) =~= u0);
    }
    while i < m.fields.len()
        invariant
            i <= m.fields.len(),
            fields.deep_view() == mv.fields.take(i as int).map_values(f),
            cuids.deep_view() == c0 + mv.fields.take(i as int).filter(pc).map_values(a),
            uuids.deep_view() == u0 + mv.fields.take(i as int).filter(pu).map_values(a),
        decreases m.fields.len() - i,
    {
        let ghost before = fields.deep_view();
        let ghost cb = cuids.deep_view();
        let ghost ub = uuids.deep_view();
        proof {
            lemma_map_step(mv.fields, f, i as int);
            lemma_filter_map_step(mv.fields, pc, a, i as int);
            lemma_filter_map_step(mv.fields, pu, a, i as int);
        }
        assert(mv.fields[i as int] == m.fields[i as int].deep_view());
        let field: Field = match &m.fields[i] {
            Field::ScalarField(sf) => {
                match legacy_default(schema, m, sf) {
                    Some(ValueGeneratorFn::CUID) => {
                        let who = Affected::model_and_field(m.name.as_str(), sf.name.as_str());
                        let ghost wv = who.deep_view();
                        cuids.push(who);
                        assert(cuids.deep_view() =~= cb.push(wv));
                        assert(cb.push(wv) =~= c0 + mv.fields.take(i as int).filter(
                            pc,
                        ).map_values(a).push(wv));
                        Field::ScalarField(
                            ScalarField {
                                name: sf.name.clone(),
                                field_type: sf.field_type.clone(),
                                arity: sf.arity,
                                database_name: name_option_clone(&sf.database_name),
                                default_value: Some(
                                    DefaultValue::Expression(ValueGenerator::new_cuid()),
                                ),
                                is_unique: sf.is_unique,
                                is_id: sf.is_id,
                                documentation: name_option_clone(&sf.documentation),
                                is_generated: sf.is_generated,
                                is_updated_at: sf.is_updated_at,
                                is_commented_out: sf.is_commented_out,
                            },
                        )
                    },
                    Some(ValueGeneratorFn::UUID) => {
                        let who = Affected::model_and_field(m.name.as_str(), sf.name.as_str());
                        let ghost wv = who.deep_view();
                        uuids.push(who);
                        assert(uuids.deep_view() =~= ub.push(wv));
                        assert(ub.push(wv) =~= u0 + mv.fields.take(i as int).filter(
                            pu,
                        ).map_values(a).push(wv));
                        Field::ScalarField(
                            ScalarField {
                                name: sf.name.clone(),
                                field_type: sf.field_type.clone(),
                                arity: sf.arity,
                                database_name: name_option_clone(&sf.database_name),
                                default_value: Some(
                                    DefaultValue::Expression(ValueGenerator::new_uuid()),
                                ),
                                is_unique: sf.is_unique,
                                is_id: sf.is_id,
                                documentation: name_option_clone(&sf.documentation),
                                is_generated: sf.is_generated,
                                is_updated_at: sf.is_updated_at,
                                is_commented_out: sf.is_commented_out,
                            },
                        )
                    },
                    _ => m.fields[i].clone(),
                }
            },
            Field::RelationField(_) => m.fields[i].clone(),
        };
        let ghost fv = field.deep_view();
        fields.push(field);
        assert(fields.deep_view() =~= before.push(fv));
        i = i + 1;
    }
    Model {
        name: m.name.clone(),
        fields,
        documentation: name_option_clone(&m.documentation),
        database_name: name_option_clone(&m.database_name),
        is_embedded: m.is_embedded,
        indices: list_clone(&m.indices),
        id_fields: names_clone(&m.id_fields),
        is_generated: m.is_generated,
        is_commented_out: m.is_commented_out,
    }
}

/// Gives the identifiers of a database that a legacy generation made the
/// defaults of that generation, with a warning for each kind of default.
#[verifier::loop_isolation(false)]
pub fn add_prisma_1_id_defaults(
    family: &SqlFamily,
    version: &Version,
    data_model: &mut Datamodel,
    schema: &SqlSchema,
    warnings: &mut Vec<Warning>,
)
    ensures
        final(data_model).deep_view() == with_legacy_defaults(
            schema.deep_view(),
            *version,
            old(data_model).deep_view(),
        ),
        final(warnings).deep_view() == old(warnings).deep_view() + legacy_warnings(
            schema.deep_view(),
            *version,
            old(data_model).deep_view(),
        ),
{
    let ghost sv = schema.deep_view();
    let ghost dmv = data_model.deep_view();
    let ghost w0 = warnings.deep_view();
    if !version.is_prisma1() {
        assert(w0 + Seq::<WarningView>::empty() =~= w0);
        return ;
    }
    let ghost f = defaulted_model(sv);
    let ghost gc = defaulted_in(sv, ValueGeneratorFn::CUID);
    let ghost gu = defaulted_in(sv, ValueGeneratorFn::UUID);
    let mut models: Vec<Model> = Vec::new();
    let mut cuids: Vec<Affected> = Vec::new();
    let mut uuids: Vec<Affected> = Vec::new();
    let mut i: usize = 0;
    proof {
        lemma_take_ends(dmv.models);
        lemma_of_nothing(|m: ModelView| true, f, gc);
        lemma_of_nothing(|m: ModelView| true, f, gu);
        assert(cuids.deep_view() =~= Seq::<AffectedView>::empty());
        assert(uuids.deep_view() =~= Seq::<AffectedView>::empty());
    }
    while i < data_model.models.len()
        invariant
            i <= data_model.models.len(),
            data_model.deep_view() == dmv,
            models.deep_view() == dmv.models.take(i as int).map_values(f),
            cuids.deep_view() == dmv.models.take(i as int).flat_map(gc),
            uuids.deep_view() == dmv.models.take(i as int).flat_map(gu),
        decreases data_model.models.len() - i,
    {
        let ghost before = models.deep_view();
        proof {
            lemma_map_step(dmv.models, f, i as int);
            lemma_flat_map_step(dmv.models, gc, i as int);
            lemma_flat_map_step(dmv.models, gu, i as int);
        }
        assert(dmv.models[i as int] == data_model.models[i as int].deep_view());
        let model = default_model(schema, &data_model.models[i], &mut cuids, &mut uuids);
        let ghost mv = model.deep_view();
        models.push(model);
        assert(models.deep_view() =~= before.push(mv));
        i = i + 1;
    }
    let ghost wc = warning_if_any(WarningKind::DefaultCuid, cuids.deep_view());
    let ghost wu = warning_if_any(WarningKind::DefaultUuid, uuids.deep_view());
    if cuids.len() > 0 {
        warnings.push(Warning::new(WarningKind::DefaultCuid, cuids));
    }
    assert(warnings.deep_view() =~= w0 + wc);
    if uuids.len() > 0 {
        warnings.push(Warning::new(WarningKind::DefaultUuid, uuids));
    }
    assert(warnings.deep_view() =~= w0 + (wc + wu));
    let enums = list_clone(&data_model.enums);
    *data_model = Datamodel { enums, models };
}

} // verus!
