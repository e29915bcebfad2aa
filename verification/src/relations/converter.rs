//! Converting a data model into the form that the query engine takes.

use crate::dml::{
    Datamodel, DatamodelView, DefaultValue, DefaultValueView, Enum, EnumValue, EnumValueView,
    EnumView, Field, FieldType, FieldTypeView, FieldView, IndexDefinition, IndexDefinitionView,
    Model, ModelView, RelationField, RelationFieldView, ScalarField, ScalarFieldView, ScalarType,
    ValueGeneratorFn,
};
use crate::relations::pairing::{calculate_relations, relations};
use crate::relations::templates::{
    ConvertError, ConvertErrorView, FieldBehaviour, FieldTemplate, FieldTemplateView, IndexTemplate,
    IndexTemplateView, IndexType, InternalDataModelTemplate, InternalDataModelTemplateView,
    InternalEnum, InternalEnumValue, InternalEnumValueView, InternalEnumView, ModelTemplate,
    ModelTemplateView, OnDelete, RelationFieldTemplate, RelationFieldTemplateView,
    RelationTemplate, RelationTemplateView, ScalarFieldTemplate, ScalarFieldTemplateView,
    TypeIdentifier, TypeIdentifierView,
};
use crate::relations::{RelationSide, TempRelationHolder, TempRelationHolderView};
use crate::seqs::{
    any, find, lemma_filter_map_step, lemma_map_step, lemma_of_nothing, lemma_position_is,
    lemma_position_none, lemma_take_ends, option_clone,
};
use crate::text::{name_option_clone, names_clone, str_eq};
use vstd::prelude::*;
use vstd::string::*;

verus! {

/// The kind of value of a builtin scalar type, where there is one.
pub open spec fn identifier_of_scalar(t: ScalarType) -> Option<TypeIdentifierView> {
    match t {
        ScalarType::Boolean => Some(TypeIdentifierView::Boolean),
        ScalarType::DateTime => Some(TypeIdentifierView::DateTime),
        ScalarType::Float => Some(TypeIdentifierView::Float),
        ScalarType::Int => Some(TypeIdentifierView::Int),
        ScalarType::String => Some(TypeIdentifierView::String),
        ScalarType::Json => Some(TypeIdentifierView::Json),
        _ => None,
    }
}

/// The kind of value of a type of a field, where there is one: a type
/// that cannot be represented has none.
pub open spec fn type_identifier_of(t: FieldTypeView) -> Option<TypeIdentifierView> {
    match t {
        FieldTypeView::Enum(x) => Some(TypeIdentifierView::Enum(x)),
        FieldTypeView::Relation(_) => Some(TypeIdentifierView::String),
        FieldTypeView::Base(scalar, _) => identifier_of_scalar(scalar),
        FieldTypeView::NativeType(scalar, _) => identifier_of_scalar(scalar),
        FieldTypeView::Unsupported(_) => None,
    }
}

/// The unique indexes over the field of the name alone.
pub open spec fn unique_over(name: Seq<char>) -> spec_fn(IndexDefinitionView) -> bool {
    |i: IndexDefinitionView| i.tpe == crate::dml::IndexType::Unique && i.fields == seq![name]
}

/// Whether the field is unique, by itself or through an index over it alone.
pub open spec fn unique_in(m: ModelView, sf: ScalarFieldView) -> bool {
    sf.is_unique || any(m.indices, unique_over(sf.name))
}

/// Whether the field is the id, by itself or as the one id field of its model.
pub open spec fn id_in(m: ModelView, sf: ScalarFieldView) -> bool {
    sf.is_id || m.id_fields == seq![sf.name]
}

/// Whether the default of the field counts up.
pub open spec fn autoincrementing(sf: ScalarFieldView) -> bool {
    match sf.default_value {
        Some(DefaultValueView::Expression(g)) => g.name == "autoincrement"@ && g.generator
            == ValueGeneratorFn::Autoincrement,
        _ => false,
    }
}

/// Whether the field is an id of whole numbers whose default is an expression.
pub open spec fn auto_generated_int_id(sf: ScalarFieldView) -> bool {
    sf.is_id && (sf.default_value matches Some(DefaultValueView::Expression(_)))
        && type_identifier_of(sf.field_type) == Some(TypeIdentifierView::Int)
}

/// A value of an enum as the query engine takes it.
pub open spec fn internal_value() -> spec_fn(EnumValueView) -> InternalEnumValueView {
    |v: EnumValueView| InternalEnumValueView { name: v.name, database_name: v.database_name }
}

/// An enum as the query engine takes it.
pub open spec fn internal_enum() -> spec_fn(EnumView) -> InternalEnumView {
    |e: EnumView| InternalEnumView { name: e.name, values: e.values.map_values(internal_value()) }
}

/// The enum of a field whose type is an enum of the data model.
pub open spec fn internal_enum_of(dm: DatamodelView, sf: ScalarFieldView) -> Option<InternalEnumView> {
    match sf.field_type {
        FieldTypeView::Enum(name) => match dm.find_enum(name) {
            Some(e) => Some(internal_enum()(e)),
            None => None,
        },
        _ => None,
    }
}

/// A scalar field as the query engine takes it, or why it cannot be taken.
pub open spec fn scalar_template(dm: DatamodelView, m: ModelView, sf: ScalarFieldView) -> Result<
    FieldTemplateView,
    ConvertErrorView,
> {
    match type_identifier_of(sf.field_type) {
        None => Err(ConvertErrorView::TypeNotSupported { model: m.name, field: sf.name }),
        Some(type_identifier) => Ok(
            FieldTemplateView::Scalar(
                ScalarFieldTemplateView {
                    name: sf.name,
                    type_identifier,
                    is_required: sf.arity == crate::dml::FieldArity::Required,
                    is_list: sf.arity == crate::dml::FieldArity::List,
                    is_unique: unique_in(m, sf),
                    is_id: id_in(m, sf),
                    is_auto_generated_int_id: auto_generated_int_id(sf),
                    is_autoincrement: autoincrementing(sf),
                    behaviour: if sf.is_updated_at {
                        Some(FieldBehaviour::UpdatedAt)
                    } else {
                        None
                    },
                    internal_enum: internal_enum_of(dm, sf),
                    db_name: sf.database_name,
                    arity: sf.arity,
                    default_value: sf.default_value,
                },
            ),
        ),
    }
}

/// The relations that the field of the model is one side of.
pub open spec fn holds_field(m: ModelView, rf: RelationFieldView) -> spec_fn(
    TempRelationHolderView,
) -> bool {
    |r: TempRelationHolderView| r.is_for_model_and_field(m, rf)
}

/// A relation field as the query engine takes it, with the first relation
/// that it is one side of; or that there is no such relation.
pub open spec fn relation_template(
    rels: Seq<TempRelationHolderView>,
    m: ModelView,
    rf: RelationFieldView,
) -> Result<FieldTemplateView, ConvertErrorView> {
    match find(rels, holds_field(m, rf)) {
        None => Err(ConvertErrorView::RelationNotFound { model: m.name, field: rf.name }),
        Some(r) => Ok(
            FieldTemplateView::Relation(
                RelationFieldTemplateView {
                    name: rf.name,
                    is_required: rf.arity == crate::dml::FieldArity::Required,
                    is_list: rf.arity == crate::dml::FieldArity::List,
                    relation_name: r.name,
                    relation_side: if rf == r.field_a {
                        RelationSide::A
                    } else {
                        RelationSide::B
                    },
                    relation_info: rf.relation_info,
                },
            ),
        ),
    }
}

/// A field as the query engine takes it, or why it cannot be taken.
pub open spec fn field_template(
    dm: DatamodelView,
    rels: Seq<TempRelationHolderView>,
    m: ModelView,
) -> spec_fn(FieldView) -> Result<FieldTemplateView, ConvertErrorView> {
    |f: FieldView|
        match f {
            FieldView::ScalarField(sf) => scalar_template(dm, m, sf),
            FieldView::RelationField(rf) => relation_template(rels, m, rf),
        }
}

/// A result as the specifications see it.
pub open spec fn viewed<T: DeepView, E: DeepView>(r: Result<T, E>) -> Result<T::V, E::V> {
    match r {
        Ok(x) => Ok(x.deep_view()),
        Err(e) => Err(e.deep_view()),
    }
}

/// All the values of a list of results, or the first error among them.
pub open spec fn gathered<T, E>(rs: Seq<Result<T, E>>) -> Result<Seq<T>, E>
    decreases rs.len(),
{
    if rs.len() == 0 {
        Ok(Seq::empty())
    } else {
        match gathered(rs.drop_last()) {
            Err(e) => Err(e),
            Ok(xs) => match rs.last() {
                Ok(x) => Ok(xs.push(x)),
                Err(e) => Err(e),
            },
        }
    }
}

/// An error among the first results is the error of all.
pub proof fn lemma_gathered_error<T, E>(rs: Seq<Result<T, E>>, k: int)
    requires
        0 <= k <= rs.len(),
        gathered(rs.take(k)) is Err,
    ensures
        gathered(rs) == gathered(rs.take(k)),
    decreases rs.len() - k,
{
    if k < rs.len() {
        assert(rs.take(k + 1).drop_last() =~= rs.take(k));
        lemma_gathered_error(rs, k + 1);
    } else {
        assert(rs.take(k) =~= rs);
    }
}

/// The indexes over more than one field.
pub open spec fn over_several() -> spec_fn(IndexDefinitionView) -> bool {
    |i: IndexDefinitionView| i.fields.len() > 1
}

/// An index as the query engine takes it.
pub open spec fn index_template() -> spec_fn(IndexDefinitionView) -> IndexTemplateView {
    |i: IndexDefinitionView|
        IndexTemplateView {
            name: i.name,
            fields: i.fields,
            typ: match i.tpe {
                crate::dml::IndexType::Unique => IndexType::Unique,
                crate::dml::IndexType::Normal => IndexType::Normal,
            },
        }
}

/// The fields of a model as the query engine takes them, or why the first
/// field that cannot be taken cannot be taken.
pub open spec fn field_templates(
    dm: DatamodelView,
    rels: Seq<TempRelationHolderView>,
    m: ModelView,
) -> Result<
    Seq<FieldTemplateView>,
    ConvertErrorView,
> {
    gathered(m.fields.map_values(field_template(dm, rels, m)))
}

/// A model as the query engine takes it: its indexes are those over more
/// than one field, as an index over one field is told by the field.
pub open spec fn model_template(dm: DatamodelView, rels: Seq<TempRelationHolderView>) -> spec_fn(
    ModelView,
) -> Result<ModelTemplateView, ConvertErrorView> {
    |m: ModelView|
        match field_templates(dm, rels, m) {
            Err(e) => Err(e),
            Ok(fields) => Ok(
                ModelTemplateView {
                    name: m.name,
                    is_embedded: m.is_embedded,
                    fields,
                    manifestation: m.database_name,
                    id_field_names: m.id_fields,
                    indexes: m.indices.filter(over_several()).map_values(index_template()),
                    dml_model: m,
                },
            ),
        }
}

/// A relation as the query engine takes it.
pub open spec fn relation_of() -> spec_fn(TempRelationHolderView) -> RelationTemplateView {
    |r: TempRelationHolderView|
        RelationTemplateView {
            name: r.name(),
            model_a_on_delete: OnDelete::SetNull,
            model_b_on_delete: OnDelete::SetNull,
            manifestation: r.manifestation(),
            model_a_name: r.model_a.name,
            model_b_name: r.model_b.name,
        }
}

/// The data model as the query engine takes it, given its relations.
pub open spec fn converted_with(dm: DatamodelView, rels: Seq<TempRelationHolderView>) -> Result<
    InternalDataModelTemplateView,
    ConvertErrorView,
> {
    match gathered(dm.models.map_values(model_template(dm, rels))) {
        Err(e) => Err(e),
        Ok(models) => Ok(
            InternalDataModelTemplateView {
                models,
                relations: rels.map_values(relation_of()),
                enums: dm.enums.map_values(internal_enum()),
                version: Some("v2"@),
            },
        ),
    }
}

/// The data model as the query engine takes it: its models, the relations
/// that its relation fields pair to, and its enums. Or why it cannot be
/// taken: because the relation fields cannot be paired, or for the first
/// field of the first model that cannot be taken.
pub open spec fn converted(dm: DatamodelView) -> Result<
    InternalDataModelTemplateView,
    ConvertErrorView,
> {
    match relations(dm) {
        Err(e) => Err(ConvertErrorView::Relations(e)),
        Ok(rels) => converted_with(dm, rels),
    }
}

impl ScalarType {
    fn identifier(&self) -> (r: Option<TypeIdentifier>)
        ensures
            r.deep_view() == identifier_of_scalar(*self),
    {
        match self {
            ScalarType::Boolean => Some(TypeIdentifier::Boolean),
            ScalarType::DateTime => Some(TypeIdentifier::DateTime),
            ScalarType::Float => Some(TypeIdentifier::Float),
            ScalarType::Int => Some(TypeIdentifier::Int),
            ScalarType::String => Some(TypeIdentifier::String),
            ScalarType::Json => Some(TypeIdentifier::Json),
            _ => None,
        }
    }
}

impl ScalarField {
    /// The kind of value that the field holds, where there is one.
    pub fn type_identifier(&self) -> (r: Option<TypeIdentifier>)
        ensures
            r.deep_view() == type_identifier_of(self.field_type.deep_view()),
    {
        match &self.field_type {
            FieldType::Enum(x) => Some(TypeIdentifier::Enum(x.clone())),
            FieldType::Relation(_) => Some(TypeIdentifier::String),
            FieldType::Base(scalar, _) => scalar.identifier(),
            FieldType::NativeType(scalar, _) => scalar.identifier(),
            FieldType::Unsupported(_) => None,
        }
    }

    /// Whether the field is unique, by itself or through an index over it alone.
    #[verifier::loop_isolation(false)]
    pub fn is_unique(&self, model: &Model) -> (r: bool)
        ensures
            r == unique_in(model.deep_view(), self.deep_view()),
    {
        if self.is_unique {
            return true;
        }
        let ghost p = unique_over(self.name@);
        let ghost s = model.deep_view().indices;
        let mut i: usize = 0;
        while i < model.indices.len()
            invariant
                i <= model.indices.len(),
                forall|j: int| 0 <= j < i ==> !p(#[trigger] s[j]),
            decreases model.indices.len() - i,
        {
            let index: &IndexDefinition = &model.indices[i];
            assert(s[i as int] == index.deep_view());
            let over_this: bool = index.fields.len() == 1 && str_eq(
                index.fields[0].as_str(),
                self.name.as_str(),
            );
            proof {
                let one = seq![self.name@];
                assert(one.len() == 1 && one[0] == self.name@);
                if index.fields.len() == 1 {
                    assert(index.deep_view().fields[0] == index.fields[0]@);
                    if over_this {
                        assert(index.deep_view().fields =~= one);
                    }
                } else {
                    assert(index.deep_view().fields.len() != one.len());
                }
            }
            if index.tpe == crate::dml::IndexType::Unique && over_this {
                proof {
                    lemma_position_is(s, p, i as int);
                }
                return true;
            }
            i = i + 1;
        }
        proof {
            lemma_position_none(s, p);
        }
        false
    }

    /// Whether the field is the id, by itself or as the one id field of its model.
    pub fn is_id(&self, model: &Model) -> (r: bool)
        ensures
            r == id_in(model.deep_view(), self.deep_view()),
    {
        let alone: bool = model.id_fields.len() == 1 && str_eq(
            model.id_fields[0].as_str(),
            self.name.as_str(),
        );
        proof {
            let one = seq![self.name@];
            assert(one.len() == 1 && one[0] == self.name@);
            if model.id_fields.len() == 1 {
                assert(model.deep_view().id_fields[0] == model.id_fields[0]@);
                if alone {
                    assert(model.deep_view().id_fields =~= one);
                }
            } else {
                assert(model.deep_view().id_fields.len() != one.len());
            }
        }
        self.is_id || alone
    }

    /// Whether the default of the field counts up.
    pub fn is_auto_increment(&self) -> (r: bool)
        ensures
            r == autoincrementing(self.deep_view()),
    {
        match &self.default_value {
            Some(DefaultValue::Expression(g)) => str_eq(g.name.as_str(), "autoincrement") && g.generator
                == ValueGeneratorFn::Autoincrement,
            _ => false,
        }
    }

    /// Whether the field is an id of whole numbers whose default is an expression.
    pub fn is_auto_generated_int_id(&self) -> (r: bool)
        ensures
            r == auto_generated_int_id(self.deep_view()),
    {
        let generated: bool = match &self.default_value {
            Some(DefaultValue::Expression(_)) => self.is_id,
            _ => false,
        };
        let whole: bool = match self.type_identifier() {
            Some(TypeIdentifier::Int) => true,
            _ => false,
        };
        generated && whole
    }

    /// What the field does by itself.
    pub fn behaviour(&self) -> (r: Option<FieldBehaviour>)
        ensures
            r == if self.is_updated_at {
                Some(FieldBehaviour::UpdatedAt)
            } else {
                None
            },
    {
        if self.is_updated_at {
            Some(FieldBehaviour::UpdatedAt)
        } else {
            None
        }
    }

    /// The enum of the field, where its type is an enum of the data model.
    pub fn internal_enum(&self, datamodel: &Datamodel) -> (r: Option<InternalEnum>)
        ensures
            r.deep_view() == internal_enum_of(datamodel.deep_view(), self.deep_view()),
    {
        match &self.field_type {
            FieldType::Enum(name) => match datamodel.find_enum(name.as_str()) {
                Some(e) => Some(convert_enum(e)),
                None => None,
            },
            _ => None,
        }
    }
}

/// A value of an enum as the query engine takes it.
pub fn internal_enum_value(enum_value: &EnumValue) -> (r: InternalEnumValue)
    ensures
        r.deep_view() == internal_value()(enum_value.deep_view()),
{
    InternalEnumValue {
        name: enum_value.name.clone(),
        database_name: name_option_clone(&enum_value.database_name),
    }
}

/// The values of an enum as the query engine takes them.
#[verifier::loop_isolation(false)]
pub fn convert_enum_values(enm: &Enum) -> (r: Vec<InternalEnumValue>)
    ensures
        r.deep_view() == enm.deep_view().values.map_values(internal_value()),
{
    let ghost s = enm.deep_view().values;
    let ghost f = internal_value();
    let mut out: Vec<InternalEnumValue> = Vec::new();
    let mut i: usize = 0;
    proof {
        lemma_take_ends(s);
        assert(out.deep_view() =~= s.take(0).map_values(f));
    }
    while i < enm.values.len()
        invariant
            i <= enm.values.len(),
            out.deep_view() == s.take(i as int).map_values(f),
        decreases enm.values.len() - i,
    {
        let ghost before = out.deep_view();
        let v: InternalEnumValue = internal_enum_value(&enm.values[i]);
        assert(s[i as int] == enm.values[i as int].deep_view());
        let ghost vv = v.deep_view();
        out.push(v);
        proof {
            lemma_map_step(s, f, i as int);
            assert(out.deep_view() =~= before.push(vv));
        }
        i = i + 1;
    }
    proof {
        lemma_take_ends(s);
    }
    out
}

/// An enum as the query engine takes it.
pub fn convert_enum(e: &Enum) -> (r: InternalEnum)
    ensures
        r.deep_view() == internal_enum()(e.deep_view()),
{
    InternalEnum { name: e.name.clone(), values: convert_enum_values(e) }
}

/// Converts a data model into the form that the query engine takes.
pub struct DatamodelConverter<'a> {
    pub datamodel: &'a Datamodel,
    pub relations: Vec<TempRelationHolder>,
}

impl<'a> DatamodelConverter<'a> {
    /// The data model as the query engine takes it, or why it cannot be taken.
    pub fn convert(datamodel: &Datamodel) -> (r: Result<InternalDataModelTemplate, ConvertError>)
        ensures
            viewed(r) == converted(datamodel.deep_view()),
    {
        match DatamodelConverter::new(datamodel) {
            Ok(converter) => converter.convert_internal(),
            Err(e) => Err(ConvertError::Relations(e)),
        }
    }

    /// A converter of the data model, with its relations; or why its
    /// relation fields cannot be paired.
    pub fn new(datamodel: &'a Datamodel) -> (r: Result<
        DatamodelConverter<'a>,
        crate::relations::RelationError,
    >)
        ensures
            match r {
                Ok(c) => c.datamodel == datamodel && relations(datamodel.deep_view()) == Ok::<
                    Seq<TempRelationHolderView>,
                    crate::relations::RelationErrorView,
                >(c.relations.deep_view()),
                Err(e) => relations(datamodel.deep_view()) == Err::<
                    Seq<TempRelationHolderView>,
                    crate::relations::RelationErrorView,
                >(e.deep_view()),
            },
    {
        match calculate_relations(datamodel) {
            Ok(relations) => Ok(DatamodelConverter { datamodel, relations }),
            Err(e) => Err(e),
        }
    }

    /// The data model as the query engine takes it, given the relations.
    pub fn convert_internal(&self) -> (r: Result<InternalDataModelTemplate, ConvertError>)
        ensures
            viewed(r) == converted_with(self.datamodel.deep_view(), self.relations.deep_view()),
    {
        match self.convert_models() {
            Err(e) => Err(e),
            Ok(models) => Ok(
                InternalDataModelTemplate {
                    models,
                    relations: self.convert_relations(),
                    enums: self.convert_enums(),
                    version: Some("v2".to_owned()),
                },
            ),
        }
    }

    /// The enums as the query engine takes them.
    #[verifier::loop_isolation(false)]
    pub fn convert_enums(&self) -> (r: Vec<InternalEnum>)
        ensures
            r.deep_view() == self.datamodel.deep_view().enums.map_values(internal_enum()),
    {
        let ghost s = self.datamodel.deep_view().enums;
        let ghost f = internal_enum();
        let mut out: Vec<InternalEnum> = Vec::new();
        let mut i: usize = 0;
        proof {
            lemma_take_ends(s);
            assert(out.deep_view() =~= s.take(0).map_values(f));
        }
        while i < self.datamodel.enums.len()
            invariant
                i <= self.datamodel.enums.len(),
                out.deep_view() == s.take(i as int).map_values(f),
            decreases self.datamodel.enums.len() - i,
        {
            let ghost before = out.deep_view();
            let e: InternalEnum = convert_enum(&self.datamodel.enums[i]);
            assert(s[i as int] == self.datamodel.enums[i as int].deep_view());
            let ghost ev = e.deep_view();
            out.push(e);
            proof {
                lemma_map_step(s, f, i as int);
                assert(out.deep_view() =~= before.push(ev));
            }
            i = i + 1;
        }
        proof {
            lemma_take_ends(s);
        }
        out
    }

    /// The models as the query engine takes them, or why the first model
    /// that cannot be taken cannot be taken.
    #[verifier::loop_isolation(false)]
    pub fn convert_models(&self) -> (r: Result<Vec<ModelTemplate>, ConvertError>)
        ensures
            viewed(r) == gathered(
                self.datamodel.deep_view().models.map_values(
                    model_template(self.datamodel.deep_view(), self.relations.deep_view()),
                ),
            ),
    {
        let ghost f = model_template(self.datamodel.deep_view(), self.relations.deep_view());
        let ghost rs = self.datamodel.deep_view().models.map_values(f);
        let mut out: Vec<ModelTemplate> = Vec::new();
        let mut i: usize = 0;
        proof {
            assert(rs.take(0) =~= Seq::empty());
            assert(out.deep_view() =~= Seq::empty());
        }
        while i < self.datamodel.models.len()
            invariant
                i <= self.datamodel.models.len(),
                gathered(rs.take(i as int)) == Ok::<Seq<ModelTemplateView>, ConvertErrorView>(
                    out.deep_view(),
                ),
            decreases self.datamodel.models.len() - i,
        {
            let model: &Model = &self.datamodel.models[i];
            assert(self.datamodel.deep_view().models[i as int] == model.deep_view());
            proof {
                assert(rs.take(i + 1).drop_last() =~= rs.take(i as int));
                assert(rs.take(i + 1).last() == f(model.deep_view()));
            }
            match self.convert_fields(model) {
                Err(e) => {
                    proof {
                        lemma_gathered_error(rs, i + 1);
                    }
                    return Err(e);
                },
                Ok(fields) => {
                    let ghost before = out.deep_view();
                    let template = ModelTemplate {
                        name: model.name.clone(),
                        is_embedded: model.is_embedded,
                        fields,
                        manifestation: name_option_clone(&model.database_name),
                        id_field_names: names_clone(&model.id_fields),
                        indexes: self.convert_indexes(model),
                        dml_model: model.clone(),
                    };
                    let ghost tv = template.deep_view();
                    out.push(template);
                    assert(out.deep_view() =~= before.push(tv));
                },
            }
            i = i + 1;
        }
        proof {
            assert(rs.take(rs.len() as int) =~= rs);
        }
        Ok(out)
    }

    /// The first relation that the field of the model is one side of.
    #[verifier::loop_isolation(false)]
    fn relation_for(&self, model: &Model, rf: &RelationField) -> (r: Option<&TempRelationHolder>)
        ensures
            r.deep_view() == find(
                self.relations.deep_view(),
                holds_field(model.deep_view(), rf.deep_view()),
            ),
    {
        let ghost s = self.relations.deep_view();
        let ghost p = holds_field(model.deep_view(), rf.deep_view());
        let mut i: usize = 0;
        while i < self.relations.len()
            invariant
                i <= self.relations.len(),
                forall|j: int| 0 <= j < i ==> !p(#[trigger] s[j]),
            decreases self.relations.len() - i,
        {
            assert(s[i as int] == self.relations[i as int].deep_view());
            if self.relations[i].is_for_model_and_field(model, rf) {
                proof {
                    lemma_position_is(s, p, i as int);
                }
                return Some(&self.relations[i]);
            }
            i = i + 1;
        }
        proof {
            lemma_position_none(s, p);
        }
        None
    }

    /// A field as the query engine takes it, or why it cannot be taken.
    fn convert_field(&self, model: &Model, field: &Field) -> (r: Result<FieldTemplate, ConvertError>)
        ensures
            viewed(r) == field_template(
                self.datamodel.deep_view(),
                self.relations.deep_view(),
                model.deep_view(),
            )(field.deep_view()),
    {
        match field {
            Field::RelationField(rf) => match self.relation_for(model, rf) {
                None => Err(
                    ConvertError::RelationNotFound {
                        model: model.name.clone(),
                        field: rf.name.clone(),
                    },
                ),
                Some(relation) => {
                    let side: RelationSide = match relation.relation_side(rf) {
                        Some(RelationSide::A) => RelationSide::A,
                        _ => RelationSide::B,
                    };
                    Ok(
                        FieldTemplate::Relation(
                            RelationFieldTemplate {
                                name: rf.name.clone(),
                                is_required: rf.is_required(),
                                is_list: rf.is_list(),
                                relation_name: relation.name.clone(),
                                relation_side: side,
                                relation_info: rf.relation_info.clone(),
                            },
                        ),
                    )
                },
            },
            Field::ScalarField(sf) => match sf.type_identifier() {
                None => Err(
                    ConvertError::TypeNotSupported {
                        model: model.name.clone(),
                        field: sf.name.clone(),
                    },
                ),
                Some(type_identifier) => Ok(
                    FieldTemplate::Scalar(
                        ScalarFieldTemplate {
                            name: sf.name.clone(),
                            type_identifier,
                            is_required: sf.is_required(),
                            is_list: sf.is_list(),
                            is_unique: sf.is_unique(model),
                            is_id: sf.is_id(model),
                            is_auto_generated_int_id: sf.is_auto_generated_int_id(),
                            is_autoincrement: sf.is_auto_increment(),
                            behaviour: sf.behaviour(),
                            internal_enum: sf.internal_enum(self.datamodel),
                            db_name: name_option_clone(&sf.database_name),
                            arity: sf.arity,
                            default_value: option_clone(&sf.default_value),
                        },
                    ),
                ),
            },
        }
    }

    /// The fields of a model as the query engine takes them, or why the
    /// first field that cannot be taken cannot be taken.
    #[verifier::loop_isolation(false)]
    pub fn convert_fields(&self, model: &Model) -> (r: Result<Vec<FieldTemplate>, ConvertError>)
        ensures
            viewed(r) == field_templates(
                self.datamodel.deep_view(),
                self.relations.deep_view(),
                model.deep_view(),
            ),
    {
        let ghost f = field_template(
            self.datamodel.deep_view(),
            self.relations.deep_view(),
            model.deep_view(),
        );
        let ghost rs = model.deep_view().fields.map_values(f);
        let mut out: Vec<FieldTemplate> = Vec::new();
        let mut i: usize = 0;
        proof {
            assert(rs.take(0) =~= Seq::empty());
            assert(out.deep_view() =~= Seq::empty());
        }
        while i < model.fields.len()
            invariant
                i <= model.fields.len(),
                gathered(rs.take(i as int)) == Ok::<Seq<FieldTemplateView>, ConvertErrorView>(
                    out.deep_view(),
                ),
            decreases model.fields.len() - i,
        {
            let field: &Field = &model.fields[i];
            assert(model.deep_view().fields[i as int] == field.deep_view());
            proof {
                assert(rs.take(i + 1).drop_last() =~= rs.take(i as int));
                assert(rs.take(i + 1).last() == f(field.deep_view()));
            }
            match self.convert_field(model, field) {
                Err(e) => {
                    proof {
                        lemma_gathered_error(rs, i + 1);
                    }
                    return Err(e);
                },
                Ok(template) => {
                    let ghost before = out.deep_view();
                    let ghost tv = template.deep_view();
                    out.push(template);
                    assert(out.deep_view() =~= before.push(tv));
                },
            }
            i = i + 1;
        }
        proof {
            assert(rs.take(rs.len() as int) =~= rs);
        }
        Ok(out)
    }

    /// The relations as the query engine takes them.
    #[verifier::loop_isolation(false)]
    pub fn convert_relations(&self) -> (r: Vec<RelationTemplate>)
        ensures
            r.deep_view() == self.relations.deep_view().map_values(relation_of()),
    {
        let ghost s = self.relations.deep_view();
        let ghost f = relation_of();
        let mut out: Vec<RelationTemplate> = Vec::new();
        let mut i: usize = 0;
        proof {
            lemma_take_ends(s);
            assert(out.deep_view() =~= s.take(0).map_values(f));
        }
        while i < self.relations.len()
            invariant
                i <= self.relations.len(),
                out.deep_view() == s.take(i as int).map_values(f),
            decreases self.relations.len() - i,
        {
            let ghost before = out.deep_view();
            let r: &TempRelationHolder = &self.relations[i];
            assert(s[i as int] == r.deep_view());
            let template = RelationTemplate {
                name: r.name(),
                model_a_on_delete: OnDelete::SetNull,
                model_b_on_delete: OnDelete::SetNull,
                manifestation: r.manifestation(),
                model_a_name: r.model_a.name.clone(),
                model_b_name: r.model_b.name.clone(),
            };
            let ghost tv = template.deep_view();
            out.push(template);
            proof {
                lemma_map_step(s, f, i as int);
                assert(out.deep_view() =~= before.push(tv));
            }
            i = i + 1;
        }
        proof {
            lemma_take_ends(s);
        }
        out
    }

    /// The indexes of a model over more than one field.
    #[verifier::loop_isolation(false)]
    pub fn convert_indexes(&self, model: &Model) -> (r: Vec<IndexTemplate>)
        ensures
            r.deep_view() == model.deep_view().indices.filter(over_several()).map_values(
                index_template(),
            ),
    {
        let ghost s = model.deep_view().indices;
        let ghost p = over_several();
        let ghost f = index_template();
        let mut out: Vec<IndexTemplate> = Vec::new();
        let mut i: usize = 0;
        proof {
            lemma_take_ends(s);
            lemma_of_nothing::<IndexDefinitionView, IndexTemplateView, IndexTemplateView>(
                p,
                f,
                |x: IndexDefinitionView| Seq::empty(),
            );
            assert(out.deep_view() =~= s.take(0).filter(p).map_values(f));
        }
        while i < model.indices.len()
            invariant
                i <= model.indices.len(),
                out.deep_view() == s.take(i as int).filter(p).map_values(f),
            decreases model.indices.len() - i,
        {
            let index: &IndexDefinition = &model.indices[i];
            assert(s[i as int] == index.deep_view());
            proof {
                lemma_filter_map_step(s, p, f, i as int);
            }
            if index.fields.len() > 1 {
                let ghost before = out.deep_view();
                let template = IndexTemplate {
                    name: name_option_clone(&index.name),
                    fields: names_clone(&index.fields),
                    typ: match index.tpe {
                        crate::dml::IndexType::Unique => IndexType::Unique,
                        crate::dml::IndexType::Normal => IndexType::Normal,
                    },
                };
                let ghost tv = template.deep_view();
                out.push(template);
                assert(out.deep_view() =~= before.push(tv));
            }
            i = i + 1;
        }
        proof {
            lemma_take_ends(s);
        }
        out
    }
}

} // verus!
