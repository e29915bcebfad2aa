//! Building a data model and finding things in it.

use crate::dml::{
    Datamodel, DatamodelView, Enum, EnumValue, EnumView, Field, FieldArity, FieldType, FieldView,
    IndexDefinition, Model, ModelView, RelationField, RelationFieldView, RelationInfo,
    RelationInfoView, ScalarField, ValueGenerator, ValueGeneratorFn,
};
use crate::seqs::{find, lemma_position_is, lemma_position_none, position};
use crate::text::str_eq;
use vstd::prelude::*;
use vstd::string::*;

verus! {

/// The models of the given name.
pub open spec fn model_named(name: Seq<char>) -> spec_fn(ModelView) -> bool {
    |m: ModelView| m.name == name
}

/// The enums of the given name.
pub open spec fn enum_named(name: Seq<char>) -> spec_fn(EnumView) -> bool {
    |e: EnumView| e.name == name
}

/// The fields of the given name.
pub open spec fn field_named(name: Seq<char>) -> spec_fn(FieldView) -> bool {
    |f: FieldView| f.name() == name
}

/// The fields that stand opposite a relation field: relation fields of the
/// same relation name that are not the field itself. Where the relation has
/// no name, the field must point back at `source`.
pub open spec fn is_opposite(
    source: Seq<char>,
    field_name: Seq<char>,
    info: RelationInfoView,
) -> spec_fn(FieldView) -> bool {
    |f: FieldView|
        match f {
            FieldView::RelationField(rf) => rf.relation_info.name == info.name && (info.name.len()
                > 0 || rf.relation_info.to == source) && (rf.relation_info.to != info.to || rf.name
                != field_name),
            FieldView::ScalarField(_) => false,
        }
}

impl ValueGenerator {
    pub fn new_autoincrement() -> (r: ValueGenerator)
        ensures
            r.name@ == "autoincrement"@,
            r.generator == ValueGeneratorFn::Autoincrement,
    {
        ValueGenerator { name: "autoincrement".to_owned(), generator: ValueGeneratorFn::Autoincrement }
    }

    pub fn new_now() -> (r: ValueGenerator)
        ensures
            r.name@ == "now"@,
            r.generator == ValueGeneratorFn::Now,
    {
        ValueGenerator { name: "now".to_owned(), generator: ValueGeneratorFn::Now }
    }

    pub fn new_cuid() -> (r: ValueGenerator)
        ensures
            r.name@ == "cuid"@,
            r.generator == ValueGeneratorFn::CUID,
    {
        ValueGenerator { name: "cuid".to_owned(), generator: ValueGeneratorFn::CUID }
    }

    pub fn new_uuid() -> (r: ValueGenerator)
        ensures
            r.name@ == "uuid"@,
            r.generator == ValueGeneratorFn::UUID,
    {
        ValueGenerator { name: "uuid".to_owned(), generator: ValueGeneratorFn::UUID }
    }

    pub fn new_dbgenerated() -> (r: ValueGenerator)
        ensures
            r.name@ == "dbgenerated"@,
            r.generator == ValueGeneratorFn::DbGenerated,
    {
        ValueGenerator { name: "dbgenerated".to_owned(), generator: ValueGeneratorFn::DbGenerated }
    }
}

impl FieldView {
    pub open spec fn name(self) -> Seq<char> {
        match self {
            FieldView::ScalarField(sf) => sf.name,
            FieldView::RelationField(rf) => rf.name,
        }
    }

    pub open spec fn arity(self) -> FieldArity {
        match self {
            FieldView::ScalarField(sf) => sf.arity,
            FieldView::RelationField(rf) => rf.arity,
        }
    }
}

impl Field {
    pub fn name(&self) -> (r: &str)
        ensures
            r@ == self.deep_view().name(),
    {
        match self {
            Field::ScalarField(sf) => sf.name.as_str(),
            Field::RelationField(rf) => rf.name.as_str(),
        }
    }

    pub fn arity(&self) -> (r: FieldArity)
        ensures
            r == self.deep_view().arity(),
    {
        match self {
            Field::ScalarField(sf) => sf.arity,
            Field::RelationField(rf) => rf.arity,
        }
    }

    pub fn is_relation(&self) -> (r: bool)
        ensures
            r == (self.deep_view() is RelationField),
    {
        matches!(self, Field::RelationField(_))
    }
}

impl RelationField {
    /// A relation field with no documentation, neither generated nor commented out.
    pub fn new(name: &str, arity: FieldArity, relation_info: RelationInfo) -> (r: RelationField)
        ensures
            r.deep_view() == (RelationFieldView {
                name: name@,
                relation_info: relation_info.deep_view(),
                arity,
                documentation: None,
                is_generated: false,
                is_commented_out: false,
            }),
    {
        RelationField {
            name: name.to_owned(),
            relation_info,
            arity,
            documentation: None,
            is_generated: false,
            is_commented_out: false,
        }
    }

    pub fn is_list(&self) -> (r: bool)
        ensures
            r == (self.arity == FieldArity::List),
    {
        self.arity == FieldArity::List
    }

    pub fn is_required(&self) -> (r: bool)
        ensures
            r == (self.arity == FieldArity::Required),
    {
        self.arity == FieldArity::Required
    }
}

impl ScalarField {
    /// A scalar field with nothing set but its name, arity and type.
    pub fn new(name: &str, arity: FieldArity, field_type: FieldType) -> (r: ScalarField)
        ensures
            r.deep_view() == (crate::dml::ScalarFieldView {
                name: name@,
                field_type: field_type.deep_view(),
                arity,
                database_name: None,
                default_value: None,
                is_unique: false,
                is_id: false,
                documentation: None,
                is_generated: false,
                is_updated_at: false,
                is_commented_out: false,
            }),
    {
        ScalarField {
            name: name.to_owned(),
            field_type,
            arity,
            database_name: None,
            default_value: None,
            is_unique: false,
            is_id: false,
            documentation: None,
            is_generated: false,
            is_updated_at: false,
            is_commented_out: false,
        }
    }

    pub fn is_list(&self) -> (r: bool)
        ensures
            r == (self.arity == FieldArity::List),
    {
        self.arity == FieldArity::List
    }

    pub fn is_required(&self) -> (r: bool)
        ensures
            r == (self.arity == FieldArity::Required),
    {
        self.arity == FieldArity::Required
    }
}

impl EnumValue {
    /// A value with nothing set but its name.
    pub fn new(name: &str) -> (r: EnumValue)
        ensures
            r.deep_view() == (crate::dml::EnumValueView {
                name: name@,
                database_name: None,
                documentation: None,
                commented_out: false,
            }),
    {
        EnumValue {
            name: name.to_owned(),
            database_name: None,
            documentation: None,
            commented_out: false,
        }
    }
}

impl Enum {
    /// An enum with nothing set but its name and values.
    pub fn new(name: &str, values: Vec<EnumValue>) -> (r: Enum)
        ensures
            r.deep_view() == (EnumView {
                name: name@,
                values: values.deep_view(),
                documentation: None,
                database_name: None,
                commented_out: false,
            }),
    {
        Enum {
            name: name.to_owned(),
            values,
            documentation: None,
            database_name: None,
            commented_out: false,
        }
    }
}

impl ModelView {
    /// The first field of that name.
    pub open spec fn find_field(self, name: Seq<char>) -> Option<FieldView> {
        find(self.fields, field_named(name))
    }

    /// The name of the table that the model stands for.
    pub open spec fn final_database_name(self) -> Seq<char> {
        match self.database_name {
            Some(n) => n,
            None => self.name,
        }
    }
}

impl Model {
    /// A model with no fields.
    pub fn new(name: String, database_name: Option<String>) -> (r: Model)
        ensures
            r.deep_view() == (ModelView {
                name: name@,
                fields: Seq::empty(),
                documentation: None,
                database_name: database_name.deep_view(),
                is_embedded: false,
                indices: Seq::empty(),
                id_fields: Seq::empty(),
                is_generated: false,
                is_commented_out: false,
            }),
    {
        let r = Model {
            name,
            fields: Vec::new(),
            documentation: None,
            database_name,
            is_embedded: false,
            indices: Vec::new(),
            id_fields: Vec::new(),
            is_generated: false,
            is_commented_out: false,
        };
        assert(r.fields.deep_view() =~= Seq::empty());
        assert(r.indices.deep_view() =~= Seq::empty());
        assert(r.id_fields.deep_view() =~= Seq::empty());
        r
    }

    /// Adds a field behind the fields that are there.
    pub fn add_field(&mut self, field: Field)
        ensures
            final(self).deep_view() == (ModelView {
                fields: old(self).deep_view().fields.push(field.deep_view()),
                ..old(self).deep_view()
            }),
    {
        self.fields.push(field);
        assert(self.fields.deep_view() =~= old(self).fields.deep_view().push(field.deep_view()));
    }

    /// Adds an index behind the indexes that are there.
    pub fn add_index(&mut self, index: IndexDefinition)
        ensures
            final(self).deep_view() == (ModelView {
                indices: old(self).deep_view().indices.push(index.deep_view()),
                ..old(self).deep_view()
            }),
    {
        self.indices.push(index);
        assert(self.indices.deep_view() =~= old(self).indices.deep_view().push(index.deep_view()));
    }

    /// The position of the first field of that name.
    pub fn field_position(&self, name: &str) -> (r: Option<usize>)
        ensures
            match r {
                Some(i) => i < self.fields.len() && position(
                    self.deep_view().fields,
                    field_named(name@),
                ) == Some(i as int),
                None => position(self.deep_view().fields, field_named(name@)) is None,
            },
    {
        let ghost p = field_named(name@);
        let mut i: usize = 0;
        while i < self.fields.len()
            invariant
                i <= self.fields.len(),
                p == field_named(name@),
                forall|j: int| 0 <= j < i ==> !p(#[trigger] self.deep_view().fields[j]),
            decreases self.fields.len() - i,
        {
            if str_eq(self.fields[i].name(), name) {
                proof {
                    lemma_position_is(self.deep_view().fields, p, i as int);
                }
                return Some(i);
            }
            i = i + 1;
        }
        proof {
            lemma_position_none(self.deep_view().fields, p);
        }
        None
    }

    /// The first field of that name.
    pub fn find_field(&self, name: &str) -> (r: Option<&Field>)
        ensures
            r.deep_view() == self.deep_view().find_field(name@),
    {
        match self.field_position(name) {
            Some(i) => Some(&self.fields[i]),
            None => None,
        }
    }
}

impl DatamodelView {
    /// The first model of that name.
    pub open spec fn find_model(self, name: Seq<char>) -> Option<ModelView> {
        find(self.models, model_named(name))
    }

    /// The first enum of that name.
    pub open spec fn find_enum(self, name: Seq<char>) -> Option<EnumView> {
        find(self.enums, enum_named(name))
    }

    /// The field that stands opposite the relation field `field_name` of the
    /// model `source`, which carries `info`: the first opposite field on the
    /// model that `info` points to.
    pub open spec fn find_related_field(
        self,
        source: Seq<char>,
        field_name: Seq<char>,
        info: RelationInfoView,
    ) -> Option<RelationFieldView> {
        match self.find_model(info.to) {
            Some(target) => match find(target.fields, is_opposite(source, field_name, info)) {
                Some(FieldView::RelationField(rf)) => Some(rf),
                _ => None,
            },
            None => None,
        }
    }
}

impl Datamodel {
    /// A data model with nothing in it.
    pub fn new() -> (r: Datamodel)
        ensures
            r.deep_view() == (DatamodelView { enums: Seq::empty(), models: Seq::empty() }),
    {
        let r = Datamodel { enums: Vec::new(), models: Vec::new() };
        assert(r.enums.deep_view() =~= Seq::empty());
        assert(r.models.deep_view() =~= Seq::empty());
        r
    }

    /// Adds a model behind the models that are there.
    pub fn add_model(&mut self, model: Model)
        ensures
            final(self).deep_view() == (DatamodelView {
                models: old(self).deep_view().models.push(model.deep_view()),
                ..old(self).deep_view()
            }),
    {
        self.models.push(model);
        assert(self.models.deep_view() =~= old(self).models.deep_view().push(model.deep_view()));
    }

    /// Adds an enum behind the enums that are there.
    pub fn add_enum(&mut self, en: Enum)
        ensures
            final(self).deep_view() == (DatamodelView {
                enums: old(self).deep_view().enums.push(en.deep_view()),
                ..old(self).deep_view()
            }),
    {
        self.enums.push(en);
        assert(self.enums.deep_view() =~= old(self).enums.deep_view().push(en.deep_view()));
    }

    /// The position of the first model of that name.
    pub fn model_position(&self, name: &str) -> (r: Option<usize>)
        ensures
            match r {
                Some(i) => i < self.models.len() && position(
                    self.deep_view().models,
                    model_named(name@),
                ) == Some(i as int),
                None => position(self.deep_view().models, model_named(name@)) is None,
            },
    {
        let ghost p = model_named(name@);
        let mut i: usize = 0;
        while i < self.models.len()
            invariant
                i <= self.models.len(),
                p == model_named(name@),
                forall|j: int| 0 <= j < i ==> !p(#[trigger] self.deep_view().models[j]),
            decreases self.models.len() - i,
        {
            if str_eq(self.models[i].name.as_str(), name) {
                proof {
                    lemma_position_is(self.deep_view().models, p, i as int);
                }
                return Some(i);
            }
            i = i + 1;
        }
        proof {
            lemma_position_none(self.deep_view().models, p);
        }
        None
    }

    /// The first model of that name.
    pub fn find_model(&self, name: &str) -> (r: Option<&Model>)
        ensures
            r.deep_view() == self.deep_view().find_model(name@),
    {
        match self.model_position(name) {
            Some(i) => Some(&self.models[i]),
            None => None,
        }
    }

    /// The first enum of that name.
    pub fn find_enum(&self, name: &str) -> (r: Option<&Enum>)
        ensures
            r.deep_view() == self.deep_view().find_enum(name@),
    {
        let ghost p = enum_named(name@);
        let mut i: usize = 0;
        while i < self.enums.len()
            invariant
                i <= self.enums.len(),
                p == enum_named(name@),
                forall|j: int| 0 <= j < i ==> !p(#[trigger] self.deep_view().enums[j]),
            decreases self.enums.len() - i,
        {
            if str_eq(self.enums[i].name.as_str(), name) {
                proof {
                    lemma_position_is(self.deep_view().enums, p, i as int);
                }
                return Some(&self.enums[i]);
            }
            i = i + 1;
        }
        proof {
            lemma_position_none(self.deep_view().enums, p);
        }
        None
    }

    /// The field that stands opposite the relation field `field` of the
    /// model named `source`.
    pub fn find_related_field(&self, source: &str, field: &RelationField) -> (r: Option<
        &RelationField,
    >)
        ensures
            r.deep_view() == self.deep_view().find_related_field(
                source@,
                field.name@,
                field.relation_info.deep_view(),
            ),
    {
        let info: &RelationInfo = &field.relation_info;
        match self.find_model(info.to.as_str()) {
            None => None,
            Some(target) => {
                let ghost p = is_opposite(source@, field.name@, info.deep_view());
                let named: bool = info.name.as_str().unicode_len() > 0;
                let mut i: usize = 0;
                while i < target.fields.len()
                    invariant
                        i <= target.fields.len(),
                        p == is_opposite(source@, field.name@, info.deep_view()),
                        named == (info.name@.len() > 0),
                        *info == field.relation_info,
                        self.deep_view().find_model(info.to@) == Some(target.deep_view()),
                        forall|j: int| 0 <= j < i ==> !p(#[trigger] target.deep_view().fields[j]),
                    decreases target.fields.len() - i,
                {
                    match &target.fields[i] {
                        Field::RelationField(rf) => {
                            if rf.relation_info.name == info.name && (named || str_eq(
                                rf.relation_info.to.as_str(),
                                source,
                            )) && (rf.relation_info.to != info.to || rf.name != field.name) {
                                proof {
                                    assert(target.deep_view().fields[i as int]
                                        == FieldView::RelationField(rf.deep_view()));
                                    lemma_position_is(target.deep_view().fields, p, i as int);
                                }
                                return Some(rf);
                            }
                        },
                        Field::ScalarField(_) => {},
                    }
                    proof {
                        assert(target.deep_view().fields[i as int] == target.fields[i as int].deep_view());
                    }
                    i = i + 1;
                }
                proof {
                    lemma_position_none(target.deep_view().fields, p);
                }
                None
            },
        }
    }
}

} // verus!
