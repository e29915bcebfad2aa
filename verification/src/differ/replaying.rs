//! Replaying steps on what stands at a place of a schema.

use crate::ast::{FieldArity, SchemaAst};
use crate::differ::matching::{find_field, find_value};
use crate::differ::replay::{after, replayed, seen, touches, within_enum, within_model, Point, Seen};
use crate::steps::MigrationStep;
use crate::text::{names_contain, str_eq};
use vstd::prelude::*;
use vstd::string::*;

verus! {

/// A place of a schema.
#[derive(Debug, PartialEq)]
pub enum Place {
    Model { model: String },
    Field { model: String, field: String },
    Enum { enum_name: String },
    Value { enum_name: String, value: String },
}

impl DeepView for Place {
    type V = Point;

    open spec fn deep_view(&self) -> Point {
        match self {
            Place::Model { model } => Point::Model { model: model@ },
            Place::Field { model, field } => Point::Field { model: model@, field: field@ },
            Place::Enum { enum_name } => Point::Enum { enum_name: enum_name@ },
            Place::Value { enum_name, value } => Point::Value {
                enum_name: enum_name@,
                value: value@,
            },
        }
    }
}

/// What stands at a place of a schema: nothing, something, or a field of
/// a type and an arity.
#[derive(Debug, PartialEq)]
pub enum Standing {
    Absent,
    Present,
    Field { tpe: String, arity: FieldArity },
}

impl DeepView for Standing {
    type V = Seen;

    open spec fn deep_view(&self) -> Seen {
        match self {
            Standing::Absent => Seen::Absent,
            Standing::Present => Seen::Present,
            Standing::Field { tpe, arity } => Seen::Field { tpe: tpe@, arity: *arity },
        }
    }
}

impl Place {
    fn is_within_model(&self, name: &str) -> (r: bool)
        ensures
            r == within_model(self.deep_view(), name@),
    {
        match self {
            Place::Model { model } => str_eq(model.as_str(), name),
            Place::Field { model, .. } => str_eq(model.as_str(), name),
            _ => false,
        }
    }

    fn is_within_enum(&self, name: &str) -> (r: bool)
        ensures
            r == within_enum(self.deep_view(), name@),
    {
        match self {
            Place::Enum { enum_name } => str_eq(enum_name.as_str(), name),
            Place::Value { enum_name, .. } => str_eq(enum_name.as_str(), name),
            _ => false,
        }
    }

    fn is_field(&self, model_name: &str, field_name: &str) -> (r: bool)
        ensures
            r == (self.deep_view() == (Point::Field { model: model_name@, field: field_name@ })),
    {
        match self {
            Place::Field { model, field } => str_eq(model.as_str(), model_name) && str_eq(
                field.as_str(),
                field_name,
            ),
            _ => false,
        }
    }
}

/// What stands at a place of the schema.
pub fn standing_at(schema: &SchemaAst, at: &Place) -> (r: Standing)
    ensures
        r.deep_view() == seen(schema.deep_view(), at.deep_view()),
{
    match at {
        Place::Model { model } => match schema.find_model(model.as_str()) {
            Some(_) => Standing::Present,
            None => Standing::Absent,
        },
        Place::Field { model, field } => match schema.find_model(model.as_str()) {
            Some(m) => match find_field(&m.fields, field.as_str()) {
                Some(f) => Standing::Field { tpe: f.field_type.name.clone(), arity: f.arity },
                None => Standing::Absent,
            },
            None => Standing::Absent,
        },
        Place::Enum { enum_name } => match schema.find_enum(enum_name.as_str()) {
            Some(_) => Standing::Present,
            None => Standing::Absent,
        },
        Place::Value { enum_name, value } => match schema.find_enum(enum_name.as_str()) {
            Some(e) => match find_value(&e.values, value.as_str()) {
                Some(_) => Standing::Present,
                None => Standing::Absent,
            },
            None => Standing::Absent,
        },
    }
}

/// Whether the step can change what stands at the place.
pub fn step_touches(step: &MigrationStep, at: &Place) -> (r: bool)
    ensures
        r == touches(step.deep_view(), at.deep_view()),
{
    match step {
        MigrationStep::CreateModel(s) => at.is_within_model(s.model.as_str()),
        MigrationStep::DeleteModel(s) => at.is_within_model(s.model.as_str()),
        MigrationStep::CreateField(s) => at.is_field(s.model.as_str(), s.field.as_str()),
        MigrationStep::DeleteField(s) => at.is_field(s.model.as_str(), s.field.as_str()),
        MigrationStep::UpdateField(s) => at.is_field(s.model.as_str(), s.field.as_str()),
        MigrationStep::CreateEnum(s) => at.is_within_enum(s.enum_name.as_str()),
        MigrationStep::DeleteEnum(s) => at.is_within_enum(s.enum_name.as_str()),
        MigrationStep::UpdateEnum(s) => match at {
            Place::Value { enum_name, .. } => str_eq(enum_name.as_str(), s.enum_name.as_str()),
            _ => false,
        },
        _ => false,
    }
}

/// What stands at the place after the step, given what stood there before.
pub fn take_step(step: &MigrationStep, at: &Place, before: Standing) -> (r: Standing)
    ensures
        r.deep_view() == after(step.deep_view(), at.deep_view(), before.deep_view()),
{
    if !step_touches(step, at) {
        return before;
    }
    match step {
        MigrationStep::CreateModel(_) => match at {
            Place::Model { .. } => Standing::Present,
            _ => Standing::Absent,
        },
        MigrationStep::DeleteModel(_) => Standing::Absent,
        MigrationStep::CreateField(s) => Standing::Field { tpe: s.tpe.clone(), arity: s.arity },
        MigrationStep::DeleteField(_) => Standing::Absent,
        MigrationStep::UpdateField(s) => match before {
            Standing::Field { tpe, arity } => Standing::Field {
                tpe: match &s.tpe {
                    Some(t) => t.clone(),
                    None => tpe,
                },
                arity: match s.arity {
                    Some(a) => a,
                    None => arity,
                },
            },
            other => other,
        },
        MigrationStep::CreateEnum(s) => match at {
            Place::Value { value, .. } => if names_contain(&s.values, value.as_str()) {
                Standing::Present
            } else {
                Standing::Absent
            },
            _ => Standing::Present,
        },
        MigrationStep::DeleteEnum(_) => Standing::Absent,
        MigrationStep::UpdateEnum(s) => match at {
            Place::Value { value, .. } => if names_contain(&s.deleted_values, value.as_str()) {
                Standing::Absent
            } else if names_contain(&s.created_values, value.as_str()) {
                Standing::Present
            } else {
                before
            },
            _ => before,
        },
        _ => before,
    }
}

/// What stands at the place after all the steps, one after the other.
pub fn replay(steps: &Vec<MigrationStep>, at: &Place, before: Standing) -> (r: Standing)
    ensures
        r.deep_view() == replayed(steps.deep_view(), at.deep_view(), before.deep_view()),
{
    let ghost all = steps.deep_view();
    let ghost start = before.deep_view();
    let mut now: Standing = before;
    let mut i: usize = 0;
    while i < steps.len()
        invariant
            i <= steps.len(),
            all == steps.deep_view(),
            now.deep_view() == replayed(all.take(i as int), at.deep_view(), start),
        decreases steps.len() - i,
    {
        proof {
            assert(all.take(i + 1).drop_last() =~= all.take(i as int));
            assert(all.take(i + 1).last() == steps[i as int].deep_view());
        }
        now = take_step(&steps[i], at, now);
        i = i + 1;
    }
    assert(all.take(steps.len() as int) =~= all);
    now
}

} // verus!
