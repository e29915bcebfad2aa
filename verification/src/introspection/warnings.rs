//! The warnings that a calculation of a data model can give.

use crate::introspection::{Affected, AffectedView, Warning, WarningView};
use vstd::prelude::*;
use vstd::string::*;

verus! {

/// The kinds of warnings.
#[derive(Debug, PartialEq, Eq, Structural, Clone, Copy)]
pub enum WarningKind {
    /// Models were commented out for want of a unique identifier.
    ModelsWithoutIdentifier,
    /// Fields were commented out for want of a valid name.
    FieldsWithEmptyNames,
    /// Fields were commented out for want of a supported type.
    UnsupportedTypes,
    /// Enum values were commented out for want of a valid name.
    EnumValuesWithEmptyNames,
    /// Id fields were given the default of the first legacy generator.
    DefaultCuid,
    /// Id fields were given the default of the second legacy generator.
    DefaultUuid,
    /// Models kept the name that the earlier data model gave them.
    EnrichedWithMapOnModel,
    /// Fields kept the name that the earlier data model gave them.
    EnrichedWithMapOnField,
    /// Models of the earlier data model have no table any more.
    ModelsWithoutTable,
    /// Fields of the earlier data model have no column any more.
    FieldsWithoutColumn,
}

impl WarningKind {
    /// The number of the kind.
    pub open spec fn code_of(self) -> i16 {
        match self {
            WarningKind::ModelsWithoutIdentifier => 1i16,
            WarningKind::FieldsWithEmptyNames => 2i16,
            WarningKind::UnsupportedTypes => 3i16,
            WarningKind::EnumValuesWithEmptyNames => 4i16,
            WarningKind::DefaultCuid => 5i16,
            WarningKind::DefaultUuid => 6i16,
            WarningKind::EnrichedWithMapOnModel => 7i16,
            WarningKind::EnrichedWithMapOnField => 8i16,
            WarningKind::ModelsWithoutTable => 14i16,
            WarningKind::FieldsWithoutColumn => 15i16,
        }
    }

    /// What the kind tells the caller.
    pub open spec fn message_of(self) -> Seq<char> {
        match self {
            WarningKind::ModelsWithoutIdentifier =>
                "The following models were commented out as they do not have a valid unique identifier or id. This is currently not supported by Prisma."@,
            WarningKind::FieldsWithEmptyNames =>
                "These fields were commented out because their names are currently not supported by Prisma. Please provide valid ones that match [a-zA-Z][a-zA-Z0-9_]* using the `@map` attribute."@,
            WarningKind::UnsupportedTypes =>
                "These fields were commented out because Prisma currently does not support their types."@,
            WarningKind::EnumValuesWithEmptyNames =>
                "These enum values were commented out because their names are currently not supported by Prisma. Please provide valid ones that match [a-zA-Z][a-zA-Z0-9_]* using the `@map` attribute."@,
            WarningKind::DefaultCuid =>
                "These id fields had a `@default(cuid())` added because we believe the schema was created by Prisma 1."@,
            WarningKind::DefaultUuid =>
                "These id fields had a `@default(uuid())` added because we believe the schema was created by Prisma 1."@,
            WarningKind::EnrichedWithMapOnModel =>
                "These models were enriched with `@@map` information taken from the previous Prisma schema."@,
            WarningKind::EnrichedWithMapOnField =>
                "These fields were enriched with `@map` information taken from the previous Prisma schema."@,
            WarningKind::ModelsWithoutTable =>
                "These models of the previous Prisma schema were left out because the database has no table for them any more."@,
            WarningKind::FieldsWithoutColumn =>
                "These fields of the previous Prisma schema were left out because the database has no column for them any more."@,
        }
    }

    /// The number of the kind.
    pub fn code(self) -> (r: i16)
        ensures
            r == self.code_of(),
    {
        match self {
            WarningKind::ModelsWithoutIdentifier => 1,
            WarningKind::FieldsWithEmptyNames => 2,
            WarningKind::UnsupportedTypes => 3,
            WarningKind::EnumValuesWithEmptyNames => 4,
            WarningKind::DefaultCuid => 5,
            WarningKind::DefaultUuid => 6,
            WarningKind::EnrichedWithMapOnModel => 7,
            WarningKind::EnrichedWithMapOnField => 8,
            WarningKind::ModelsWithoutTable => 14,
            WarningKind::FieldsWithoutColumn => 15,
        }
    }

    /// What the kind tells the caller.
    pub fn message(self) -> (r: String)
        ensures
            r@ == self.message_of(),
    {
        match self {
            WarningKind::ModelsWithoutIdentifier =>
                "The following models were commented out as they do not have a valid unique identifier or id. This is currently not supported by Prisma.".to_owned(),
            WarningKind::FieldsWithEmptyNames =>
                "These fields were commented out because their names are currently not supported by Prisma. Please provide valid ones that match [a-zA-Z][a-zA-Z0-9_]* using the `@map` attribute.".to_owned(),
            WarningKind::UnsupportedTypes =>
                "These fields were commented out because Prisma currently does not support their types.".to_owned(),
            WarningKind::EnumValuesWithEmptyNames =>
                "These enum values were commented out because their names are currently not supported by Prisma. Please provide valid ones that match [a-zA-Z][a-zA-Z0-9_]* using the `@map` attribute.".to_owned(),
            WarningKind::DefaultCuid =>
                "These id fields had a `@default(cuid())` added because we believe the schema was created by Prisma 1.".to_owned(),
            WarningKind::DefaultUuid =>
                "These id fields had a `@default(uuid())` added because we believe the schema was created by Prisma 1.".to_owned(),
            WarningKind::EnrichedWithMapOnModel =>
                "These models were enriched with `@@map` information taken from the previous Prisma schema.".to_owned(),
            WarningKind::EnrichedWithMapOnField =>
                "These fields were enriched with `@map` information taken from the previous Prisma schema.".to_owned(),
            WarningKind::ModelsWithoutTable =>
                "These models of the previous Prisma schema were left out because the database has no table for them any more.".to_owned(),
            WarningKind::FieldsWithoutColumn =>
                "These fields of the previous Prisma schema were left out because the database has no column for them any more.".to_owned(),
        }
    }
}

/// The warning of the given kind about the given things.
pub open spec fn warning_of(kind: WarningKind, affected: Seq<AffectedView>) -> WarningView {
    WarningView { code: kind.code_of(), message: kind.message_of(), affected }
}

impl Warning {
    /// The warning of the given kind about the given things.
    pub fn new(kind: WarningKind, affected: Vec<Affected>) -> (r: Warning)
        ensures
            r.deep_view() == warning_of(kind, affected.deep_view()),
    {
        Warning { code: kind.code(), message: kind.message(), affected }
    }
}

impl AffectedView {
    pub open spec fn model(model: Seq<char>) -> AffectedView {
        AffectedView { model: Some(model), field: None, tpe: None, enm: None, value: None }
    }

    pub open spec fn model_and_field(model: Seq<char>, field: Seq<char>) -> AffectedView {
        AffectedView { model: Some(model), field: Some(field), tpe: None, enm: None, value: None }
    }

    pub open spec fn model_and_field_and_type(
        model: Seq<char>,
        field: Seq<char>,
        tpe: Seq<char>,
    ) -> AffectedView {
        AffectedView {
            model: Some(model),
            field: Some(field),
            tpe: Some(tpe),
            enm: None,
            value: None,
        }
    }

    pub open spec fn enum_and_value(enm: Seq<char>, value: Seq<char>) -> AffectedView {
        AffectedView { model: None, field: None, tpe: None, enm: Some(enm), value: Some(value) }
    }
}

impl Affected {
    pub fn model(model: &str) -> (r: Affected)
        ensures
            r.deep_view() == AffectedView::model(model@),
    {
        Affected { model: Some(model.to_owned()), field: None, tpe: None, enm: None, value: None }
    }

    pub fn model_and_field(model: &str, field: &str) -> (r: Affected)
        ensures
            r.deep_view() == AffectedView::model_and_field(model@, field@),
    {
        Affected {
            model: Some(model.to_owned()),
            field: Some(field.to_owned()),
            tpe: None,
            enm: None,
            value: None,
        }
    }

    pub fn model_and_field_and_type(model: &str, field: &str, tpe: &str) -> (r: Affected)
        ensures
            r.deep_view() == AffectedView::model_and_field_and_type(model@, field@, tpe@),
    {
        Affected {
            model: Some(model.to_owned()),
            field: Some(field.to_owned()),
            tpe: Some(tpe.to_owned()),
            enm: None,
            value: None,
        }
    }

    pub fn enum_and_value(enm: &str, value: &str) -> (r: Affected)
        ensures
            r.deep_view() == AffectedView::enum_and_value(enm@, value@),
    {
        Affected {
            model: None,
            field: None,
            tpe: None,
            enm: Some(enm.to_owned()),
            value: Some(value.to_owned()),
        }
    }
}

} // verus!
