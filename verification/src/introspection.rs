//! Calculating a data model from the description of a database schema.

use crate::dml::{Datamodel, DatamodelView};
use crate::seqs::{all_same, list_clone, Same};
use crate::text::{name_option_clone, name_option_eq};
use vstd::prelude::*;
use vstd::string::*;

pub mod backrelations;
pub mod calculate;
pub mod deduplicate;
pub mod defaults;
pub mod enrich;
pub mod fields;
pub mod guardrails;
pub mod introspect;
pub mod laws;
pub mod models;
pub mod names;
pub mod reintrospect;
pub mod sanitize;
pub mod settled;
pub mod tables;
pub mod version;
pub mod warnings;

pub use calculate::{calculate_datamodel, calculated};

verus! {

/// The kinds of databases.
#[derive(Debug, PartialEq, Eq, Structural, Clone, Copy)]
pub enum SqlFamily {
    Postgres,
    Mysql,
    Sqlite,
    Mssql,
}

/// The generations of tools that may have made a database.
#[derive(Debug, PartialEq, Eq, Structural, Clone, Copy)]
pub enum Version {
    NonPrisma,
    Prisma1,
    Prisma11,
    Prisma2,
}

impl Version {
    /// Whether the generation is one of the two legacy generations.
    pub fn is_prisma1(self) -> (r: bool)
        ensures
            r == (self == Version::Prisma1 || self == Version::Prisma11),
    {
        matches!(self, Version::Prisma1 | Version::Prisma11)
    }
}

/// What a warning is about: a model, a field of a model, or a value of an enum.
#[derive(Debug, PartialEq)]
pub struct Affected {
    pub model: Option<String>,
    pub field: Option<String>,
    /// The type of the field, where the warning is about the type.
    pub tpe: Option<String>,
    /// The enum, where the warning is about a value of an enum.
    pub enm: Option<String>,
    pub value: Option<String>,
}

pub struct AffectedView {
    pub model: Option<Seq<char>>,
    pub field: Option<Seq<char>>,
    pub tpe: Option<Seq<char>>,
    pub enm: Option<Seq<char>>,
    pub value: Option<Seq<char>>,
}

impl DeepView for Affected {
    type V = AffectedView;

    open spec fn deep_view(&self) -> AffectedView {
        AffectedView {
            model: self.model.deep_view(),
            field: self.field.deep_view(),
            tpe: self.tpe.deep_view(),
            enm: self.enm.deep_view(),
            value: self.value.deep_view(),
        }
    }
}

impl Clone for Affected {
    fn clone(&self) -> (r: Self)
        ensures
            r.deep_view() == self.deep_view(),
    {
        Affected {
            model: name_option_clone(&self.model),
            field: name_option_clone(&self.field),
            tpe: name_option_clone(&self.tpe),
            enm: name_option_clone(&self.enm),
            value: name_option_clone(&self.value),
        }
    }
}

impl Same for Affected {
    fn same(&self, other: &Affected) -> (r: bool) {
        name_option_eq(&self.model, &other.model)
            && name_option_eq(&self.field, &other.field)
            && name_option_eq(&self.tpe, &other.tpe)
            && name_option_eq(&self.enm, &other.enm)
            && name_option_eq(&self.value, &other.value)
    }
}

/// Something that the caller should know of a data model that was
/// calculated all the same.
#[derive(Debug, PartialEq)]
pub struct Warning {
    /// The number that tells the kinds of warnings apart.
    pub code: i16,
    pub message: String,
    pub affected: Vec<Affected>,
}

pub struct WarningView {
    pub code: i16,
    pub message: Seq<char>,
    pub affected: Seq<AffectedView>,
}

impl DeepView for Warning {
    type V = WarningView;

    open spec fn deep_view(&self) -> WarningView {
        WarningView {
            code: self.code,
            message: self.message@,
            affected: self.affected.deep_view(),
        }
    }
}

impl Clone for Warning {
    fn clone(&self) -> (r: Self)
        ensures
            r.deep_view() == self.deep_view(),
    {
        Warning {
            code: self.code,
            message: self.message.clone(),
            affected: list_clone(&self.affected),
        }
    }
}

impl Same for Warning {
    fn same(&self, other: &Warning) -> (r: bool) {
        self.code == other.code
            && self.message == other.message
            && all_same(&self.affected, &other.affected)
    }
}

/// A data model that was calculated from a database schema.
#[derive(Debug, PartialEq)]
pub struct IntrospectionResult {
    /// The data model.
    pub data_model: Datamodel,
    /// What the caller should know of it.
    pub warnings: Vec<Warning>,
    /// Which generation of tools seems to have made the database.
    pub version: Version,
}

pub struct IntrospectionResultView {
    pub data_model: DatamodelView,
    pub warnings: Seq<WarningView>,
    pub version: Version,
}

impl DeepView for IntrospectionResult {
    type V = IntrospectionResultView;

    open spec fn deep_view(&self) -> IntrospectionResultView {
        IntrospectionResultView {
            data_model: self.data_model.deep_view(),
            warnings: self.warnings.deep_view(),
            version: self.version,
        }
    }
}

impl Clone for IntrospectionResult {
    fn clone(&self) -> (r: Self)
        ensures
            r.deep_view() == self.deep_view(),
    {
        IntrospectionResult {
            data_model: self.data_model.clone(),
            warnings: list_clone(&self.warnings),
            version: self.version,
        }
    }
}

impl Same for IntrospectionResult {
    fn same(&self, other: &IntrospectionResult) -> (r: bool) {
        self.data_model.same(&other.data_model)
            && all_same(&self.warnings, &other.warnings)
            && self.version == other.version
    }
}

} // verus!
