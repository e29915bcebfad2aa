//! The whole way from a schema to a data model.

use crate::dml::{Datamodel, DatamodelView};
use crate::introspection::backrelations::introspected;
use crate::introspection::deduplicate::{deduplicate_relation_field_names, deduplicated};
use crate::introspection::defaults::{add_prisma_1_id_defaults, legacy_warnings, with_legacy_defaults};
use crate::introspection::enrich::{enriched, enrichment_warnings};
use crate::introspection::guardrails::{commenting_out_guardrails, guardrail_warnings, shown};
use crate::introspection::introspect::introspect;
use crate::introspection::reintrospect::enrich;
use crate::introspection::sanitize::{sanitize_datamodel_names, sanitized_datamodel};
use crate::introspection::version::{marks_of, VersionChecker};
use crate::introspection::{
    IntrospectionResult, IntrospectionResultView, SqlFamily, Version, Warning, WarningView,
};
use crate::sql_schema::{SqlSchema, SqlSchemaView};
use vstd::prelude::*;
use vstd::string::*;

verus! {

/// Why a data model could not be calculated.
#[derive(Debug, PartialEq)]
pub enum SqlError {
    /// The description of the schema contradicts itself.
    SchemaInconsistent { explanation: String },
}

/// The data model as it is before anything is commented out: translated
/// from the schema, with valid names, with relation fields told apart, and
/// enriched with the earlier data model.
pub open spec fn enriched_translation(
    schema: SqlSchemaView,
    previous: DatamodelView,
    native_types: bool,
) -> DatamodelView {
    enriched(previous, translation(schema, native_types))
}

/// The data model as it is before it is enriched.
pub open spec fn translation(schema: SqlSchemaView, native_types: bool) -> DatamodelView {
    deduplicated(sanitized_datamodel(introspected(schema, native_types)))
}

/// The warnings that there are before the generation is told.
pub open spec fn early_warnings(
    schema: SqlSchemaView,
    previous: DatamodelView,
    native_types: bool,
) -> Seq<WarningView> {
    enrichment_warnings(previous, translation(schema, native_types)) + guardrail_warnings(
        enriched_translation(schema, previous, native_types),
    )
}

/// The generation of tools that seems to have made the database.
pub open spec fn detected_version(
    schema: SqlSchemaView,
    family: SqlFamily,
    previous: DatamodelView,
    native_types: bool,
) -> Version {
    let dm = shown(enriched_translation(schema, previous, native_types));
    marks_of(family, schema).verdict(
        dm.models.len() == 0 && dm.enums.len() == 0,
        early_warnings(schema, previous, native_types).len() == 0,
    )
}

/// What calculating a data model gives. The steps are, in this order:
/// translating the schema; making the names valid; telling relation fields
/// apart; enriching with the earlier data model; commenting out what
/// cannot be expressed; telling the generation of tools that made the
/// database; adding the defaults of a legacy generation.
pub open spec fn calculated(
    schema: SqlSchemaView,
    family: SqlFamily,
    previous: DatamodelView,
    native_types: bool,
) -> IntrospectionResultView {
    let dm = shown(enriched_translation(schema, previous, native_types));
    let version = detected_version(schema, family, previous, native_types);
    IntrospectionResultView {
        data_model: with_legacy_defaults(schema, version, dm),
        warnings: early_warnings(schema, previous, native_types) + legacy_warnings(
            schema,
            version,
            dm,
        ),
        version,
    }
}

/// Calculate a data model from a database schema. The data model that was
/// calculated earlier, and maybe edited since, is `previous_data_model`; it
/// is empty where there is none. The calculation never fails.
pub fn calculate_datamodel(
    schema: &SqlSchema,
    family: &SqlFamily,
    previous_data_model: &Datamodel,
    native_types: bool,
) -> (r: Result<IntrospectionResult, SqlError>)
    ensures
        r matches Ok(result) && result.deep_view() == calculated(
            schema.deep_view(),
            *family,
            previous_data_model.deep_view(),
            native_types,
        ),
{
    let version_check: VersionChecker = VersionChecker::new(*family, schema);
    let mut data_model: Datamodel = introspect(schema, family, native_types);
    sanitize_datamodel_names(&mut data_model);
    deduplicate_relation_field_names(&mut data_model);
    let mut warnings: Vec<Warning> = enrich(previous_data_model, &mut data_model);
    let ghost w4 = warnings.deep_view();
    let mut more: Vec<Warning> = commenting_out_guardrails(&mut data_model);
    let ghost w5 = more.deep_view();
    warnings.append(&mut more);
    assert(warnings.deep_view() =~= w4 + w5);
    let version: Version = version_check.version(&warnings, &data_model);
    add_prisma_1_id_defaults(family, &version, &mut data_model, schema, &mut warnings);
    Ok(IntrospectionResult { data_model, version, warnings })
}

} // verus!
