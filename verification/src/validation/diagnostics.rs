//! The errors and warnings that the validation of a schema collects.

use crate::ast::Span;
use crate::seqs::{all_same, list_clone, Same};
use vstd::prelude::*;
use vstd::string::*;

verus! {

/// What is wrong with a schema.
#[derive(Debug, PartialEq)]
pub enum DatamodelError {
    ArgumentNotFound { argument_name: String, span: Span },
    AttributeValidationError { message: String, attribute_name: String, span: Span },
    DuplicateArgumentError { arg_name: String, span: Span },
    DuplicateDefaultArgumentError { arg_name: String, span: Span },
    UnusedArgumentError { arg_name: String, span: Span },
    DuplicateTopError { name: String, top_type: String, existing_top_type: String, span: Span },
    ReservedScalarTypeError { scalar_type: String, span: Span },
    DuplicateEnumValueError { enum_name: String, value_name: String, span: Span },
    DuplicateFieldError { model_name: String, field_name: String, span: Span },
    DuplicateConfigKeyError { conf_block_name: String, key_name: String, span: Span },
    GeneratorArgumentNotFound { argument_name: String, generator_name: String, span: Span },
    LegacyParserError { message: String, span: Span },
    ValidationError { message: String, span: Span },
    ValueParserError { expected_type: String, parser_error: String, raw: String, span: Span },
    PreviewFeatureNotKnownError { preview_feature: String, expected_preview_features: String, span: Span },
}

pub enum DatamodelErrorView {
    ArgumentNotFound { argument_name: Seq<char>, span: Span },
    AttributeValidationError { message: Seq<char>, attribute_name: Seq<char>, span: Span },
    DuplicateArgumentError { arg_name: Seq<char>, span: Span },
    DuplicateDefaultArgumentError { arg_name: Seq<char>, span: Span },
    UnusedArgumentError { arg_name: Seq<char>, span: Span },
    DuplicateTopError { name: Seq<char>, top_type: Seq<char>, existing_top_type: Seq<char>, span: Span },
    ReservedScalarTypeError { scalar_type: Seq<char>, span: Span },
    DuplicateEnumValueError { enum_name: Seq<char>, value_name: Seq<char>, span: Span },
    DuplicateFieldError { model_name: Seq<char>, field_name: Seq<char>, span: Span },
    DuplicateConfigKeyError { conf_block_name: Seq<char>, key_name: Seq<char>, span: Span },
    GeneratorArgumentNotFound { argument_name: Seq<char>, generator_name: Seq<char>, span: Span },
    LegacyParserError { message: Seq<char>, span: Span },
    ValidationError { message: Seq<char>, span: Span },
    ValueParserError { expected_type: Seq<char>, parser_error: Seq<char>, raw: Seq<char>, span: Span },
    PreviewFeatureNotKnownError {
        preview_feature: Seq<char>,
        expected_preview_features: Seq<char>,
        span: Span,
    },
}

impl DeepView for DatamodelError {
    type V = DatamodelErrorView;

    open spec fn deep_view(&self) -> DatamodelErrorView {
        match self {
            DatamodelError::ArgumentNotFound { argument_name, span } =>
                DatamodelErrorView::ArgumentNotFound { argument_name: argument_name@, span: *span },
            DatamodelError::AttributeValidationError { message, attribute_name, span } =>
                DatamodelErrorView::AttributeValidationError {
                    message: message@,
                    attribute_name: attribute_name@,
                    span: *span,
                },
            DatamodelError::DuplicateArgumentError { arg_name, span } =>
                DatamodelErrorView::DuplicateArgumentError { arg_name: arg_name@, span: *span },
            DatamodelError::DuplicateDefaultArgumentError { arg_name, span } =>
                DatamodelErrorView::DuplicateDefaultArgumentError {
                    arg_name: arg_name@,
                    span: *span,
                },
            DatamodelError::UnusedArgumentError { arg_name, span } =>
                DatamodelErrorView::UnusedArgumentError { arg_name: arg_name@, span: *span },
            DatamodelError::DuplicateTopError { name, top_type, existing_top_type, span } =>
                DatamodelErrorView::DuplicateTopError {
                    name: name@,
                    top_type: top_type@,
                    existing_top_type: existing_top_type@,
                    span: *span,
                },
            DatamodelError::ReservedScalarTypeError { scalar_type, span } =>
                DatamodelErrorView::ReservedScalarTypeError {
                    scalar_type: scalar_type@,
                    span: *span,
                },
            DatamodelError::DuplicateEnumValueError { enum_name, value_name, span } =>
                DatamodelErrorView::DuplicateEnumValueError {
                    enum_name: enum_name@,
                    value_name: value_name@,
                    span: *span,
                },
            DatamodelError::DuplicateFieldError { model_name, field_name, span } =>
                DatamodelErrorView::DuplicateFieldError {
                    model_name: model_name@,
                    field_name: field_name@,
                    span: *span,
                },
            DatamodelError::DuplicateConfigKeyError { conf_block_name, key_name, span } =>
                DatamodelErrorView::DuplicateConfigKeyError {
                    conf_block_name: conf_block_name@,
                    key_name: key_name@,
                    span: *span,
                },
            DatamodelError::GeneratorArgumentNotFound { argument_name, generator_name, span } =>
                DatamodelErrorView::GeneratorArgumentNotFound {
                    argument_name: argument_name@,
                    generator_name: generator_name@,
                    span: *span,
                },
            DatamodelError::LegacyParserError { message, span } =>
                DatamodelErrorView::LegacyParserError { message: message@, span: *span },
            DatamodelError::ValidationError { message, span } =>
                DatamodelErrorView::ValidationError { message: message@, span: *span },
            DatamodelError::ValueParserError { expected_type, parser_error, raw, span } =>
                DatamodelErrorView::ValueParserError {
                    expected_type: expected_type@,
                    parser_error: parser_error@,
                    raw: raw@,
                    span: *span,
                },
            DatamodelError::PreviewFeatureNotKnownError {
                preview_feature,
                expected_preview_features,
                span,
            } =>
                DatamodelErrorView::PreviewFeatureNotKnownError {
                    preview_feature: preview_feature@,
                    expected_preview_features: expected_preview_features@,
                    span: *span,
                },
        }
    }
}

impl Clone for DatamodelError {
    fn clone(&self) -> (r: Self)
        ensures
            r.deep_view() == self.deep_view(),
    {
        match self {
            DatamodelError::ArgumentNotFound { argument_name, span } =>
                DatamodelError::ArgumentNotFound {
                    argument_name: argument_name.clone(),
                    span: *span,
                },
            DatamodelError::AttributeValidationError { message, attribute_name, span } =>
                DatamodelError::AttributeValidationError {
                    message: message.clone(),
                    attribute_name: attribute_name.clone(),
                    span: *span,
                },
            DatamodelError::DuplicateArgumentError { arg_name, span } =>
                DatamodelError::DuplicateArgumentError { arg_name: arg_name.clone(), span: *span },
            DatamodelError::DuplicateDefaultArgumentError { arg_name, span } =>
                DatamodelError::DuplicateDefaultArgumentError {
                    arg_name: arg_name.clone(),
                    span: *span,
                },
            DatamodelError::UnusedArgumentError { arg_name, span } =>
                DatamodelError::UnusedArgumentError { arg_name: arg_name.clone(), span: *span },
            DatamodelError::DuplicateTopError { name, top_type, existing_top_type, span } =>
                DatamodelError::DuplicateTopError {
                    name: name.clone(),
                    top_type: top_type.clone(),
                    existing_top_type: existing_top_type.clone(),
                    span: *span,
                },
            DatamodelError::ReservedScalarTypeError { scalar_type, span } =>
                DatamodelError::ReservedScalarTypeError {
                    scalar_type: scalar_type.clone(),
                    span: *span,
                },
            DatamodelError::DuplicateEnumValueError { enum_name, value_name, span } =>
                DatamodelError::DuplicateEnumValueError {
                    enum_name: enum_name.clone(),
                    value_name: value_name.clone(),
                    span: *span,
                },
            DatamodelError::DuplicateFieldError { model_name, field_name, span } =>
                DatamodelError::DuplicateFieldError {
                    model_name: model_name.clone(),
                    field_name: field_name.clone(),
                    span: *span,
                },
            DatamodelError::DuplicateConfigKeyError { conf_block_name, key_name, span } =>
                DatamodelError::DuplicateConfigKeyError {
                    conf_block_name: conf_block_name.clone(),
                    key_name: key_name.clone(),
                    span: *span,
                },
            DatamodelError::GeneratorArgumentNotFound { argument_name, generator_name, span } =>
                DatamodelError::GeneratorArgumentNotFound {
                    argument_name: argument_name.clone(),
                    generator_name: generator_name.clone(),
                    span: *span,
                },
            DatamodelError::LegacyParserError { message, span } =>
                DatamodelError::LegacyParserError { message: message.clone(), span: *span },
            DatamodelError::ValidationError { message, span } =>
                DatamodelError::ValidationError { message: message.clone(), span: *span },
            DatamodelError::ValueParserError { expected_type, parser_error, raw, span } =>
                DatamodelError::ValueParserError {
                    expected_type: expected_type.clone(),
                    parser_error: parser_error.clone(),
                    raw: raw.clone(),
                    span: *span,
                },
            DatamodelError::PreviewFeatureNotKnownError {
                preview_feature,
                expected_preview_features,
                span,
            } =>
                DatamodelError::PreviewFeatureNotKnownError {
                    preview_feature: preview_feature.clone(),
                    expected_preview_features: expected_preview_features.clone(),
                    span: *span,
                },
        }
    }
}

impl Same for DatamodelError {
    fn same(&self, other: &DatamodelError) -> (r: bool) {
        match (self, other) {
            (DatamodelError::ArgumentNotFound {
                argument_name: a0,
                span: a1,
            }, DatamodelError::ArgumentNotFound { argument_name: b0, span: b1 }) =>
                *a0 == *b0 && *a1 == *b1,
            (DatamodelError::AttributeValidationError {
                message: a0,
                attribute_name: a1,
                span: a2,
            }, DatamodelError::AttributeValidationError { message: b0, attribute_name: b1, span: b2 }) =>
                *a0 == *b0 && *a1 == *b1 && *a2 == *b2,
            (DatamodelError::DuplicateArgumentError {
                arg_name: a0,
                span: a1,
            }, DatamodelError::DuplicateArgumentError { arg_name: b0, span: b1 }) =>
                *a0 == *b0 && *a1 == *b1,
            (DatamodelError::DuplicateDefaultArgumentError {
                arg_name: a0,
                span: a1,
            }, DatamodelError::DuplicateDefaultArgumentError { arg_name: b0, span: b1 }) =>
                *a0 == *b0 && *a1 == *b1,
            (DatamodelError::UnusedArgumentError {
                arg_name: a0,
                span: a1,
            }, DatamodelError::UnusedArgumentError { arg_name: b0, span: b1 }) =>
                *a0 == *b0 && *a1 == *b1,
            (DatamodelError::DuplicateTopError {
                name: a0,
                top_type: a1,
                existing_top_type: a2,
                span: a3,
            }, DatamodelError::DuplicateTopError { name: b0, top_type: b1, existing_top_type: b2, span: b3 }) =>
                *a0 == *b0 && *a1 == *b1 && *a2 == *b2 && *a3 == *b3,
            (DatamodelError::ReservedScalarTypeError {
                scalar_type: a0,
                span: a1,
            }, DatamodelError::ReservedScalarTypeError { scalar_type: b0, span: b1 }) =>
                *a0 == *b0 && *a1 == *b1,
            (DatamodelError::DuplicateEnumValueError {
                enum_name: a0,
                value_name: a1,
                span: a2,
            }, DatamodelError::DuplicateEnumValueError { enum_name: b0, value_name: b1, span: b2 }) =>
                *a0 == *b0 && *a1 == *b1 && *a2 == *b2,
            (DatamodelError::DuplicateFieldError {
                model_name: a0,
                field_name: a1,
                span: a2,
            }, DatamodelError::DuplicateFieldError { model_name: b0, field_name: b1, span: b2 }) =>
                *a0 == *b0 && *a1 == *b1 && *a2 == *b2,
            (DatamodelError::DuplicateConfigKeyError {
                conf_block_name: a0,
                key_name: a1,
                span: a2,
            }, DatamodelError::DuplicateConfigKeyError { conf_block_name: b0, key_name: b1, span: b2 }) =>
                *a0 == *b0 && *a1 == *b1 && *a2 == *b2,
            (DatamodelError::GeneratorArgumentNotFound {
                argument_name: a0,
                generator_name: a1,
                span: a2,
            }, DatamodelError::GeneratorArgumentNotFound { argument_name: b0, generator_name: b1, span: b2 }) =>
                *a0 == *b0 && *a1 == *b1 && *a2 == *b2,
            (DatamodelError::LegacyParserError {
                message: a0,
                span: a1,
            }, DatamodelError::LegacyParserError { message: b0, span: b1 }) =>
                *a0 == *b0 && *a1 == *b1,
            (DatamodelError::ValidationError {
                message: a0,
                span: a1,
            }, DatamodelError::ValidationError { message: b0, span: b1 }) =>
                *a0 == *b0 && *a1 == *b1,
            (DatamodelError::ValueParserError {
                expected_type: a0,
                parser_error: a1,
                raw: a2,
                span: a3,
            }, DatamodelError::ValueParserError { expected_type: b0, parser_error: b1, raw: b2, span: b3 }) =>
                *a0 == *b0 && *a1 == *b1 && *a2 == *b2 && *a3 == *b3,
            (DatamodelError::PreviewFeatureNotKnownError {
                preview_feature: a0,
                expected_preview_features: a1,
                span: a2,
            }, DatamodelError::PreviewFeatureNotKnownError { preview_feature: b0, expected_preview_features: b1, span: b2 }) =>
                *a0 == *b0 && *a1 == *b1 && *a2 == *b2,
            _ => false,
        }
    }
}

/// What the author of a schema should know of it.
#[derive(Debug, PartialEq)]
pub enum DatamodelWarning {
    DeprecatedPreviewFeatureWarning { preview_feature: String, span: Span },
}

pub enum DatamodelWarningView {
    DeprecatedPreviewFeatureWarning { preview_feature: Seq<char>, span: Span },
}

impl DeepView for DatamodelWarning {
    type V = DatamodelWarningView;

    open spec fn deep_view(&self) -> DatamodelWarningView {
        match self {
            DatamodelWarning::DeprecatedPreviewFeatureWarning { preview_feature, span } =>
                DatamodelWarningView::DeprecatedPreviewFeatureWarning {
                    preview_feature: preview_feature@,
                    span: *span,
                },
        }
    }
}

impl Clone for DatamodelWarning {
    fn clone(&self) -> (r: Self)
        ensures
            r.deep_view() == self.deep_view(),
    {
        match self {
            DatamodelWarning::DeprecatedPreviewFeatureWarning { preview_feature, span } =>
                DatamodelWarning::DeprecatedPreviewFeatureWarning {
                    preview_feature: preview_feature.clone(),
                    span: *span,
                },
        }
    }
}

impl Same for DatamodelWarning {
    fn same(&self, other: &DatamodelWarning) -> (r: bool) {
        match (self, other) {
            (DatamodelWarning::DeprecatedPreviewFeatureWarning {
                preview_feature: a0,
                span: a1,
            }, DatamodelWarning::DeprecatedPreviewFeatureWarning { preview_feature: b0, span: b1 }) =>
                *a0 == *b0 && *a1 == *b1,
            _ => false,
        }
    }
}

/// What was found wrong with a schema, and what its author should know.
#[derive(Debug, PartialEq)]
pub struct Diagnostics {
    pub errors: Vec<DatamodelError>,
    pub warnings: Vec<DatamodelWarning>,
}

pub struct DiagnosticsView {
    pub errors: Seq<DatamodelErrorView>,
    pub warnings: Seq<DatamodelWarningView>,
}

impl DeepView for Diagnostics {
    type V = DiagnosticsView;

    open spec fn deep_view(&self) -> DiagnosticsView {
        DiagnosticsView {
            errors: self.errors.deep_view(),
            warnings: self.warnings.deep_view(),
        }
    }
}

impl Clone for Diagnostics {
    fn clone(&self) -> (r: Self)
        ensures
            r.deep_view() == self.deep_view(),
    {
        Diagnostics {
            errors: list_clone(&self.errors),
            warnings: list_clone(&self.warnings),
        }
    }
}

impl Same for Diagnostics {
    fn same(&self, other: &Diagnostics) -> (r: bool) {
        all_same(&self.errors, &other.errors)
            && all_same(&self.warnings, &other.warnings)
    }
}

impl DiagnosticsView {
    pub open spec fn has_errors(self) -> bool {
        self.errors.len() > 0
    }
}

impl Diagnostics {
    /// Nothing found.
    pub fn new() -> (r: Diagnostics)
        ensures
            r.deep_view() == (DiagnosticsView { errors: Seq::empty(), warnings: Seq::empty() }),
    {
        let r = Diagnostics { errors: Vec::new(), warnings: Vec::new() };
        assert(r.errors.deep_view() =~= Seq::empty());
        assert(r.warnings.deep_view() =~= Seq::empty());
        r
    }

    pub fn has_errors(&self) -> (r: bool)
        ensures
            r == self.deep_view().has_errors(),
    {
        self.errors.len() > 0
    }

    /// Adds an error behind the errors that are there.
    pub fn push_error(&mut self, err: DatamodelError)
        ensures
            final(self).deep_view() == (DiagnosticsView {
                errors: old(self).deep_view().errors.push(err.deep_view()),
                warnings: old(self).deep_view().warnings,
            }),
    {
        self.errors.push(err);
        assert(self.errors.deep_view() =~= old(self).errors.deep_view().push(err.deep_view()));
    }

    /// Adds a warning behind the warnings that are there.
    pub fn push_warning(&mut self, warning: DatamodelWarning)
        ensures
            final(self).deep_view() == (DiagnosticsView {
                errors: old(self).deep_view().errors,
                warnings: old(self).deep_view().warnings.push(warning.deep_view()),
            }),
    {
        self.warnings.push(warning);
        assert(self.warnings.deep_view() =~= old(self).warnings.deep_view().push(
            warning.deep_view(),
        ));
    }

    /// Moves what `other` holds behind what is there.
    pub fn append(&mut self, other: &mut Diagnostics)
        ensures
            final(self).deep_view() == (DiagnosticsView {
                errors: old(self).deep_view().errors + old(other).deep_view().errors,
                warnings: old(self).deep_view().warnings + old(other).deep_view().warnings,
            }),
            final(other).deep_view() == (DiagnosticsView {
                errors: Seq::empty(),
                warnings: Seq::empty(),
            }),
    {
        self.errors.append(&mut other.errors);
        self.warnings.append(&mut other.warnings);
        assert(self.errors.deep_view() =~= old(self).errors.deep_view() + old(
            other,
        ).errors.deep_view());
        assert(self.warnings.deep_view() =~= old(self).warnings.deep_view() + old(
            other,
        ).warnings.deep_view());
        assert(other.errors.deep_view() =~= Seq::empty());
        assert(other.warnings.deep_view() =~= Seq::empty());
    }

    /// Moves the warnings behind the warnings that are there.
    pub fn append_warning_vec(&mut self, warnings: Vec<DatamodelWarning>)
        ensures
            final(self).deep_view() == (DiagnosticsView {
                errors: old(self).deep_view().errors,
                warnings: old(self).deep_view().warnings + warnings.deep_view(),
            }),
    {
        let mut warnings = warnings;
        let ghost added = warnings.deep_view();
        self.warnings.append(&mut warnings);
        assert(self.warnings.deep_view() =~= old(self).warnings.deep_view() + added);
    }

    /// Success where there is no error, all that was found otherwise.
    pub fn to_result(self) -> (r: Result<(), Diagnostics>)
        ensures
            match r {
                Ok(_) => !self.deep_view().has_errors(),
                Err(d) => self.deep_view().has_errors() && d.deep_view() == self.deep_view(),
            },
    {
        if self.has_errors() {
            Err(self)
        } else {
            Ok(())
        }
    }
}

} // verus!
