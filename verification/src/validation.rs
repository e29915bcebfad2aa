//! Checking a schema before anything is made of it.

pub mod arguments;
pub mod diagnostics;
pub mod generators;
pub mod precheck;
pub mod value_validator;

pub use arguments::Arguments;
pub use generators::GeneratorLoader;
pub use precheck::Precheck;
pub use diagnostics::{DatamodelError, DatamodelWarning, Diagnostics};
pub use value_validator::ValueValidator;
