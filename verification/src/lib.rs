//! The core of a schema engine: deriving a data model from the schema of
//! a database, pairing its relation fields, telling the steps between two
//! schemas, and keeping and judging the record of the migrations of a
//! database. Every function is stated over mathematical views of its
//! arguments and proved to meet what it states.

pub mod ast;
pub mod capabilities;
pub mod differ;
pub mod dml;
pub mod flavours;
pub mod introspection;
pub mod migrations;
pub mod native_types;
pub mod patterns;
pub mod relations;
pub mod seqs;
pub mod sql_schema;
pub mod steps;
pub mod text;
pub mod validation;
pub mod values;
