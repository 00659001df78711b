//! Schemas of MongoDB documents and the queries written against them: the schema definitions
//! are parsed and validated, and queries (data, filter and update documents) are parsed and
//! checked against the schema.

pub mod commands;
pub mod conversions;
pub mod definition;
pub mod document;
pub mod errors;
pub mod filters;
pub mod formulation;
pub mod models;
pub mod order;
pub mod parser;
pub mod prelude;
pub mod query;
pub mod text;
pub mod tokens;
pub mod types;
pub mod updates;
pub mod values;

pub use definition::interpreter::Interpreter as Definition;
pub use formulation::interpreter::Interpreter as Formulation;
pub use formulation::validator::Problem;
