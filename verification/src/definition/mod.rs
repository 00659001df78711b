//! The schema of the database: its definition, parsing and validation.

pub mod generator;
pub mod input;
pub mod interpreter;
pub mod output;
pub mod validator;
