//! The items needed to define new model types.

pub mod prelude;
