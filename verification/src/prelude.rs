//! The items that code using the library usually needs.

pub use crate::conversions::{FromDoc, HuusKey, IntoDoc};
pub use crate::filters::{ArrayFilter, ComparisonFilter, ElementFilter, ObjectFilter};
pub use crate::query::Query;
pub use crate::updates::{
    ArrayUpdate, ElementUpdate, FieldUpdate, NumericalUpdate, ObjectUpdate, Operator,
};
pub use crate::values::{PullValue, PushValue};
