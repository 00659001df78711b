//! Prelude for defining new types.

pub use crate::conversions::{HuusIntoBson, IntoDoc};
pub use crate::filters::{BuildFilter, BuildInnerFilter, Filters};
pub use crate::updates::{BuildInnerUpdate, BuildUpdate};
