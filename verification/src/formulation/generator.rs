//! Helpers of the code generated for the queries.

use vstd::prelude::*;

verus! {

/// Helper structure for calling rust code from within a template.
pub struct GeneratorCallback;

impl GeneratorCallback {
    /// Constructs a new `GeneratorCallback`.
    pub fn new() -> (r: Self) {
        Self
    }
}

}
