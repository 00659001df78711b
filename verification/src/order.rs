//! The condition under which the specifications of ordered collections hold.

use vstd::prelude::*;

verus! {

/// The order of the type is lawful: a total order that its comparison functions agree with.
pub open spec fn order_is_lawful<K: Ord>() -> bool {
    vstd::laws_cmp::obeys_cmp::<K>()
}

}
