//! The views of sequences.

use vstd::prelude::*;

verus! {

/// The values of a sequence of things that have a view, one for one.
pub open spec fn views_of<T: View>(items: Seq<T>) -> Seq<T::V> {
    Seq::new(items.len(), |i: int| items[i]@)
}

} // verus!
