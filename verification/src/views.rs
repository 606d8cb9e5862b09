//! Sequences of values seen through their views.
use vstd::prelude::*;

verus! {

/// The views of `items`, in order.
pub open spec fn views_of<T: View>(items: Seq<T>) -> Seq<T::V> {
    Seq::new(items.len(), |i: int| items[i]@)
}

/// Whether the views of `items` are, one for one and in order, `expected`.
pub open spec fn views_are<T: View>(items: Seq<T>, expected: Seq<T::V>) -> bool {
    &&& items.len() == expected.len()
    &&& forall|i: int| 0 <= i < items.len() ==> (#[trigger] items[i])@ == expected[i]
}

} // verus!
