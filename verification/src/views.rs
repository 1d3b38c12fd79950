//! Views of optional values and of lists, built from the views of what they
//! hold.

use vstd::prelude::*;

verus! {

/// The view of an optional value.
pub open spec fn option_view<T: View>(o: Option<T>) -> Option<T::V> {
    match o {
        Some(x) => Some(x@),
        None => None,
    }
}

/// The views of a list's items, in order.
pub open spec fn list_view<T: View>(items: Seq<T>) -> Seq<T::V> {
    Seq::new(items.len(), |i: int| items[i]@)
}

/// The view of an optional list.
pub open spec fn option_list_view<T: View>(o: Option<Vec<T>>) -> Option<Seq<T::V>> {
    match o {
        Some(items) => Some(list_view(items@)),
        None => None,
    }
}

/// Appending one item to a list appends its view to the list's view.
pub proof fn lemma_list_view_push<T: View>(items: Seq<T>, item: T)
    ensures
        list_view(items.push(item)) == list_view(items).push(item@),
{
    assert(list_view(items.push(item)) =~= list_view(items).push(item@));
}

} // verus!
