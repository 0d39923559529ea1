//! Views of values that hold viewed values.

use vstd::prelude::*;

verus! {

/// A result, each side by its view.
pub open spec fn result_view<T: View, E: View>(r: Result<T, E>) -> Result<T::V, E::V> {
    match r {
        Ok(t) => Ok(t@),
        Err(e) => Err(e@),
    }
}

/// A sequence, each item by its view.
pub open spec fn seq_view<T: View>(s: Seq<T>) -> Seq<T::V> {
    s.map_values(|t: T| t@)
}

/// A listing that may have failed or found no list, each item by its view.
pub open spec fn listing_view<T: View, E: View>(r: Result<Option<Vec<T>>, E>) -> Result<
    Option<Seq<T::V>>,
    E::V,
> {
    match r {
        Ok(Some(items)) => Ok(Some(seq_view(items@))),
        Ok(None) => Ok(None),
        Err(e) => Err(e@),
    }
}

} // verus!
