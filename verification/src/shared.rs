use std::sync::Arc;
use vstd::prelude::*;

verus! {

/// Relies on `Clone` for `std::sync::Arc`: the clone is a new handle to
/// the same allocation, so it carries the same value.
#[verifier::external_body]
pub fn arc_clone<T: ?Sized>(a: &Arc<T>) -> (res: Arc<T>)
    ensures
        res == *a,
{
    a.clone()
}

/// Relies on `Deref` for `std::sync::Arc`: borrowing through the
/// handle yields the shared value.
#[verifier::external_body]
pub fn arc_borrow<T>(a: &Arc<T>) -> (res: &T)
    ensures
        *res == *a,
{
    a
}

} // verus!
