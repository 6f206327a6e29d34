//! What the shared application data must offer: value equality and clones
//! that equal their source.
use vstd::prelude::*;
use vstd::std_specs::cmp::PartialEqSpec;

verus! {

/// `T` compares by value and its clones are equal to their source.
pub open spec fn value_semantics<T: Clone + PartialEq>() -> bool {
    &&& T::obeys_eq_spec()
    &&& forall|x: T, y: T| x.eq_spec(&y) <==> (x == y)
    &&& forall|a: T, b: T| #[trigger] call_ensures(T::clone, (&a,), b) ==> a == b
}

/// Compares two data values by value; the sole change-detection mechanism.
pub fn same<T: Clone + PartialEq>(a: &T, b: &T) -> (r: bool)
    requires
        value_semantics::<T>(),
    ensures
        r == (*a == *b),
{
    a.eq(b)
}

/// A deep copy of a data value.
pub fn duplicate<T: Clone + PartialEq>(a: &T) -> (r: T)
    requires
        value_semantics::<T>(),
    ensures
        r == *a,
{
    a.clone()
}

} // verus!
