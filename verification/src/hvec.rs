//! Declaration of the fixed-capacity vector the library stores its
//! bounded lists in (navigation stack, keypad digits, effect lists).

use vstd::prelude::*;

verus! {

/// `heapless::Vec`: a vector with inline storage for `N` items.
#[verifier::external_type_specification]
#[verifier::external_body]
#[verifier::reject_recursive_types(T)]
pub struct ExHeaplessVec<T, const N: usize>(heapless::Vec<T, N>);

} // verus!
