//! Declaration of the fixed-capacity vector type of the `heapless` crate,
//! so that the kernel's bounded tables can appear in verified signatures.
//!
//! The type is opaque to the verifier.  Each table gives its own contents a
//! name (an uninterpreted sequence) and goes through small trusted wrappers
//! whose contracts state, over that name, what the `heapless` source shows.

use vstd::prelude::*;

verus! {

#[verifier::external_type_specification]
#[verifier::external_body]
#[verifier::reject_recursive_types(T)]
pub struct ExHeaplessVec<T, const N: usize>(heapless::Vec<T, N>);

} // verus!
