//! The seal on the builder extensions: only `tower::ServiceBuilder` has them.

use vstd::prelude::*;
use tower::ServiceBuilder;

verus! {

#[verifier::external_type_specification]
#[verifier::external_body]
#[verifier::reject_recursive_types(L)]
pub struct ExServiceBuilder<L>(ServiceBuilder<L>);

/// Implemented by `tower::ServiceBuilder` alone, so that the builder
/// extensions can be added to it and to nothing else.
pub trait Sealed<T> {}

impl<L> Sealed<L> for ServiceBuilder<L> {}

} // verus!
