//! Markers for type parameters that a type names without holding a value of
//! them.
use vstd::prelude::*;

verus! {

/// The marker `type_variance::Invariant`, a value without content that makes
/// the type that holds it invariant in `T`.
#[verifier::external_type_specification]
#[verifier::external_body]
#[verifier::reject_recursive_types(T)]
pub struct ExInvariant<T: ?Sized>(type_variance::Invariant<T>);

/// The marker `type_variance::Contravariant`, a value without content that
/// makes the type that holds it contravariant in `T`.
#[verifier::external_type_specification]
#[verifier::external_body]
#[verifier::reject_recursive_types(T)]
pub struct ExContravariant<T: ?Sized>(type_variance::Contravariant<T>);

/// Makes an invariance marker by `type_variance::variance`. The marker holds
/// nothing, so nothing is claimed of it.
#[verifier::external_body]
pub(crate) fn invariant_marker<T>() -> type_variance::Invariant<T> {
    type_variance::variance()
}

/// Makes a contravariance marker by `type_variance::variance`. The marker
/// holds nothing, so nothing is claimed of it.
#[verifier::external_body]
pub(crate) fn contravariant_marker<T>() -> type_variance::Contravariant<T> {
    type_variance::variance()
}

} // verus!
