//! The tower layer stack that the server and client builders accumulate.

use vstd::prelude::*;

verus! {

/// The layer that changes nothing (`tower::layer::util::Identity`), carried
/// through as an opaque value.
#[verifier::external_type_specification]
#[verifier::external_body]
pub struct ExIdentity(tower::layer::util::Identity);

/// Two layers applied one after the other (`tower::layer::util::Stack`),
/// carried through as an opaque value.
#[verifier::external_type_specification]
#[verifier::external_body]
#[verifier::reject_recursive_types(Inner)]
#[verifier::reject_recursive_types(Outer)]
pub struct ExStack<Inner, Outer>(tower::layer::util::Stack<Inner, Outer>);

/// The layer that leaves a service as it is (`tower::layer::util::Identity::new`).
/// The value is opaque to Verus, so nothing is stated of it.
#[verifier::external_body]
pub(crate) fn identity_layer() -> tower::layer::util::Identity {
    tower::layer::util::Identity::new()
}

/// The layer that applies `inner` and then `outer` around it
/// (`tower::layer::util::Stack::new`). The value is opaque to Verus, so
/// nothing is stated of it.
#[verifier::external_body]
pub(crate) fn stack_layers<Inner, Outer>(inner: Inner, outer: Outer) -> tower::layer::util::Stack<Inner, Outer> {
    tower::layer::util::Stack::new(inner, outer)
}

} // verus!
