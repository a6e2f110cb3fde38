//! The type-erased payload of a storage cell.
//!
//! An [`Erased`] value is a box whose contents Verus never sees; the arena
//! only carries it from insertion to retrieval.  Which retrievals succeed is
//! decided by the box itself: recovery at the value's own concrete type
//! yields the stored value, recovery at any other type yields nothing.  That
//! behaviour is the standard library's `Any` downcast and is relied on, not
//! proved.

use vstd::prelude::*;

verus! {

/// A value of some `'static` type behind an opaque box.
#[verifier::external_body]
pub struct Erased {
    inner: Box<dyn core::any::Any>,
}

/// Relies on `Box::new` with an unsizing coercion: the box takes ownership of
/// `value` and nothing else.
#[verifier::external_body]
pub(crate) fn erase<V: 'static>(value: V) -> Erased {
    Erased { inner: Box::new(value) }
}

/// Relies on `<dyn Any>::downcast_ref`: the result is `Some` exactly when the
/// boxed value's concrete type is `V`, and then borrows that very value.
#[verifier::external_body]
pub(crate) fn recover<V: 'static>(erased: &Erased) -> Option<&V> {
    erased.inner.downcast_ref::<V>()
}

} // verus!
