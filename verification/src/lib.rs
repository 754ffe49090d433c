//! Extracting the owned inner value out of a heap-allocated `Box<T>`.
//!
//! The extraction consumes the box, hands the contained value back to the
//! caller by move, and releases the backing allocation. The contained value's
//! own drop logic does not run as part of the extraction: responsibility for
//! it travels with the returned value, so it runs exactly once, at the natural
//! end of the returned value's lifetime.

use vstd::prelude::*;

verus! {

/// Extracts the inner value from a `Box<T>`.
///
/// The box is consumed, so no name for it remains after the call. The
/// returned value is exactly the value the box held, and `T`'s drop logic is
/// not run by this call: moving the value out of the box transfers that
/// obligation to the caller, and releasing the now-empty box frees only the
/// backing allocation.
pub fn box_into_inner<T>(value: Box<T>) -> (r: T)
    ensures
        r == value,
{
    *value
}

/// The capability of being converted into an owned inner value.
///
/// A container implementing this trait can be consumed to yield the single
/// value it holds, without running that value's drop logic as part of the
/// conversion. It is implemented once, for `Box<T>`, so that the extraction
/// is available in method form on boxed values.
pub trait IntoInner: Sized {
    /// The inner type contained in the container.
    type Inner;

    /// The value that the container holds, as seen by contracts.
    spec fn inner(self) -> Self::Inner;

    /// Extracts the inner value from the container without running its
    /// drop logic.
    fn into_inner(self) -> (r: Self::Inner)
        ensures
            r == self.inner(),
    ;
}

impl<T> IntoInner for Box<T> {
    type Inner = T;

    open spec fn inner(self) -> T {
        *self
    }

    fn into_inner(self) -> (r: T) {
        box_into_inner(self)
    }
}

/// Value preservation: boxing a value and then extracting it yields the very
/// value that was boxed. Any `b` that `Box::new(v)` can return holds `v`, and
/// any `r` that `box_into_inner(b)` can return equals the held value.
pub proof fn lemma_extract_preserves_value<T>(v: T, b: Box<T>, r: T)
    requires
        call_ensures(Box::<T>::new, (v,), b),
        call_ensures(box_into_inner::<T>, (b,), r),
    ensures
        r == v,
{
}

} // verus!
