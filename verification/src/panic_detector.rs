//! Telling whether the current thread is unwinding.

use vstd::prelude::*;

verus! {

/// A way to find out whether the current thread is unwinding because of a
/// panic.
///
/// An implementation should not panic itself: it is asked while a scope is
/// being left, possibly in the middle of an unwind.
pub trait PanicDetector {
    /// Tells whether the current thread is unwinding because of a panic.
    fn is_panicking(&self) -> bool;
}

/// A detector behind a reference is a detector: it answers what the
/// detector behind the reference answers.
impl<P: PanicDetector> PanicDetector for &P {
    fn is_panicking(&self) -> (panicking: bool)
        ensures
            call_ensures(<P as PanicDetector>::is_panicking, (*self,), panicking),
    {
        (**self).is_panicking()
    }
}

} // verus!
