use std::sync::atomic::AtomicBool;
use std::sync::atomic::Ordering;
use std::sync::Arc;
use vstd::prelude::*;

verus! {

/// The flag as a value: what it holds once a shutdown request has found it
/// at `before`. The request sets it in one atomic step, whatever it was;
/// nothing in this crate clears it, and reading it changes nothing.
pub open spec fn after_set_once(before: bool) -> bool {
    true
}

/// A fresh shutdown flag, not yet set.
pub(crate) fn new_flag() -> Arc<AtomicBool> {
    Arc::new(AtomicBool::new(false))
}

/// Reads the flag. Another thread may set it at any moment, so nothing is
/// promised of the value read.
pub(crate) fn is_set(flag: &Arc<AtomicBool>) -> bool {
    flag.load(Ordering::SeqCst)
}

/// Sets the flag if it is not set yet, in one atomic step, and says whether it
/// was set already. Of all the threads that call this, at most one is told
/// `false`.
pub(crate) fn set_once(flag: &Arc<AtomicBool>) -> bool {
    flag.compare_exchange(false, true, Ordering::SeqCst, Ordering::SeqCst).is_err()
}

/// A second handle on the same flag.
///
/// Trusted: the body is `Arc::clone`, which hands out another pointer to the
/// same allocation. Nothing is claimed of the result.
#[verifier::external_body]
pub(crate) fn share(flag: &Arc<AtomicBool>) -> Arc<AtomicBool> {
    Arc::clone(flag)
}

} // verus!
