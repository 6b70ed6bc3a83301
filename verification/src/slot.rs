//! The pool's side of a slot handle.
//!
//! A slot handle is an `Rc<usize>` that holds the slot's index. Whoever holds it owns the slot,
//! and dropping it frees the slot: there is no other way to free one. The pool keeps a weak
//! reference to each handle it gave out, so that it can tell whether the handle still exists
//! without keeping it alive.

use vstd::prelude::*;
use std::rc::Rc;
use std::rc::Weak;

verus! {

/// A weak reference to a slot handle. Nothing is known of it but what [`upgrade`] reports at
/// the moment it is asked: the handle may be dropped at any time by its owner.
#[verifier::external_body]
pub struct WeakSlot {
    weak: Weak<usize>,
}

/// Calls `Rc::downgrade`: a weak reference to `handle`, which does not keep it alive.
/// Trusted; nothing is claimed of the result.
#[verifier::external_body]
pub(crate) fn downgrade(handle: &Rc<usize>) -> (observer: WeakSlot) {
    WeakSlot { weak: Rc::downgrade(handle) }
}

/// Calls `Weak::upgrade`: the handle, if it still exists. Trusted; nothing is claimed of the
/// result, which depends on what the handle's owner has done.
#[verifier::external_body]
pub(crate) fn upgrade(observer: &WeakSlot) -> (handle: Option<Rc<usize>>) {
    observer.weak.upgrade()
}

} // verus!
