use vstd::prelude::*;

use std::cell::RefCell;
use std::rc::Rc;

verus! {

/// Interior-mutable slot holding the current snapshot of one store instance.
/// Every handle cloned from one `SnapCell` shares the same slot, so a write
/// through one handle is observed through all of them. Verus sees the slot as
/// opaque: because the contents can change through any alias, the trusted
/// methods below promise nothing about what the slot holds.
#[verifier::external_body]
#[verifier::reject_recursive_types(S)]
pub struct SnapCell<S> {
    slot: Rc<RefCell<Rc<S>>>,
}

impl<S> SnapCell<S> {
    /// Relies on std::rc::Rc::new and std::cell::RefCell::new: a fresh slot,
    /// not shared with any other handle, holding `first`.
    #[verifier::external_body]
    pub(crate) fn new(first: Rc<S>) -> (cell: SnapCell<S>) {
        SnapCell { slot: Rc::new(RefCell::new(first)) }
    }

    /// Relies on std::cell::RefCell::borrow and std::rc::Rc::clone: hands out
    /// the snapshot the slot holds at this moment. Which snapshot that is
    /// depends on writes made through aliased handles, so nothing can be
    /// promised of the result.
    #[verifier::external_body]
    pub(crate) fn current(&self) -> (snap: Rc<S>) {
        Rc::clone(&self.slot.borrow())
    }

    /// Relies on std::cell::RefCell::borrow_mut: makes `next` the snapshot
    /// the slot holds, for every handle sharing it.
    #[verifier::external_body]
    pub(crate) fn put(&self, next: Rc<S>) {
        *self.slot.borrow_mut() = next;
    }

    /// Relies on std::rc::Rc::clone: a new handle sharing the same slot.
    #[verifier::external_body]
    pub(crate) fn share(&self) -> (cell: SnapCell<S>) {
        SnapCell { slot: Rc::clone(&self.slot) }
    }
}

} // verus!
