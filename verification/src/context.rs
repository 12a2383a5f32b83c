use vstd::prelude::*;

use std::rc::Rc;

use crate::cell::SnapCell;
use crate::store::Store;

verus! {

/// A cheaply cloneable handle on one store instance: shared ownership of the
/// interior-mutable slot that holds the current snapshot. All handles for the
/// same store type obtained from one registry share the same slot.
#[verifier::reject_recursive_types(S)]
pub struct Context<S> {
    cell: SnapCell<S>,
}

impl<S> Clone for Context<S> {
    /// A new handle sharing the same slot.
    fn clone(&self) -> (c: Self) {
        Context { cell: self.cell.share() }
    }
}

impl<S: Store> Context<S> {
    /// Wrap a freshly constructed state in a fresh slot of its own.
    pub(crate) fn with_state(state: S) -> (c: Context<S>) {
        Context { cell: SnapCell::new(Rc::new(state)) }
    }

    /// The snapshot the slot holds at this moment.
    pub fn snapshot(&self) -> (snap: Rc<S>) {
        self.cell.current()
    }

    /// Make `next` the current snapshot, and report whether the transition
    /// from `before` to `next` is significant, exactly as the store's own
    /// `should_notify` decides it.
    pub fn commit(&self, before: &Rc<S>, next: Rc<S>) -> (notify: bool)
        ensures
            notify == before.spec_should_notify(&next),
    {
        self.cell.put(Rc::clone(&next));
        (&**before).should_notify(&*next)
    }

    /// Read the current snapshot, hand it to `f`, make `f`'s result the new
    /// current snapshot, and report whether the transition is significant.
    /// `f` receives its own handle on the pre-transition snapshot, so it may
    /// keep reading the old value while building the new one.
    pub fn reduce<F: FnOnce(Rc<S>) -> Rc<S>>(&self, f: F) -> (notify: bool)
        requires
            forall|snap: Rc<S>| #[trigger] f.requires((snap,)),
        ensures
            exists|before: Rc<S>, next: Rc<S>|
                f.ensures((before,), next) && notify == before.spec_should_notify(&next),
    {
        let before = self.snapshot();
        let next = f(Rc::clone(&before));
        self.commit(&before, next)
    }
}

/// Notification fidelity, unchanged half: a reduction whose transform can only
/// hand the snapshot back unchanged, applied on a store that never flags an
/// unchanged state (as "not equal" does not), reports no notification. The
/// `exists` hypothesis is exactly what `reduce` ensures of its result.
pub proof fn lemma_unchanged_reduce_never_notifies<S: Store, F: FnOnce(Rc<S>) -> Rc<S>>(
    f: F,
    notify: bool,
)
    requires
        forall|before: Rc<S>, next: Rc<S>| f.ensures((before,), next) ==> next == before,
        forall|s: S| !(#[trigger] s.spec_should_notify(&s)),
        exists|before: Rc<S>, next: Rc<S>|
            f.ensures((before,), next) && notify == before.spec_should_notify(&next),
    ensures
        !notify,
{
    let (before, next) = choose|before: Rc<S>, next: Rc<S>|
        f.ensures((before,), next) && notify == before.spec_should_notify(&next);
    assert(!(*before).spec_should_notify(&*before));
}

/// Notification fidelity, changed half: a reduction whose transform can only
/// produce a snapshot the store flags as significant (as a distinct value
/// under "not equal") reports a notification. The `exists` hypothesis is
/// exactly what `reduce` ensures of its result.
pub proof fn lemma_changing_reduce_notifies<S: Store, F: FnOnce(Rc<S>) -> Rc<S>>(
    f: F,
    notify: bool,
)
    requires
        forall|before: Rc<S>, next: Rc<S>|
            f.ensures((before,), next) ==> before.spec_should_notify(&next),
        exists|before: Rc<S>, next: Rc<S>|
            f.ensures((before,), next) && notify == before.spec_should_notify(&next),
    ensures
        notify,
{
}

} // verus!
