use vstd::prelude::*;

use crate::registry::Registry;

verus! {

/// The capability every state type implements: construct an initial state,
/// and decide whether a given transition is significant enough to notify
/// subscribers. The registry never imposes an equality of its own; what
/// counts as a significant change is entirely the implementor's decision.
pub trait Store: Sized + 'static {
    /// What `should_notify` decides, as a predicate on the state before a
    /// transition (`self`) and the state after (`other`). Until an
    /// implementation overrides this, nothing is known of the decision.
    open spec fn spec_should_notify(&self, other: &Self) -> bool {
        arbitrary()
    }

    /// Produce the initial state. The registry handle lets the constructor
    /// request (get or create) the contexts of other store types; requesting
    /// the store's own type from inside its constructor is unsupported.
    fn new(reg: &Registry) -> Self;

    /// Decide whether the transition from `self` (the state before) to
    /// `other` (the state after) is significant.
    fn should_notify(&self, other: &Self) -> (r: bool)
        ensures
            r == self.spec_should_notify(other),
    ;
}

} // verus!
