use vstd::prelude::*;

use std::cell::RefCell;
use std::rc::Rc;

use anymap::AnyMap;

use crate::context::Context;
use crate::store::Store;

verus! {

/// The shared, interior-mutable table behind a registry: a type-indexed map
/// holding one entry cell per store type. Verus sees it as opaque; it is only
/// ever touched through `Registry::entry`, in one short-lived access per
/// `get_or_init` call, never while a store constructor runs.
#[verifier::external_body]
struct TableCell {
    map: Rc<RefCell<AnyMap>>,
}

/// One registry entry: an interior-mutable slot that is either *pending*
/// (construction of the store is underway or about to begin — no context yet)
/// or *ready* (it holds the fully constructed context). Handles cloned from
/// one `EntryCell` share the same slot. Verus sees the slot as opaque.
#[verifier::external_body]
#[verifier::reject_recursive_types(S)]
struct EntryCell<S> {
    slot: Rc<RefCell<Option<Context<S>>>>,
}

impl<S> EntryCell<S> {
    /// Relies on std::rc::Rc::new and std::cell::RefCell::new: a fresh slot
    /// in the pending state, not shared with any other handle.
    #[verifier::external_body]
    fn fresh() -> (entry: EntryCell<S>) {
        EntryCell { slot: Rc::new(RefCell::new(None)) }
    }

    /// Relies on std::rc::Rc::clone: a new handle sharing the same slot.
    #[verifier::external_body]
    fn share(&self) -> (entry: EntryCell<S>) {
        EntryCell { slot: Rc::clone(&self.slot) }
    }

    /// Relies on std::cell::RefCell::borrow and Clone on `Option<Context<S>>`:
    /// `None` while the entry is pending, or a clone of the ready context.
    /// Which of the two depends on writes made through aliased handles, so
    /// nothing can be promised of the result.
    #[verifier::external_body]
    fn current(&self) -> (ctx: Option<Context<S>>) {
        self.slot.borrow().clone()
    }

    /// Relies on std::cell::RefCell::borrow_mut: moves the slot to the ready
    /// state, holding a clone of `ctx`, for every handle sharing it.
    #[verifier::external_body]
    fn fill(&self, ctx: &Context<S>) {
        *self.slot.borrow_mut() = Some(ctx.clone());
    }
}

/// A handle on one table of per-type store entries. Lookup is by type
/// identity; entries are created lazily, and never removed or replaced once
/// ready. Clones of one `Registry` share the same table.
pub struct Registry {
    table: TableCell,
}

impl Clone for Registry {
    /// A new handle sharing the same table.
    fn clone(&self) -> (reg: Self) {
        Registry { table: self.table.share_table() }
    }
}

impl TableCell {
    /// Relies on std::rc::Rc::new, std::cell::RefCell::new and anymap's
    /// AnyMap::new: a fresh, empty table.
    #[verifier::external_body]
    fn new() -> (table: TableCell) {
        TableCell { map: Rc::new(RefCell::new(AnyMap::new())) }
    }

    /// Relies on std::rc::Rc::clone: a new handle sharing the same table.
    #[verifier::external_body]
    fn share_table(&self) -> (table: TableCell) {
        TableCell { map: Rc::clone(&self.map) }
    }
}

impl Registry {
    /// A fresh registry with no entries.
    pub fn new() -> (reg: Registry) {
        Registry { table: TableCell::new() }
    }

    /// Relies on anymap's Map::entry and Entry::or_insert_with: in one
    /// short-lived access to the table, looks up the entry cell for `S`,
    /// inserting a fresh pending cell if the type had none, and hands back a
    /// handle sharing that cell. anymap keys the value by `S`'s type identity,
    /// so distinct store types never collide, and repeated calls for one type
    /// reach the same cell. The table borrow ends before this returns: no
    /// borrow is held while a store constructor runs.
    #[verifier::external_body]
    fn entry<S: Store>(&self) -> (entry: EntryCell<S>) {
        self.table.map.borrow_mut().entry::<EntryCell<S>>().or_insert_with(EntryCell::fresh).share()
    }

    /// The context of store type `S`: the ready one if construction already
    /// completed (possibly by an enclosing call, when this call is reentrant
    /// from within another store's constructor), else the one built here by
    /// running `S::new` — outside of any table access, so that the
    /// constructor may itself request other stores from this registry.
    ///
    /// The body walks the steps of the entry lifecycle modelled in
    /// [`crate::protocol`]: `entry` materializes the pending marker, a ready
    /// entry is returned as it is, and otherwise construction begins and the
    /// built context is stored. The model proves that an entry driven by
    /// these steps starts its store's constructor at most once, however the
    /// requests nest across types; requesting a store from inside its own
    /// constructor is outside the model and unsupported.
    ///
    /// A completed call hands back the context it found or built, never a
    /// re-read of the entry, so no caller can observe an entry that is still
    /// empty after construction finished.
    pub fn get_or_init<S: Store>(&self) -> (ctx: Context<S>) {
        let entry = self.entry::<S>();
        match entry.current() {
            Some(ctx) => ctx,
            None => {
                let state = S::new(self);
                let ctx = Context::with_state(state);
                entry.fill(&ctx);
                ctx
            },
        }
    }
}

} // verus!
