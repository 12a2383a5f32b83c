//! Per-type singleton state registry for single-threaded reactive programs.
//!
//! Each store type gets one shared, lazily created instance per [`Registry`],
//! reached through a cheaply cloneable [`Context`] handle. A state transition
//! (`reduce`) swaps the current snapshot for a new one and reports whether the
//! change is significant, as decided by the store's own [`Store::should_notify`].
//!
//! The get-or-create algorithm's correctness argument — the pending marker
//! keeps every store's constructor from running twice, even when one store's
//! constructor requests another store — is proved over the entry lifecycle
//! model in [`protocol`].

mod cell;
pub mod context;
pub mod protocol;
pub mod registry;
pub mod store;

pub use context::Context;
pub use registry::Registry;
pub use store::Store;
