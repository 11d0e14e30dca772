//! In-process typed message bus: the registries behind broadcast,
//! notification and request-response messaging, with deferred cleanup of
//! abandoned entries.
//!
//! Each operation here runs under a registry lock that its caller holds:
//! shared for producers (`notify`, `request`), exclusive for everything that
//! changes the map (`subscribe`, `listen`, `close`). Every exclusive
//! operation first applies the removals that dropped handles queued, and a
//! dropped handle only ever touches that queue (`abandon`). Waiting for a
//! mailbox slot, a payload or an answer is left to the caller.

pub mod broadcast;
pub mod identity;
pub mod mailbox;
pub mod notification;
pub mod registry;
pub mod request;
pub mod untyped_box;

pub use untyped_box::UntypedBox;
