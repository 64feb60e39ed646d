//! A verified schedule registry.
//!
//! A host game engine drives its per-frame work through named phases
//! ("schedules"); user code registers opaque system handles under a schedule
//! identity during startup, and a proxy callback replays every handle
//! registered for a schedule once per matching tick.  This crate holds the
//! bookkeeping for that pattern, verified: runtime-erased schedule
//! identities, an interning table that maps each identity to a canonical
//! label, and registries that associate each label with a duplicate-free,
//! unordered set of system handles.
//!
//! The host engine itself (scheduler, entity storage, rendering) is not
//! modelled here: identities and handles enter the library as plain
//! integers, and the replay plan leaves it as a plain vector of handles for
//! the caller to hand back to the host.

pub mod label;
pub mod laws;
pub mod registry;
