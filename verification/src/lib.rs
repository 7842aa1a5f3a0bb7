//! A directory pallet: a registry of display names keyed by account and a
//! dictionary of translations keyed by (term, language), both written only by
//! signed origins, with one event recorded per accepted write.
//!
//! The pallet owns its state as an explicit value, so it can be driven and
//! checked without a host runtime around it. Writes are last-write-wins and
//! all-or-nothing; there is no delete and no per-key ownership.
//!
//! - `gateway`: origins, and the check that an origin is signed.
//! - `registry`, `directory`: the two stores.
//! - `pallet`: the stores and the event log behind the gateway.
//! - `model`, `laws`: the state as mathematics, and what is proved of it.

pub mod assoc;
pub mod directory;
pub mod gateway;
pub mod laws;
pub mod model;
pub mod pallet;
pub mod registry;

pub use directory::Directory;
pub use gateway::{authenticate, Error, Origin};
pub use model::{Notification, State};
pub use pallet::{Config, Event, Pallet};
pub use registry::Registry;
