//! An authenticated registry of products and their last-known location.
//!
//! A host runtime delivers signed commands, keeps the registry in its storage
//! and feeds the emitted events to its observers. This crate holds what is
//! decided in between: whether a command is accepted, which entry it writes,
//! and which event it emits.
//!
//! - [`command`] decides the two commands, register-product and
//!   update-location, from plain values to plain values.
//! - [`registry`] is the store: a map from identifier to entry with
//!   `contains`, `get` and `put`.
//! - [`pallet`] puts the two together with a journal of events, as a host
//!   does, and [`state`] describes it as a state machine over commands.
//! - [`journal`] shows that the journal suffices to rebuild the registry.

pub mod bytes;
pub mod command;
pub mod error;
pub mod event;
pub mod journal;
pub mod origin;
pub mod pallet;
pub mod product;
pub mod registry;
pub mod state;

pub use crate::error::Error;
pub use crate::event::Event;
pub use crate::pallet::{Config, Pallet};
