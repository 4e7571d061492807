//! Keep-the-machine-awake toggle: the lifecycle core behind a tray menu.
//!
//! One external process keeps the machine awake while it runs. This crate owns
//! the rules around it: a slot that holds at most one process handle, a store
//! that serialises every access to that slot, and a controller that turns the
//! two menu events into the outside work to perform and the label to show.
//! Spawning, signalling and drawing are left to the caller; every decision is
//! made here and carries a proved contract.

pub mod toggle;
pub mod slot;
pub mod event;
pub mod platform;
pub mod controller;
pub mod store;
pub mod history;
