//! A fixed table of desktop shortcuts, the once-only registry that publishes
//! it, and the decisions each shortcut's callback makes while it runs.
//!
//! The library performs no effect on the desktop itself. A callback is
//! described by the effects it asks for, one at a time; the host carries each
//! effect out and reports how it ended.

pub mod callback;
pub mod config;
pub mod effect;
pub mod registry;
pub mod shortcuts;
