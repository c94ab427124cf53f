//! Mode orchestration for a small wireless device.
//!
//! The device runs at most one wireless mode at a time. While a mode is
//! active a bundle of services runs with it; the bundle is abandoned and the
//! radio stopped as soon as the desired status changes. This library holds
//! the decisions: every function takes plain values and returns the next
//! state together with the operations that the surrounding firmware has to
//! perform, in order.

pub mod address;
pub mod bundle;
pub mod fault;
pub mod invariants;
pub mod link;
pub mod mode;
pub mod orchestrator;
pub mod params;
pub mod slot;
pub mod web_server;

pub use crate::mode::{WifiMode, WifiStatus};
pub use crate::orchestrator::networking_task;
pub use crate::web_server::{start_web_server, AppProps};
