//! Synchronization core for a stereoscopic head-mounted display shell.
//!
//! The crate holds the decision logic that keeps a compositor runtime and a
//! GPU backend in agreement: the session lifecycle state machine, the
//! instance/device negotiation (extension unions, version gates, queue
//! selection), the swapchain checkout protocol, the wait/begin/render/end
//! frame protocol, and the simulation time tracker. The native calls that
//! these decisions drive (compositor polling, GPU submission) are I/O and
//! live outside the library; every function here is a total, verified map
//! from plain values to plain values.

pub mod controls;
pub mod device_bridge;
pub mod errors;
pub mod extensions;
pub mod frame;
pub mod session;
pub mod swapchain;
pub mod time;
pub mod version;
