//! Supervision of long-lived child processes for a desktop shell: a registry of
//! pseudo-terminal sessions and the supervisor of the single backend server
//! process, whose port is learned from its output.
//!
//! The library decides. Launching processes, moving bytes, probing the network
//! and sending notifications are the caller's part; it hands the outcomes in as
//! plain values. The one thing that the library asks of the system itself is
//! whether the project path of a deep link names a directory.
//!
//! - [`terminal`]: the registry of sessions.
//! - [`sidecar`]: the supervisor of the backend process, and its health.
//! - [`orpc_bridge`]: the backend's addresses and the verdict on its answers.
//! - [`deeplink`], [`updater`], [`tray`], [`commands`]: what the desktop
//!   shell's other commands decide.
//! - [`laws`]: what holds of every run of requests and events.
//! - [`error`], [`text`]: failures, and helpers for text.

pub mod commands;
pub mod deeplink;
pub mod error;
pub mod laws;
pub mod orpc_bridge;
pub mod sidecar;
pub mod terminal;
pub mod text;
pub mod tray;
pub mod updater;
