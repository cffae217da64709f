//! Event-dispatch and runtime-binding layer for a status-area indicator.
//!
//! A desktop shell owns a single status-area control; this library decides
//! how that control is configured and how pointer gestures on it turn into
//! external command launches. The shell-facing glue (control allocation,
//! run loop, process spawning) lives outside the library; everything that
//! decides — argument parsing, the command registry, gesture dispatch,
//! wiring and rendering plans — is verified here.

pub mod config;
pub mod handler;
pub mod indicator;
pub mod launcher;
pub mod registry;
pub mod session;
