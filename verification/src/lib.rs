//! Core engine of a cross-platform manager for external command-line tools:
//! a declarative per-platform tool registry, a TTL-bounded status/help cache,
//! a lifecycle manager that turns tool identifiers into subprocess command
//! lines, a multi-strategy version resolver with fallback chaining, and the
//! event model of a background refresh coordinator.
//!
//! The engine itself never spawns a process, touches a file or awaits a
//! timer: front ends perform those actions and hand the observed results
//! (exit status, captured output, the current time) back to the functions
//! here, which decide every next step.

pub mod adapters;
pub mod cache;
pub mod clock;
pub mod config;
pub mod coordinator;
pub mod error;
pub mod forms;
pub mod jsonio;
pub mod platform;
pub mod sdk;
pub mod settings;
pub mod strmap;
pub mod strutil;
pub mod terminal;
pub mod tool;
pub mod version;
