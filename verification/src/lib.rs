//! Core of a runtime binary-patching agent.
//!
//! The library locates functions inside loaded modules by masked byte-signature
//! scanning, keeps the bookkeeping for a detour-installation subsystem
//! (trampoline-to-target mapping, queued enable/disable transitions), manages
//! the hook lifecycle of each target module, decides which loaded module a
//! hookable target should bind to, and derives feature flags from the installed
//! hook state.  All operating-system work (module enumeration, memory queries,
//! the low-level detour primitive) happens outside: callers hand the library
//! plain values (byte snapshots, filenames, primitive outcomes) and the library
//! answers with exact, verified state transitions.

pub mod detour;
pub mod engine;
pub mod features;
pub mod hookable;
pub mod kernel32;
pub mod logger;
pub mod module;
pub mod pattern;
pub mod server;
pub mod watcher;
