//! Scheduling core of a language server's compilation service.
//!
//! The crate decides *when* a compile runs, *which* snapshot it runs against and
//! *how* its result becomes visible. It performs no I/O and starts no thread: every
//! effect on the outside world is handed to the caller as an action value, and what
//! the outside world answered comes back as an event value.

pub mod config;
pub mod diagnostics;
pub mod request;
pub mod server;
pub mod service;
pub mod sessions;
pub mod shutdown;
pub mod signals;
pub mod worker;
