//! An in-memory logging backend for test suites.
//!
//! Captured records are kept in a [`MockLogger`], an ordered buffer of
//! [`LogEntry`] values. The per-thread storage and the registration with the
//! `log` facade are run by the surrounding program; this crate holds the
//! buffer, its operations and the registration decision, with their proofs.
pub mod entry;
pub mod logger;
pub mod registration;

pub use entry::LogEntry;
pub use logger::MockLogger;
pub use registration::{init, Registration};
