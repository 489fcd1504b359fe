//! Automatically mirror webcam activity onto Logitech Litra lights.
//!
//! The library is the verified core of the autotoggle daemon: the
//! configuration rules (filter validation, YAML configuration loading,
//! and config/CLI merging), the device matcher and the applier's
//! planning and reporting, the normalisation of raw platform signals
//! into camera edges, and the debounce coordinator that collapses bursts
//! of edges into a single delayed apply. The platform adapters — the
//! device subsystem, the file watch, the system-log stream — live
//! outside the library and exchange plain values with it.

pub mod applier;
pub mod config;
pub mod coordinator;
pub mod error;
pub mod matcher;
pub mod signal;
pub mod text;
pub mod yaml;
