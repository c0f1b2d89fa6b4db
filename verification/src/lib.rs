//! Verified core of a laptop hardware-control daemon.
//!
//! The library contains the layered logic of the daemon: register-map
//! selection for known laptop models, classification of raw embedded
//! controller (EC) bytes into typed operating modes, the buffered EC
//! snapshot, voltage-telemetry parsing and envelope tracking, persisted
//! settings encoding, keyboard-lighting payload construction, and the
//! request router that ties them together.
//!
//! All device, file, socket and subprocess I/O lives outside the library;
//! callers hand in the raw bytes they read and perform the write effects
//! the router returns.

pub mod config;
pub mod cpu_ctl;
pub mod daemon;
pub mod device_regs;
pub mod ec_writer;
pub mod keyboard;
pub mod protocol;
pub mod text;
