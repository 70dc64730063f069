//! A minimal CI-style automation core: manifest loading and validation,
//! sequential pipeline execution with failure-recovery semantics, and a
//! webhook authentication and dispatch gate.
//!
//! The surrounding service (HTTP listener, file reading, YAML decoding,
//! process spawning) hands this library plain values and receives plain
//! values back; every rule the library states is verified.

pub mod config;
pub mod executor;
pub mod gitlab;
pub mod manifest;
pub mod secrets;
