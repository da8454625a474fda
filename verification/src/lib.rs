//! Keeps secret-bearing files encrypted at rest while they are edited in
//! plaintext: classification of files, the per-file encryption state machine
//! and the dispatcher that decides when the encryption tool has to run.

pub mod scan;
pub mod error;
pub mod classifier;
pub mod codec;
pub mod config;
pub mod tracker;
pub mod event;
pub mod dispatcher;
pub mod sops;
pub mod laws;
