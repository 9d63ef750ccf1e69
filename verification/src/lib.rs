//! Core of a text-to-speech voice server: a bounded pool of idle synthesizer
//! handles with capacity- and age-based eviction, a streaming WAV container
//! encoder for the engine's incremental sample output, and the request-level
//! decision logic (model lookup, speaker resolution, option merging).
//!
//! The native synthesis engine, the HTTP surface, configuration and file
//! discovery live outside this crate; they exchange plain values with it.

pub mod cache;
pub mod errors;
pub mod models;
pub mod pipeline;
pub mod synth;
pub mod wav;
