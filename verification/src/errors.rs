//! Error taxonomy of the server core.
//!
//! Startup errors (`ConfigError`, `ModelError`, `StateError`) abort or skip at
//! process start; `SynthesizeError` is fatal for a single request only.

use vstd::prelude::*;

verus! {

/// Reading or parsing the process configuration failed.
#[derive(Debug, PartialEq, Eq)]
pub enum ConfigError {
    /// A required configuration variable is absent; holds the variable name.
    MissingVar(String),
    /// A variable is present but does not parse; holds the variable name.
    BadVar(String),
    /// A secret value is present but does not parse; holds the raw value.
    BadSecret(String),
    /// Reading a secret file failed; holds the underlying error text.
    SecretIO(String),
}

/// One voice model's files could not be read; the model is skipped.
#[derive(Debug, PartialEq, Eq)]
pub enum ModelError {
    /// Reading a model or config file failed; holds the error text.
    IoError(String),
    /// A model's config did not parse; holds the error text.
    JsonError(String),
    /// A model file's path is not valid unicode; holds a lossy rendering.
    BadPath(String),
}

/// Startup validation failed; fatal for the whole process.
#[derive(Debug, PartialEq, Eq)]
pub enum StateError {
    ConfigError(ConfigError),
    ModelError(ModelError),
    /// The default model has speakers but no default speaker is configured.
    MissingDefaultSpeaker,
    /// The configured default speaker is not one of the default model's.
    BadDefaultSpeaker(String),
    /// The configured default model is not in the registry.
    BadDefaultModel(String),
}

/// Stable error code for an internal failure.
pub const INTERNAL_ERROR_CODE: i32 = -1;

/// Stable error code for a request naming an unknown model.
pub const BAD_MODEL: i32 = 1;

/// The structured body every failed request is answered with: the HTTP
/// status, a stable error code and a human-readable message. Serialization
/// and transport happen outside this crate.
#[derive(Debug, PartialEq, Eq)]
pub struct ErrorBody {
    pub status: u16,
    pub error_code: i32,
    pub message: String,
}

impl ErrorBody {
    /// Builds the body verbatim from its parts.
    pub fn new(status: u16, error_code: i32, message: String) -> (r: ErrorBody)
        ensures
            r.status == status,
            r.error_code == error_code,
            r.message == message,
    {
        ErrorBody { status, error_code, message }
    }

    /// Whether this failure is the server's fault — logged as an error —
    /// rather than the client's, logged as a warning.
    pub fn is_server_error(&self) -> (b: bool)
        ensures
            b == (500 <= self.status < 600),
    {
        500 <= self.status && self.status < 600
    }
}

/// The native engine rejected a model's files or configuration while an
/// instance was being constructed. Fatal only for the request that needed
/// the instance; surfaced as a server error.
#[derive(Debug, PartialEq, Eq)]
pub struct EngineInitError(pub String);

/// One synthesis request failed; the pool and the process are unaffected.
#[derive(Debug, PartialEq, Eq)]
pub enum SynthesizeError {
    /// The engine reported an unexpected status code mid-stream.
    SynthError(i32),
    /// The stream ended before any sample chunk was produced, so no
    /// container header was ever derived.
    EmptyAudioError,
}

} // verus!
