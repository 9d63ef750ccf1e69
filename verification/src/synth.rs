//! The synthesizer handle and the engine option records.
//!
//! A `PiperSynth` stands for one loaded instance of the native synthesis
//! engine. The instance itself lives outside this crate; here a handle is a
//! token carrying the instance's identity, owned by exactly one place at a
//! time — the voice cache or the request currently using it — and moved,
//! never copied, between them.
//!
//! Engine settings are carried as IEEE-754 bit patterns (`u32`), so the
//! merging logic is verified without floating-point arithmetic; the caller
//! converts at the boundary.

use vstd::prelude::*;

verus! {

/// Identity token for one loaded engine instance.
///
/// Deliberately neither `Clone` nor `Copy`: ownership of the underlying
/// native resource transfers by move, exactly once per direction.
#[derive(Debug)]
pub struct PiperSynth {
    /// Identity of the native instance this handle stands for.
    pub id: u64,
}

impl PiperSynth {
    /// Wraps a freshly constructed engine instance's identity in a handle.
    pub fn init(id: u64) -> (s: PiperSynth)
        ensures
            s.id == id,
    {
        PiperSynth { id }
    }
}

/// Per-request overrides for a synthesis call. Scale fields are IEEE-754
/// bit patterns; an absent field falls through to the engine's default.
#[derive(Debug, Clone, Copy, PartialEq, Eq)]
pub struct PiperOptions {
    pub length_scale: Option<u32>,
    pub noise_scale: Option<u32>,
    pub noise_w_scale: Option<u32>,
    pub speaker_id: Option<i32>,
}

/// A complete engine setting record, every field present, as the engine
/// itself reports and consumes it. Scale fields are IEEE-754 bit patterns.
#[derive(Debug, Clone, Copy, PartialEq, Eq)]
pub struct EngineOptions {
    pub length_scale: u32,
    pub noise_scale: u32,
    pub noise_w_scale: u32,
    pub speaker_id: i32,
}

/// The value an optional override resolves to against a default.
pub open spec fn overridden<T>(over: Option<T>, default: T) -> T {
    match over {
        Option::Some(v) => v,
        Option::None => default,
    }
}

impl PiperOptions {
    /// Resolves these overrides against the engine's defaults: every present
    /// field replaces the default, every absent one falls through.
    pub fn merge_into(&self, defaults: &EngineOptions) -> (r: EngineOptions)
        ensures
            r.length_scale == overridden(self.length_scale, defaults.length_scale),
            r.noise_scale == overridden(self.noise_scale, defaults.noise_scale),
            r.noise_w_scale == overridden(self.noise_w_scale, defaults.noise_w_scale),
            r.speaker_id == overridden(self.speaker_id, defaults.speaker_id),
    {
        EngineOptions {
            length_scale: match self.length_scale {
                Some(v) => v,
                None => defaults.length_scale,
            },
            noise_scale: match self.noise_scale {
                Some(v) => v,
                None => defaults.noise_scale,
            },
            noise_w_scale: match self.noise_w_scale {
                Some(v) => v,
                None => defaults.noise_w_scale,
            },
            speaker_id: match self.speaker_id {
                Some(v) => v,
                None => defaults.speaker_id,
            },
        }
    }
}

} // verus!
