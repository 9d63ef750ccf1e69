//! Per-request synthesis pipeline: turns the engine's incremental event
//! stream into a finished WAV container, or into the error that aborted
//! the request.
//!
//! The engine reports, per step, either one sample chunk or a status code;
//! the end of the stream is the engine's completion. The embedding program
//! drives the engine and hands the collected events here; every decision —
//! when to derive the header, what to do on a mid-stream error, what an
//! empty stream means — is made and verified in this module. Partial bytes
//! from a failed stream are discarded, never returned.

use vstd::prelude::*;

use crate::errors::SynthesizeError;
use crate::synth::PiperSynth;
use crate::wav::{SampleChunk, WavEncoder, chunk_samples, wav_bytes};

verus! {

impl PiperSynth {
    /// Encodes one synthesis run's event stream.
    ///
    /// Returns, exactly:
    /// - the WAV container of every sample, at the first chunk's rate, when
    ///   every event carries a chunk and there is at least one;
    /// - `SynthError` with the engine's code from the first error event,
    ///   discarding everything already encoded;
    /// - `EmptyAudioError` when the stream ended without any chunk.
    pub fn synthesize_to_wav(&self, events: &Vec<Result<SampleChunk, i32>>) -> (r: Result<
        Vec<u8>,
        SynthesizeError,
    >)
        ensures
            match r {
                Ok(bytes) => {
                    &&& events@.len() > 0
                    &&& forall|j: int| 0 <= j < events@.len() ==> events@[j] is Ok
                    &&& bytes@ == wav_bytes(
                        events@[0]->Ok_0.sample_rate,
                        chunk_samples(events@),
                    )
                },
                Err(e) => {
                    &&& events@.len() == 0 ==> e == SynthesizeError::EmptyAudioError
                    &&& events@.len() > 0 ==> exists|k: int|
                        #![trigger events@[k]]
                        {
                            &&& 0 <= k < events@.len()
                            &&& events@[k] is Err
                            &&& forall|j: int| 0 <= j < k ==> events@[j] is Ok
                            &&& e == SynthesizeError::SynthError(events@[k]->Err_0)
                        }
                },
            },
    {
        let mut enc = WavEncoder::new();
        let mut i: usize = 0;
        while i < events.len()
            invariant
                enc.inv(),
                i <= events.len(),
                forall|j: int| 0 <= j < i ==> events@[j] is Ok,
                if i == 0 {
                    enc.state() is Uninitialized
                } else {
                    enc.state() is HeaderWritten && enc.rate() == events@[0]->Ok_0.sample_rate
                },
                enc.samples() == chunk_samples(events@.subrange(0, i as int)),
            decreases events.len() - i,
        {
            match &events[i] {
                Ok(chunk) => {
                    enc.feed(chunk);
                    proof {
                        crate::wav::lemma_chunk_samples_push(
                            events@.subrange(0, i as int),
                            events@[i as int],
                        );
                        assert(events@.subrange(0, i as int + 1) =~= events@.subrange(
                            0,
                            i as int,
                        ).push(events@[i as int]));
                    }
                },
                Err(code) => {
                    return Err(SynthesizeError::SynthError(*code));
                },
            }
            i += 1;
        }
        proof {
            assert(events@.subrange(0, events@.len() as int) =~= events@);
        }
        enc.finalize()
    }
}

} // verus!
