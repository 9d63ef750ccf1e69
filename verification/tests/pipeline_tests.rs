use piper_server::errors::SynthesizeError;
use piper_server::synth::PiperSynth;
use piper_server::wav::{SampleChunk, WavEncoder};

#[test]
fn event_stream_encodes_like_the_encoder() {
    let synth = PiperSynth::init(0);
    let events = vec![
        Ok(SampleChunk { sample_rate: 22050, samples: vec![1, 2, 3] }),
        Ok(SampleChunk { sample_rate: 22050, samples: vec![4] }),
    ];
    let streamed = synth.synthesize_to_wav(&events).expect("all events carry chunks");

    let mut enc = WavEncoder::new();
    enc.feed(&SampleChunk { sample_rate: 22050, samples: vec![1, 2, 3] });
    enc.feed(&SampleChunk { sample_rate: 22050, samples: vec![4] });
    let direct = enc.finalize().expect("chunks were fed");

    assert_eq!(streamed, direct);
}

#[test]
fn first_error_aborts_and_discards_partial_bytes() {
    let synth = PiperSynth::init(0);
    let events = vec![
        Ok(SampleChunk { sample_rate: 22050, samples: vec![1, 2] }),
        Err(7),
        Ok(SampleChunk { sample_rate: 22050, samples: vec![3] }),
        Err(9),
    ];
    assert_eq!(synth.synthesize_to_wav(&events), Err(SynthesizeError::SynthError(7)));
}

#[test]
fn error_on_the_first_event_is_reported() {
    let synth = PiperSynth::init(0);
    let events = vec![Err(-2), Ok(SampleChunk { sample_rate: 22050, samples: vec![1] })];
    assert_eq!(synth.synthesize_to_wav(&events), Err(SynthesizeError::SynthError(-2)));
}

#[test]
fn empty_stream_fails_with_empty_audio() {
    let synth = PiperSynth::init(0);
    let events: Vec<Result<SampleChunk, i32>> = vec![];
    assert_eq!(synth.synthesize_to_wav(&events), Err(SynthesizeError::EmptyAudioError));
}
