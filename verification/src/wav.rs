//! Incremental RIFF/WAVE container encoder for mono 32-bit IEEE-float PCM.
//!
//! The encoder is single-use, one instance per synthesis request, and moves
//! through three states: `Uninitialized` until the first chunk arrives,
//! `HeaderWritten` while sample data is appended, `Finalized` once the
//! container's size fields have been patched from the final byte count.
//!
//! The declared sample rate and format are fixed from the first chunk and
//! never re-validated against later chunks. Samples are carried as the
//! IEEE-754 bit patterns of the 32-bit float values, written little-endian,
//! so the byte-level contract needs no floating-point arithmetic.

use vstd::prelude::*;

use crate::errors::SynthesizeError;

verus! {

/// One incremental batch of mono PCM samples from the engine. Each sample
/// is the IEEE-754 bit pattern of one 32-bit float. The rate is
/// authoritative only on the first chunk of a stream.
#[derive(Debug, PartialEq, Eq)]
pub struct SampleChunk {
    pub sample_rate: u32,
    pub samples: Vec<u32>,
}

/// The two little-endian bytes of `x`.
pub open spec fn u16_le(x: u16) -> Seq<u8> {
    seq![(x % 0x100) as u8, ((x / 0x100) % 0x100) as u8]
}

/// The four little-endian bytes of `x`.
pub open spec fn u32_le(x: u32) -> Seq<u8> {
    seq![
        (x % 0x100) as u8,
        ((x / 0x100) % 0x100) as u8,
        ((x / 0x10000) % 0x100) as u8,
        ((x / 0x1000000) % 0x100) as u8,
    ]
}

/// The ASCII tag `RIFF`.
pub open spec fn riff_magic() -> Seq<u8> {
    seq![0x52u8, 0x49u8, 0x46u8, 0x46u8]
}

/// The ASCII tag `data`.
pub open spec fn data_magic() -> Seq<u8> {
    seq![0x64u8, 0x61u8, 0x74u8, 0x61u8]
}

/// Bytes 8 to 39 of the container: the ASCII tags `WAVE` and `fmt `, then
/// the 16-byte format record — format 3 (IEEE float), one channel, the
/// declared sample rate, the derived byte rate, block alignment 4 and 32
/// bits per sample. Independent of the amount of sample data.
pub open spec fn fmt_section(rate: u32) -> Seq<u8> {
    seq![0x57u8, 0x41u8, 0x56u8, 0x45u8]  // "WAVE"
    + seq![0x66u8, 0x6du8, 0x74u8, 0x20u8]  // "fmt "
    + u32_le(16)  // format record length
    + u16_le(3)  // IEEE float
    + u16_le(1)  // mono
    + u32_le(rate) + u32_le(((rate * 4) % 0x1_0000_0000) as u32)  // byte rate
    + u16_le(4)  // block align: one mono 32-bit frame
    + u16_le(32)  // bits per sample
}

/// The complete 44-byte container header for mono 32-bit IEEE-float PCM at
/// `rate`, declaring `data_len` bytes of sample data. The two size fields
/// are the low 32 bits of their true values; both fit whenever the data
/// declared stays under the format's 4 GiB bound.
#[verifier::opaque]
pub open spec fn wav_header(rate: u32, data_len: int) -> Seq<u8> {
    riff_magic() + u32_le(((36 + data_len) % 0x1_0000_0000) as u32) + fmt_section(rate)
        + data_magic() + u32_le((data_len % 0x1_0000_0000) as u32)
}

/// The raw sample data: each sample's four little-endian bytes, in order.
pub open spec fn sample_bytes(samples: Seq<u32>) -> Seq<u8>
    decreases samples.len(),
{
    if samples.len() == 0 {
        Seq::empty()
    } else {
        sample_bytes(samples.drop_last()) + u32_le(samples.last())
    }
}

/// The complete container: header declaring exactly the sample data that
/// follows it.
pub open spec fn wav_bytes(rate: u32, samples: Seq<u32>) -> Seq<u8> {
    wav_header(rate, 4 * samples.len() as int) + sample_bytes(samples)
}

/// Every sample carried by an event stream, in stream order. Meaningful
/// for streams whose events all carry a chunk.
pub open spec fn chunk_samples(events: Seq<Result<SampleChunk, i32>>) -> Seq<u32>
    decreases events.len(),
{
    if events.len() == 0 {
        Seq::empty()
    } else {
        chunk_samples(events.drop_last()) + events.last()->Ok_0.samples@
    }
}

/// Appending one chunk event appends exactly its samples.
pub proof fn lemma_chunk_samples_push(events: Seq<Result<SampleChunk, i32>>, e: Result<
    SampleChunk,
    i32,
>)
    ensures
        chunk_samples(events.push(e)) == chunk_samples(events) + e->Ok_0.samples@,
{
    assert(events.push(e).drop_last() =~= events);
    assert(events.push(e).last() == e);
}

/// The header is 44 bytes long whatever it declares.
pub proof fn lemma_wav_header_len(rate: u32, data_len: int)
    ensures
        wav_header(rate, data_len).len() == 44,
{
    reveal(wav_header);
}

/// Sample data is four bytes per sample.
pub proof fn lemma_sample_bytes_len(samples: Seq<u32>)
    ensures
        sample_bytes(samples).len() == 4 * samples.len(),
    decreases samples.len(),
{
    if samples.len() > 0 {
        lemma_sample_bytes_len(samples.drop_last());
    }
}

/// Appending one sample appends exactly its four bytes.
proof fn lemma_sample_bytes_push(samples: Seq<u32>, x: u32)
    ensures
        sample_bytes(samples.push(x)) == sample_bytes(samples) + u32_le(x),
{
    assert(samples.push(x).drop_last() =~= samples);
    assert(samples.push(x).last() == x);
}

/// Appends the four little-endian bytes of `x`.
fn push_u32_le(buf: &mut Vec<u8>, x: u32)
    ensures
        final(buf)@ == old(buf)@ + u32_le(x),
{
    buf.push((x % 0x100) as u8);
    buf.push(((x / 0x100) % 0x100) as u8);
    buf.push(((x / 0x10000) % 0x100) as u8);
    buf.push(((x / 0x1000000) % 0x100) as u8);
    proof {
        assert(buf@ =~= old(buf)@ + u32_le(x));
    }
}

/// Appends the two little-endian bytes of `x`.
fn push_u16_le(buf: &mut Vec<u8>, x: u16)
    ensures
        final(buf)@ == old(buf)@ + u16_le(x),
{
    buf.push((x % 0x100) as u8);
    buf.push(((x / 0x100) % 0x100) as u8);
    proof {
        assert(buf@ =~= old(buf)@ + u16_le(x));
    }
}

/// Encoder lifecycle: no chunk seen yet, header emitted and data flowing,
/// or size fields patched and the container handed out.
#[derive(Debug, PartialEq, Eq, Structural, Clone, Copy)]
pub enum EncoderState {
    Uninitialized,
    HeaderWritten,
    Finalized,
}

/// Incremental single-use WAV container encoder.
pub struct WavEncoder {
    state: EncoderState,
    rate: u32,
    buf: Vec<u8>,
    samples: Ghost<Seq<u32>>,
}

impl WavEncoder {
    /// Current lifecycle state.
    pub closed spec fn state(&self) -> EncoderState {
        self.state
    }

    /// The declared sample rate, fixed by the first chunk; meaningful only
    /// once the header is written.
    pub closed spec fn rate(&self) -> u32 {
        self.rate
    }

    /// Every sample fed so far, in order.
    pub closed spec fn samples(&self) -> Seq<u32> {
        self.samples@
    }

    /// Internal consistency: before the first chunk nothing is buffered;
    /// afterwards the buffer holds the header (sizes still zero) followed
    /// by every sample fed so far.
    pub closed spec fn inv(&self) -> bool {
        match self.state {
            EncoderState::Uninitialized => self.buf@ == Seq::<u8>::empty() && self.samples@
                == Seq::<u32>::empty(),
            EncoderState::HeaderWritten => self.buf@ == wav_header(self.rate, 0) + sample_bytes(
                self.samples@,
            ),
            EncoderState::Finalized => true,
        }
    }

    /// A fresh encoder that has seen no chunk.
    pub fn new() -> (e: WavEncoder)
        ensures
            e.inv(),
            e.state() is Uninitialized,
            e.samples() == Seq::<u32>::empty(),
    {
        WavEncoder {
            state: EncoderState::Uninitialized,
            rate: 0,
            buf: Vec::new(),
            samples: Ghost(Seq::empty()),
        }
    }

    /// Consumes one chunk. The first chunk fixes the declared sample rate
    /// and emits the header; every chunk's samples are appended as raw
    /// little-endian data. Later chunks' rates are deliberately ignored.
    #[verifier::rlimit(60)]
    pub fn feed(&mut self, chunk: &SampleChunk)
        requires
            old(self).inv(),
            !(old(self).state() is Finalized),
        ensures
            final(self).inv(),
            final(self).state() is HeaderWritten,
            final(self).rate() == if old(self).state() is Uninitialized {
                chunk.sample_rate
            } else {
                old(self).rate()
            },
            final(self).samples() == old(self).samples() + chunk.samples@,
    {
        if let EncoderState::Uninitialized = self.state {
            self.rate = chunk.sample_rate;
            self.write_header();
            self.state = EncoderState::HeaderWritten;
        }
        let ghost base = self.samples@;
        proof {
            assert(base + chunk.samples@.subrange(0, 0) =~= base);
            if old(self).state() is Uninitialized {
                assert(self.buf@ =~= wav_header(self.rate, 0) + sample_bytes(self.samples@));
            }
        }
        let mut i: usize = 0;
        while i < chunk.samples.len()
            invariant
                i <= chunk.samples.len(),
                self.state is HeaderWritten,
                self.rate == if old(self).state() is Uninitialized {
                    chunk.sample_rate
                } else {
                    old(self).rate
                },
                self.samples@ == base + chunk.samples@.subrange(0, i as int),
                self.buf@ == wav_header(self.rate, 0) + sample_bytes(self.samples@),
            decreases chunk.samples.len() - i,
        {
            let x = chunk.samples[i];
            push_u32_le(&mut self.buf, x);
            proof {
                lemma_sample_bytes_push(self.samples@, x);
                assert(base + chunk.samples@.subrange(0, i as int + 1) =~= (base
                    + chunk.samples@.subrange(0, i as int)).push(x));
            }
            self.samples = Ghost(self.samples@.push(x));
            i += 1;
        }
        proof {
            assert(chunk.samples@.subrange(0, chunk.samples@.len() as int) =~= chunk.samples@);
        }
    }

    /// Emits the 44-byte header for the current rate with both size fields
    /// zero; they are patched at finalization.
    fn write_header(&mut self)
        requires
            old(self).buf@ == Seq::<u8>::empty(),
        ensures
            final(self).buf@ == wav_header(old(self).rate, 0),
            final(self).state == old(self).state,
            final(self).rate == old(self).rate,
            final(self).samples == old(self).samples,
    {
        self.buf.push(0x52);
        self.buf.push(0x49);
        self.buf.push(0x46);
        self.buf.push(0x46);
        push_u32_le(&mut self.buf, 36);
        self.buf.push(0x57);
        self.buf.push(0x41);
        self.buf.push(0x56);
        self.buf.push(0x45);
        self.buf.push(0x66);
        self.buf.push(0x6d);
        self.buf.push(0x74);
        self.buf.push(0x20);
        push_u32_le(&mut self.buf, 16);
        push_u16_le(&mut self.buf, 3);
        push_u16_le(&mut self.buf, 1);
        push_u32_le(&mut self.buf, self.rate);
        let byte_rate: u32 = ((self.rate as u64 * 4) % 0x1_0000_0000) as u32;
        push_u32_le(&mut self.buf, byte_rate);
        push_u16_le(&mut self.buf, 4);
        push_u16_le(&mut self.buf, 32);
        self.buf.push(0x64);
        self.buf.push(0x61);
        self.buf.push(0x74);
        self.buf.push(0x61);
        push_u32_le(&mut self.buf, 0);
        proof {
            reveal(wav_header);
            assert(self.buf@ =~= wav_header(old(self).rate, 0));
        }
    }

    /// Patches the container's two size fields from the final byte count
    /// and hands the finished container out. Fails with `EmptyAudioError`
    /// when no chunk was ever fed, since no header was ever derived.
    #[verifier::rlimit(100)]
    pub fn finalize(&mut self) -> (r: Result<Vec<u8>, SynthesizeError>)
        requires
            old(self).inv(),
            !(old(self).state() is Finalized),
        ensures
            final(self).inv(),
            match r {
                Ok(bytes) => {
                    &&& old(self).state() is HeaderWritten
                    &&& final(self).state() is Finalized
                    &&& bytes@ == wav_bytes(old(self).rate(), old(self).samples())
                },
                Err(e) => {
                    &&& e == SynthesizeError::EmptyAudioError
                    &&& old(self).state() is Uninitialized
                    &&& *final(self) == *old(self)
                },
            },
    {
        if let EncoderState::Uninitialized = self.state {
            return Err(SynthesizeError::EmptyAudioError);
        }
        proof {
            lemma_sample_bytes_len(self.samples@);
            lemma_wav_header_len(self.rate, 0);
        }
        let mut out: Vec<u8> = Vec::new();
        core::mem::swap(&mut out, &mut self.buf);
        self.state = EncoderState::Finalized;
        let data_len: u64 = out.len() as u64 - 44;
        let riff_size: u32 = ((36 + data_len) % 0x1_0000_0000) as u32;
        let data_size: u32 = (data_len % 0x1_0000_0000) as u32;
        out[4] = (riff_size % 0x100) as u8;
        out[5] = ((riff_size / 0x100) % 0x100) as u8;
        out[6] = ((riff_size / 0x10000) % 0x100) as u8;
        out[7] = ((riff_size / 0x1000000) % 0x100) as u8;
        out[40] = (data_size % 0x100) as u8;
        out[41] = ((data_size / 0x100) % 0x100) as u8;
        out[42] = ((data_size / 0x10000) % 0x100) as u8;
        out[43] = ((data_size / 0x1000000) % 0x100) as u8;
        proof {
            reveal(wav_header);
            assert(out@ =~= wav_bytes(old(self).rate(), old(self).samples()));
        }
        Ok(out)
    }
}

} // verus!
