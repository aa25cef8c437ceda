//! The output sink: a container writer that accepts samples in arrival
//! order and finalizes into a complete RIFF/WAVE byte stream.
//!
//! Samples are stored uniformly as `i32` values. For the integer
//! domains a value is the sample itself; for the 32-bit float domain a
//! value is the sample's IEEE bit pattern, which the container stores
//! byte-for-byte identically.

use vstd::prelude::*;
use vstd::string::StringExecFns;

use crate::error::MicError;
use crate::format::SinkSpec;
use crate::format::spec_header_wf;
use crate::format::spec_sample_fits;

verus! {

/// The most samples a sink accepts: beyond this the container's 32-bit
/// data-length field could no longer account for the payload.
pub const SAMPLE_CAPACITY: usize = 0x3000_0000;

/// The finished RIFF/WAVE byte stream that the underlying encoder
/// produces for a header and a sample sequence. The encoding is a
/// function of these two arguments alone.
pub uninterp spec fn wav_bytes_of(
    channels: u16,
    sample_rate: u32,
    bits_per_sample: u16,
    float_domain: bool,
    samples: Seq<i32>,
) -> Seq<u8>;

/// The byte length of the container's header: the compact PCM layout
/// up to two channels and 16 bits, the extensible layout beyond.
pub open spec fn spec_header_len(channels: u16, bits_per_sample: u16) -> nat {
    if channels > 2 || bits_per_sample > 16 {
        68
    } else {
        44
    }
}

/// Appending one sample to a log: accepted exactly when it is
/// representable at the header's bit depth and the log has room.
pub open spec fn spec_accept_one(header: SinkSpec, log: Seq<i32>, s: i32) -> Seq<i32> {
    if spec_sample_fits(s, header.bits_per_sample) && log.len() < SAMPLE_CAPACITY {
        log.push(s)
    } else {
        log
    }
}

/// Appending a whole buffer to a log, sample by sample in arrival
/// order.
pub open spec fn spec_accept(header: SinkSpec, log: Seq<i32>, buf: Seq<i32>) -> Seq<i32>
    decreases buf.len(),
{
    if buf.len() == 0 {
        log
    } else {
        spec_accept(header, spec_accept_one(header, log, buf[0]), buf.drop_first())
    }
}

/// Appending a buffer extended by one sample appends the buffer, then
/// that sample.
pub proof fn lemma_accept_snoc(header: SinkSpec, log: Seq<i32>, buf: Seq<i32>, s: i32)
    ensures
        spec_accept(header, log, buf.push(s)) == spec_accept_one(
            header,
            spec_accept(header, log, buf),
            s,
        ),
    decreases buf.len(),
{
    if buf.len() == 0 {
        reveal_with_fuel(spec_accept, 3);
        assert(buf.push(s)[0] == s);
        assert(buf.push(s).drop_first() =~= buf);
    } else {
        assert(buf.push(s)[0] == buf[0]);
        assert(buf.push(s).drop_first() =~= buf.drop_first().push(s));
        lemma_accept_snoc(header, spec_accept_one(header, log, buf[0]), buf.drop_first(), s);
    }
}

/// Acceptance never shrinks the log and adds at most the buffer.
pub proof fn lemma_accept_len(header: SinkSpec, log: Seq<i32>, buf: Seq<i32>)
    ensures
        log.len() <= spec_accept(header, log, buf).len() <= log.len() + buf.len(),
        log.len() <= SAMPLE_CAPACITY ==> spec_accept(header, log, buf).len() <= SAMPLE_CAPACITY,
    decreases buf.len(),
{
    if buf.len() > 0 {
        lemma_accept_len(header, spec_accept_one(header, log, buf[0]), buf.drop_first());
    }
}

/// The accepted log extends the old one: samples already stored are
/// never reordered or rewritten.
pub proof fn lemma_accept_prefix(header: SinkSpec, log: Seq<i32>, buf: Seq<i32>)
    ensures
        spec_accept(header, log, buf).subrange(0, log.len() as int) == log,
    decreases buf.len(),
{
    if buf.len() == 0 {
        assert(spec_accept(header, log, buf).subrange(0, log.len() as int) =~= log);
    } else {
        let log1 = spec_accept_one(header, log, buf[0]);
        let result = spec_accept(header, log1, buf.drop_first());
        lemma_accept_prefix(header, log1, buf.drop_first());
        lemma_accept_len(header, log1, buf.drop_first());
        assert forall|i: int| 0 <= i < log.len() implies result[i] == log[i] by {
            assert(result.subrange(0, log1.len() as int)[i] == result[i]);
        }
        assert(result.subrange(0, log.len() as int) =~= log);
    }
}

/// When every sample of the buffer is representable and the capacity
/// suffices, nothing is dropped: the new log is exactly the old log
/// followed by the whole buffer.
pub proof fn lemma_accept_all_fit(header: SinkSpec, log: Seq<i32>, buf: Seq<i32>)
    requires
        forall|i: int| 0 <= i < buf.len() ==> spec_sample_fits(buf[i], header.bits_per_sample),
        log.len() + buf.len() <= SAMPLE_CAPACITY,
    ensures
        spec_accept(header, log, buf) == log + buf,
    decreases buf.len(),
{
    if buf.len() == 0 {
        assert(spec_accept(header, log, buf) =~= log + buf);
    } else {
        lemma_accept_all_fit(header, log.push(buf[0]), buf.drop_first());
        assert(log.push(buf[0]) + buf.drop_first() =~= log + buf);
    }
}

/// Buffers delivered one after the other land in the log in arrival
/// order: when their samples are representable and the capacity
/// suffices, two deliveries extend the log by the first buffer, then
/// the second, with nothing interleaved, lost or reordered.
pub proof fn lemma_arrival_order_concat(header: SinkSpec, log: Seq<i32>, b1: Seq<i32>, b2: Seq<i32>)
    requires
        forall|i: int| 0 <= i < b1.len() ==> spec_sample_fits(b1[i], header.bits_per_sample),
        forall|i: int| 0 <= i < b2.len() ==> spec_sample_fits(b2[i], header.bits_per_sample),
        log.len() + b1.len() + b2.len() <= SAMPLE_CAPACITY,
    ensures
        spec_accept(header, spec_accept(header, log, b1), b2) == log + b1 + b2,
{
    lemma_accept_all_fit(header, log, b1);
    lemma_accept_all_fit(header, log + b1, b2);
}

/// A whole run of deliveries, buffer after buffer in arrival order.
pub open spec fn spec_accept_run(header: SinkSpec, log: Seq<i32>, bufs: Seq<Seq<i32>>) -> Seq<i32>
    decreases bufs.len(),
{
    if bufs.len() == 0 {
        log
    } else {
        spec_accept_run(header, spec_accept(header, log, bufs.first()), bufs.drop_first())
    }
}

/// A capture's payload is exactly the concatenation, in arrival order,
/// of all the buffers delivered during it: over a whole run whose
/// samples are representable and whose total stays within capacity,
/// the log ends up extended by the flattening of the run, with nothing
/// lost, added or reordered.
pub proof fn lemma_run_payload_is_concatenation(
    header: SinkSpec,
    log: Seq<i32>,
    bufs: Seq<Seq<i32>>,
)
    requires
        forall|i: int, j: int|
            0 <= i < bufs.len() && 0 <= j < bufs[i].len() ==> spec_sample_fits(
                #[trigger] bufs[i][j],
                header.bits_per_sample,
            ),
        log.len() + bufs.flatten().len() <= SAMPLE_CAPACITY,
    ensures
        spec_accept_run(header, log, bufs) == log + bufs.flatten(),
    decreases bufs.len(),
{
    if bufs.len() == 0 {
        assert(spec_accept_run(header, log, bufs) =~= log + bufs.flatten());
    } else {
        let first = bufs.first();
        let rest = bufs.drop_first();
        assert(bufs.flatten() == first + rest.flatten());
        assert forall|j: int| 0 <= j < first.len() implies spec_sample_fits(
            first[j],
            header.bits_per_sample,
        ) by {
            assert(bufs[0][j] == first[j]);
        }
        lemma_accept_all_fit(header, log, first);
        assert forall|i: int, j: int|
            0 <= i < rest.len() && 0 <= j < rest[i].len() implies spec_sample_fits(
            #[trigger] rest[i][j],
            header.bits_per_sample,
        ) by {
            assert(bufs[i + 1][j] == rest[i][j]);
        }
        lemma_run_payload_is_concatenation(header, log + first, rest);
        assert((log + first) + rest.flatten() =~= log + bufs.flatten());
    }
}

/// Encodes a finished container in memory.
///
/// Relies on `hound::WavWriter` over a `std::io::Cursor<Vec<u8>>`:
/// `new` writes the RIFF/WAVE header for the given spec and fails only
/// for unsupported bit depths; `write_sample` appends one `i32` sample
/// in order, and at 32 bits stores the given bit pattern for the
/// integer and float domains alike; `finalize` patches the two length
/// fields and fails exactly when the sample count is not a multiple of
/// the channel count. Writes into the in-memory buffer cannot fail, and
/// the precondition keeps out every sample the writer would reject,
/// every count that would overflow its 32-bit byte counter or divide by
/// zero, and every header whose byte-rate field (a plain `u32` product
/// of rate, bytes per sample and channels in the writer) would overflow
/// or whose block-align field (that product over the rate, cast to
/// `u16`) would truncate. The writer owns its buffer and cannot return it while samples
/// remain to be written, so the whole encoding stands behind this one
/// contract.
#[verifier::external_body]
fn encode_container(header: &SinkSpec, samples: &Vec<i32>) -> (r: Result<Vec<u8>, MicError>)
    requires
        spec_header_wf(*header),
        forall|i: int|
            0 <= i < samples@.len() ==> spec_sample_fits(samples@[i], header.bits_per_sample),
        samples@.len() <= SAMPLE_CAPACITY,
    ensures
        r is Ok <==> samples@.len() % (header.channels as nat) == 0,
        r matches Ok(bytes) ==> bytes@ == wav_bytes_of(
            header.channels,
            header.sample_rate,
            header.bits_per_sample,
            header.domain is IeeeFloat,
            samples@,
        ),
        r matches Ok(bytes) ==> bytes@.len() == spec_header_len(header.channels, header.bits_per_sample)
            + samples@.len() * ((header.bits_per_sample as nat) / 8),
        r matches Err(e) ==> e is Other,
{
    let float = matches!(header.domain, crate::format::SampleDomain::IeeeFloat);
    let sample_format = if float { hound::SampleFormat::Float } else { hound::SampleFormat::Int };
    let (channels, sample_rate) = (header.channels, header.sample_rate);
    let bits_per_sample = header.bits_per_sample;
    let hspec = hound::WavSpec { channels, sample_rate, bits_per_sample, sample_format };
    let mut cursor = std::io::Cursor::new(Vec::new());
    let mut writer = hound::WavWriter::new(&mut cursor, hspec)
        .map_err(|e| MicError::Other(format!("Failed to create WAV writer: {}", e)))?;
    for s in samples.iter() {
        let _ = writer.write_sample(*s);
    }
    writer.finalize()
        .map_err(|e| MicError::Other(format!("Failed to finalize WAV file: {}", e)))?;
    Ok(cursor.into_inner())
}

/// The container writer: the header it was created with, and every
/// sample accepted so far, in arrival order.
#[derive(Debug)]
pub struct Sink {
    header: SinkSpec,
    samples: Vec<i32>,
}

impl Sink {
    /// Well-formedness: the header is usable and every stored sample is
    /// representable at its bit depth. Every sink the constructors hand
    /// out satisfies it, and every method preserves it.
    pub closed spec fn wf(self) -> bool {
        &&& spec_header_wf(self.header)
        &&& self.samples@.len() <= SAMPLE_CAPACITY
        &&& forall|i: int|
            0 <= i < self.samples@.len() ==> spec_sample_fits(
                self.samples@[i],
                self.header.bits_per_sample,
            )
    }

    /// The header this sink was created with.
    pub closed spec fn header_view(self) -> SinkSpec {
        self.header
    }

    /// Every sample accepted so far, in arrival order.
    pub closed spec fn log(self) -> Seq<i32> {
        self.samples@
    }

    /// Creates an empty sink for a header. Fails when the header is
    /// unusable: no channels, no rate, a bit depth other than 8, 16 or
    /// 32, a float domain narrower than 32 bits, or a frame size or
    /// byte rate beyond the container's block-align and byte-rate
    /// header fields.
    pub fn create(header: SinkSpec) -> (r: Result<Sink, MicError>)
        ensures
            r is Ok <==> spec_header_wf(header),
            r matches Ok(s) ==> s.wf() && s.header_view() == header && s.log()
                == Seq::<i32>::empty(),
            r matches Err(e) ==> e is Other,
    {
        if crate::format::header_usable(&header) {
            Ok(Sink { header, samples: Vec::new() })
        } else {
            Err(MicError::Other(String::from_str("unusable container header")))
        }
    }

    /// The header, readable at run time.
    pub fn header(&self) -> (r: SinkSpec)
        ensures
            r == self.header_view(),
    {
        self.header
    }

    /// How many samples the sink holds.
    pub fn len(&self) -> (r: usize)
        ensures
            r == self.log().len(),
    {
        self.samples.len()
    }

    /// Appends a buffer of samples in arrival order. Each sample is
    /// accepted exactly when it is representable at the header's bit
    /// depth and the sink has room; a rejected sample is skipped and
    /// the rest of the buffer still lands. Returns how many samples
    /// were accepted.
    pub fn append_buffer(&mut self, buf: &Vec<i32>) -> (accepted: usize)
        requires
            old(self).wf(),
        ensures
            final(self).wf(),
            final(self).header_view() == old(self).header_view(),
            final(self).log() == spec_accept(old(self).header_view(), old(self).log(), buf@),
            accepted == final(self).log().len() - old(self).log().len(),
    {
        let ghost header = self.header;
        let ghost log0 = self.samples@;
        let before: usize = self.samples.len();
        let mut i: usize = 0;
        while i < buf.len()
            invariant
                i <= buf@.len(),
                self.header == header,
                before == log0.len(),
                self.samples@ == spec_accept(header, log0, buf@.subrange(0, i as int)),
                self.wf(),
            decreases buf@.len() - i,
        {
            let s: i32 = buf[i];
            proof {
                lemma_accept_snoc(header, log0, buf@.subrange(0, i as int), s);
                assert(buf@.subrange(0, i as int).push(s) =~= buf@.subrange(0, i + 1 as int));
                lemma_accept_len(header, log0, buf@.subrange(0, i as int));
            }
            let fits = if self.header.bits_per_sample == 8 {
                -128 <= s && s <= 127
            } else if self.header.bits_per_sample == 16 {
                -32768 <= s && s <= 32767
            } else {
                true
            };
            if fits && self.samples.len() < SAMPLE_CAPACITY {
                self.samples.push(s);
            }
            i = i + 1;
        }
        proof {
            assert(buf@.subrange(0, buf@.len() as int) =~= buf@);
            lemma_accept_len(header, log0, buf@);
        }
        self.samples.len() - before
    }

    /// Finalizes the sink into a complete container byte stream.
    /// Succeeds exactly when the accepted samples form whole frames,
    /// that is, their count is a multiple of the channel count; the
    /// bytes are then the container for this header and log, header
    /// first, and their length is fixed by the header and the count.
    pub fn finalize(self) -> (r: Result<Vec<u8>, MicError>)
        requires
            self.wf(),
        ensures
            r is Ok <==> self.log().len() % (self.header_view().channels as nat) == 0,
            r matches Ok(bytes) ==> bytes@ == wav_bytes_of(
                self.header_view().channels,
                self.header_view().sample_rate,
                self.header_view().bits_per_sample,
                self.header_view().domain is IeeeFloat,
                self.log(),
            ),
            r matches Ok(bytes) ==> bytes@.len() == spec_header_len(
                self.header_view().channels,
                self.header_view().bits_per_sample,
            ) + self.log().len() * ((self.header_view().bits_per_sample as nat) / 8),
            r matches Err(e) ==> e is Other,
    {
        encode_container(&self.header, &self.samples)
    }
}

} // verus!
