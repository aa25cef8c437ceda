//! Stream configurations and sample formats: what the host audio layer
//! reports, which of it the pipeline supports, and how the negotiated
//! configuration determines the output container's header.

use vstd::prelude::*;
use vstd::string::StringExecFns;

verus! {

/// A sample format as the host audio layer reports it for the default
/// input configuration. The pipeline supports only four of these;
/// `classify` decides which.
#[derive(Clone, Copy, PartialEq, Eq, Structural, Debug)]
pub enum ReportedFormat {
    I8,
    I16,
    I24,
    I32,
    I64,
    U8,
    U16,
    U24,
    U32,
    U64,
    F32,
    F64,
    DsdU8,
    DsdU16,
    DsdU32,
}

/// One of the four sample representations the pipeline can store:
/// signed integers of 8, 16 or 32 bits, or 32-bit IEEE float.
#[derive(Clone, Copy, PartialEq, Eq, Structural, Debug)]
pub enum SampleKind {
    Int8,
    Int16,
    Int32,
    Float32,
}

/// The numeric domain that the container header declares for its
/// samples: signed integer or IEEE float.
#[derive(Clone, Copy, PartialEq, Eq, Structural, Debug)]
pub enum SampleDomain {
    Integer,
    IeeeFloat,
}

/// The negotiated stream configuration of a capture device: channel
/// count, sample rate in hertz, and the reported sample format.
#[derive(Clone, Copy, PartialEq, Eq, Structural, Debug)]
pub struct StreamSettings {
    pub channels: u16,
    pub sample_rate: u32,
    pub format: ReportedFormat,
}

/// What the output container's header declares, derived once from the
/// negotiated configuration and immutable afterwards.
#[derive(Clone, Copy, PartialEq, Eq, Structural, Debug)]
pub struct SinkSpec {
    pub channels: u16,
    pub sample_rate: u32,
    pub bits_per_sample: u16,
    pub domain: SampleDomain,
}

/// The supported sample representation of a reported format, if any.
pub open spec fn spec_supported_kind(f: ReportedFormat) -> Option<SampleKind> {
    match f {
        ReportedFormat::I8 => Some(SampleKind::Int8),
        ReportedFormat::I16 => Some(SampleKind::Int16),
        ReportedFormat::I32 => Some(SampleKind::Int32),
        ReportedFormat::F32 => Some(SampleKind::Float32),
        _ => None,
    }
}

/// The bit depth that a sample representation occupies in the container.
pub open spec fn spec_bits_of(k: SampleKind) -> u16 {
    match k {
        SampleKind::Int8 => 8,
        SampleKind::Int16 => 16,
        SampleKind::Int32 => 32,
        SampleKind::Float32 => 32,
    }
}

/// The numeric domain of a sample representation.
pub open spec fn spec_domain_of(k: SampleKind) -> SampleDomain {
    match k {
        SampleKind::Float32 => SampleDomain::IeeeFloat,
        _ => SampleDomain::Integer,
    }
}

/// The name of a reported format, for diagnostics.
pub open spec fn spec_format_name(f: ReportedFormat) -> Seq<char> {
    match f {
        ReportedFormat::I8 => "I8"@,
        ReportedFormat::I16 => "I16"@,
        ReportedFormat::I24 => "I24"@,
        ReportedFormat::I32 => "I32"@,
        ReportedFormat::I64 => "I64"@,
        ReportedFormat::U8 => "U8"@,
        ReportedFormat::U16 => "U16"@,
        ReportedFormat::U24 => "U24"@,
        ReportedFormat::U32 => "U32"@,
        ReportedFormat::U64 => "U64"@,
        ReportedFormat::F32 => "F32"@,
        ReportedFormat::F64 => "F64"@,
        ReportedFormat::DsdU8 => "DsdU8"@,
        ReportedFormat::DsdU16 => "DsdU16"@,
        ReportedFormat::DsdU32 => "DsdU32"@,
    }
}

/// The size in bytes of one frame (one sample per channel): bytes per
/// sample times channel count. The container's block-align header
/// field holds it in 16 bits.
pub open spec fn spec_frame_bytes(h: SinkSpec) -> nat {
    ((h.bits_per_sample as nat) / 8) * (h.channels as nat)
}

/// The value of the container header's byte-rate field: payload bytes
/// per second, that is sample rate times bytes per sample times
/// channel count. The field holds it in 32 bits.
pub open spec fn spec_byte_rate(h: SinkSpec) -> nat {
    (h.sample_rate as nat) * ((h.bits_per_sample as nat) / 8) * (h.channels as nat)
}

/// A usable container header: at least one channel, a positive rate,
/// one of the three supported bit depths, the float domain only at
/// 32 bits, and a frame size and byte rate that fit the container's
/// 16-bit block-align and 32-bit byte-rate header fields — the format
/// itself cannot describe anything wider or faster.
pub open spec fn spec_header_wf(h: SinkSpec) -> bool {
    &&& h.channels > 0
    &&& h.sample_rate > 0
    &&& (h.bits_per_sample == 8 || h.bits_per_sample == 16 || h.bits_per_sample == 32)
    &&& (h.domain is IeeeFloat ==> h.bits_per_sample == 32)
    &&& spec_frame_bytes(h) < 0x1_0000
    &&& spec_byte_rate(h) < 0x1_0000_0000
}

/// Whether a stored sample value is representable at the given bit
/// depth. At 32 bits every value is; the float domain stores a sample's
/// 32-bit pattern, so the same holds there.
pub open spec fn spec_sample_fits(s: i32, bits_per_sample: u16) -> bool {
    if bits_per_sample == 8 {
        -128 <= s <= 127
    } else if bits_per_sample == 16 {
        -32768 <= s <= 32767
    } else {
        true
    }
}

/// Decides whether a reported format is one of the four the pipeline
/// supports, and which sample representation it maps to.
pub fn classify(f: ReportedFormat) -> (r: Option<SampleKind>)
    ensures
        r == spec_supported_kind(f),
{
    match f {
        ReportedFormat::I8 => Some(SampleKind::Int8),
        ReportedFormat::I16 => Some(SampleKind::Int16),
        ReportedFormat::I32 => Some(SampleKind::Int32),
        ReportedFormat::F32 => Some(SampleKind::Float32),
        _ => None,
    }
}

/// The bit depth of a sample representation, as stored in the header.
pub fn bits_of(k: SampleKind) -> (r: u16)
    ensures
        r == spec_bits_of(k),
{
    match k {
        SampleKind::Int8 => 8,
        SampleKind::Int16 => 16,
        SampleKind::Int32 => 32,
        SampleKind::Float32 => 32,
    }
}

/// The numeric domain of a sample representation.
pub fn domain_of(k: SampleKind) -> (r: SampleDomain)
    ensures
        r == spec_domain_of(k),
{
    match k {
        SampleKind::Float32 => SampleDomain::IeeeFloat,
        _ => SampleDomain::Integer,
    }
}

/// The name of a reported format, for diagnostics.
pub fn format_name(f: ReportedFormat) -> (r: String)
    ensures
        r@ == spec_format_name(f),
{
    match f {
        ReportedFormat::I8 => String::from_str("I8"),
        ReportedFormat::I16 => String::from_str("I16"),
        ReportedFormat::I24 => String::from_str("I24"),
        ReportedFormat::I32 => String::from_str("I32"),
        ReportedFormat::I64 => String::from_str("I64"),
        ReportedFormat::U8 => String::from_str("U8"),
        ReportedFormat::U16 => String::from_str("U16"),
        ReportedFormat::U24 => String::from_str("U24"),
        ReportedFormat::U32 => String::from_str("U32"),
        ReportedFormat::U64 => String::from_str("U64"),
        ReportedFormat::F32 => String::from_str("F32"),
        ReportedFormat::F64 => String::from_str("F64"),
        ReportedFormat::DsdU8 => String::from_str("DsdU8"),
        ReportedFormat::DsdU16 => String::from_str("DsdU16"),
        ReportedFormat::DsdU32 => String::from_str("DsdU32"),
    }
}

/// Decides at run time whether a frame fits the 16-bit block-align
/// field.
pub fn frame_size_ok(channels: u16, bits_per_sample: u16) -> (r: bool)
    ensures
        r == (((bits_per_sample as nat) / 8) * (channels as nat) < 0x1_0000),
{
    let bytes: u64 = (bits_per_sample / 8) as u64;
    proof {
        assert((bytes as int) * (channels as int) <= 0x2000_0000int) by (nonlinear_arith)
            requires
                bytes <= 0x2000,
                channels <= 0xFFFFu16,
        ;
    }
    bytes * (channels as u64) < 0x1_0000
}

/// Decides at run time whether a byte rate fits the 32-bit byte-rate
/// field.
pub fn byte_rate_ok(channels: u16, sample_rate: u32, bits_per_sample: u16) -> (r: bool)
    ensures
        r == ((sample_rate as nat) * ((bits_per_sample as nat) / 8) * (channels as nat)
            < 0x1_0000_0000),
{
    let bytes: u64 = (bits_per_sample / 8) as u64;
    proof {
        assert((sample_rate as int) * (bytes as int) <= 0x2000_0000_0000int) by (nonlinear_arith)
            requires
                bytes <= 0x2000,
                sample_rate <= 0xFFFF_FFFFu32,
        ;
        assert((sample_rate as int) * (bytes as int) * (channels as int)
            <= 0x2000_0000_0000_0000int) by (nonlinear_arith)
            requires
                bytes <= 0x2000,
                sample_rate <= 0xFFFF_FFFFu32,
                channels <= 0xFFFFu16,
        ;
    }
    (sample_rate as u64) * bytes * (channels as u64) < 0x1_0000_0000
}

/// Decides at run time whether a container header is usable, exactly
/// as `spec_header_wf` states it.
pub fn header_usable(h: &SinkSpec) -> (r: bool)
    ensures
        r == spec_header_wf(*h),
{
    h.channels > 0 && h.sample_rate > 0 && (h.bits_per_sample == 8 || h.bits_per_sample == 16
        || h.bits_per_sample == 32) && (!matches!(h.domain, SampleDomain::IeeeFloat)
        || h.bits_per_sample == 32) && frame_size_ok(h.channels, h.bits_per_sample)
        && byte_rate_ok(h.channels, h.sample_rate, h.bits_per_sample)
}

/// The container header for a supported sample representation: channel
/// count and rate are taken from the negotiated configuration exactly,
/// bit depth and domain from the representation.
pub fn header_for(settings: &StreamSettings, kind: SampleKind) -> (r: SinkSpec)
    ensures
        r.channels == settings.channels,
        r.sample_rate == settings.sample_rate,
        r.bits_per_sample == spec_bits_of(kind),
        r.domain == spec_domain_of(kind),
{
    SinkSpec {
        channels: settings.channels,
        sample_rate: settings.sample_rate,
        bits_per_sample: bits_of(kind),
        domain: domain_of(kind),
    }
}

} // verus!
