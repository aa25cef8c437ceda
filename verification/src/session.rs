//! The capture session: the state machine that carries a recording
//! from device negotiation through streaming delivery to the moment the
//! finished sink is taken out for finalization.
//!
//! The control flow owns the session's transitions; the delivery
//! context only ever calls `deliver`, which appends to the sink while
//! the session is streaming and the sink is still in its slot, and
//! silently does nothing otherwise. Taking the sink out for
//! finalization is possible only after the stream has stopped, and only
//! once; both facts are stated in the contracts below.

use vstd::prelude::*;
use vstd::string::StringExecFns;

use crate::error::MicError;
use crate::format::SampleKind;
use crate::format::SinkSpec;
use crate::format::StreamSettings;
use crate::format::classify;
use crate::format::format_name;
use crate::format::byte_rate_ok;
use crate::format::frame_size_ok;
use crate::format::header_for;
use crate::format::spec_bits_of;
use crate::format::spec_byte_rate;
use crate::format::spec_frame_bytes;
use crate::format::spec_domain_of;
use crate::format::spec_header_wf;
use crate::format::spec_sample_fits;
use crate::format::spec_supported_kind;
use crate::sink::Sink;
use crate::sink::spec_accept;

verus! {

/// What probing the host for a default input device found: no device at
/// all, a device that could not report a usable default configuration
/// (with the cause), or a negotiated configuration.
#[derive(Debug)]
pub enum DeviceProbe {
    Missing,
    Unconfigurable(String),
    Available(StreamSettings),
}

/// Where a live session stands. A session object exists only from
/// successful configuration on, and is given up for finalization when
/// the sink is taken, so the idle state before negotiation and the
/// finalized state after it have no variant here.
#[derive(Clone, Copy, PartialEq, Eq, Structural, Debug)]
pub enum SessionPhase {
    Configured,
    Streaming,
    Stopped,
}

/// Saturating addition on the rejected-sample counter.
pub open spec fn spec_sat_add(a: u64, b: u64) -> u64 {
    if a + b <= u64::MAX {
        (a + b) as u64
    } else {
        u64::MAX
    }
}

/// A bounded-duration capture session: the container header negotiated
/// for it, the phase of its state machine, the optional slot holding
/// the output sink, and a count of samples rejected during delivery.
#[derive(Debug)]
pub struct CaptureSession {
    phase: SessionPhase,
    header: SinkSpec,
    slot: Option<Sink>,
    rejected: u64,
}

impl CaptureSession {
    /// Well-formedness: the header is usable, a sink in the slot is
    /// well formed and carries this header, and the slot can only be
    /// empty once the session has stopped. Every session the
    /// constructor hands out satisfies it, and every method preserves
    /// it.
    pub closed spec fn wf(self) -> bool {
        &&& spec_header_wf(self.header)
        &&& (self.slot matches Some(s) ==> s.wf() && s.header_view() == self.header)
        &&& (self.slot is None ==> self.phase is Stopped)
    }

    /// The phase of the state machine.
    pub closed spec fn phase_view(self) -> SessionPhase {
        self.phase
    }

    /// The container header negotiated for this session.
    pub closed spec fn header_view(self) -> SinkSpec {
        self.header
    }

    /// Whether the sink is still in its slot.
    pub closed spec fn occupied(self) -> bool {
        self.slot is Some
    }

    /// The samples accepted so far, in arrival order; empty once the
    /// sink has been taken.
    pub closed spec fn log_view(self) -> Seq<i32> {
        match self.slot {
            Some(s) => s.log(),
            None => Seq::empty(),
        }
    }

    /// How many delivered samples were rejected so far.
    pub closed spec fn rejected_view(self) -> u64 {
        self.rejected
    }

    /// Configures a session from what device probing found.
    ///
    /// Fails with `DeviceNotFound` when there is no device, with a
    /// descriptive `Other` when the device reported no usable
    /// configuration, when the configuration has no channels, a zero
    /// sample rate, a frame size beyond the container's 16-bit
    /// block-align field or a byte rate beyond its 32-bit byte-rate
    /// field, and when the reported sample format is not one of the
    /// four supported ones — in every such case before any sink
    /// exists.
    /// Otherwise the session starts out configured, with an empty sink
    /// whose header copies the negotiated channel count and sample rate
    /// exactly and takes bit depth and domain from the sample format.
    pub fn configure(probe: DeviceProbe) -> (r: Result<CaptureSession, MicError>)
        ensures
            probe is Missing ==> r == Err::<CaptureSession, MicError>(MicError::DeviceNotFound),
            probe matches DeviceProbe::Unconfigurable(cause) ==> (r matches Err(e) && e matches
                MicError::Other(m) && m@ == "Failed to get input config: "@ + cause@),
            probe matches DeviceProbe::Available(st) ==> {
                &&& st.channels == 0 ==> (r matches Err(e) && e matches MicError::Other(m) && m@
                    == "Invalid input config: no channels"@)
                &&& st.channels > 0 && st.sample_rate == 0 ==> (r matches Err(e) && e matches
                    MicError::Other(m) && m@ == "Invalid input config: zero sample rate"@)
                &&& st.channels > 0 && st.sample_rate > 0 && spec_supported_kind(st.format)
                    is None ==> (r matches Err(e) && e matches MicError::Other(m) && m@
                    == "Unsupported format: "@ + crate::format::spec_format_name(st.format))
                &&& st.channels > 0 && st.sample_rate > 0 ==> (spec_supported_kind(st.format)
                    matches Some(k) ==> ({
                    let hdr = (SinkSpec {
                        channels: st.channels,
                        sample_rate: st.sample_rate,
                        bits_per_sample: spec_bits_of(k),
                        domain: spec_domain_of(k),
                    });
                    &&& spec_frame_bytes(hdr) >= 0x1_0000 ==> (r matches Err(e) && e matches
                        MicError::Other(m) && m@ == "Invalid input config: frame size too large"@)
                    &&& spec_frame_bytes(hdr) < 0x1_0000 && spec_byte_rate(hdr) >= 0x1_0000_0000
                        ==> (r matches Err(e) && e matches MicError::Other(m) && m@
                        == "Invalid input config: byte rate too large"@)
                    &&& spec_frame_bytes(hdr) < 0x1_0000 && spec_byte_rate(hdr) < 0x1_0000_0000
                        ==> (r matches Ok(sess) && {
                        &&& sess.wf()
                        &&& sess.phase_view() is Configured
                        &&& sess.occupied()
                        &&& sess.header_view() == hdr
                        &&& sess.log_view() == Seq::<i32>::empty()
                        &&& sess.rejected_view() == 0
                    })
                }))
            },
    {
        let settings = match probe {
            DeviceProbe::Missing => {
                return Err(MicError::DeviceNotFound);
            },
            DeviceProbe::Unconfigurable(cause) => {
                return Err(
                    MicError::Other(
                        String::from_str("Failed to get input config: ").concat(cause.as_str()),
                    ),
                );
            },
            DeviceProbe::Available(st) => st,
        };
        if settings.channels == 0 {
            return Err(MicError::Other(String::from_str("Invalid input config: no channels")));
        }
        if settings.sample_rate == 0 {
            return Err(
                MicError::Other(String::from_str("Invalid input config: zero sample rate")),
            );
        }
        let kind: SampleKind = match classify(settings.format) {
            Some(k) => k,
            None => {
                let name = format_name(settings.format);
                return Err(
                    MicError::Other(
                        String::from_str("Unsupported format: ").concat(name.as_str()),
                    ),
                );
            },
        };
        let header = header_for(&settings, kind);
        if !frame_size_ok(header.channels, header.bits_per_sample) {
            return Err(
                MicError::Other(String::from_str("Invalid input config: frame size too large")),
            );
        }
        if !byte_rate_ok(header.channels, header.sample_rate, header.bits_per_sample) {
            return Err(
                MicError::Other(String::from_str("Invalid input config: byte rate too large")),
            );
        }
        match Sink::create(header) {
            Ok(sink) => Ok(
                CaptureSession {
                    phase: SessionPhase::Configured,
                    header,
                    slot: Some(sink),
                    rejected: 0,
                },
            ),
            Err(e) => {
                proof {
                    assert(false);
                }
                Err(e)
            },
        }
    }

    /// Marks the start of active capture. Succeeds exactly once, on a
    /// session that is configured and not yet streaming; everything
    /// else about the session is untouched.
    pub fn begin_streaming(&mut self) -> (started: bool)
        requires
            old(self).wf(),
        ensures
            final(self).wf(),
            started <==> old(self).phase_view() is Configured,
            started ==> final(self).phase_view() is Streaming,
            started ==> final(self).header_view() == old(self).header_view()
                && final(self).occupied() == old(self).occupied()
                && final(self).log_view() == old(self).log_view()
                && final(self).rejected_view() == old(self).rejected_view(),
            !started ==> *final(self) == *old(self),
    {
        match self.phase {
            SessionPhase::Configured => {
                self.phase = SessionPhase::Streaming;
                true
            },
            _ => false,
        }
    }

    /// Hands a buffer of samples to the session, as the delivery
    /// context does once per hardware buffer.
    ///
    /// While the session is streaming and the sink is in its slot, the
    /// buffer's samples are appended in arrival order, each accepted
    /// exactly when it is representable at the header's bit depth and
    /// the sink has room; rejected samples are counted and skipped
    /// without disturbing the rest, and the session keeps going. In any
    /// other state — before the stream starts, after it stops, or after
    /// the sink has been taken for finalization — the call changes
    /// nothing and accepts nothing.
    pub fn deliver(&mut self, buf: &Vec<i32>) -> (accepted: usize)
        requires
            old(self).wf(),
        ensures
            final(self).wf(),
            final(self).phase_view() == old(self).phase_view(),
            final(self).header_view() == old(self).header_view(),
            final(self).occupied() == old(self).occupied(),
            old(self).phase_view() is Streaming && old(self).occupied() ==> {
                &&& final(self).log_view() == spec_accept(
                    old(self).header_view(),
                    old(self).log_view(),
                    buf@,
                )
                &&& accepted == final(self).log_view().len() - old(self).log_view().len()
                &&& final(self).rejected_view() == spec_sat_add(
                    old(self).rejected_view(),
                    (buf@.len() - accepted) as u64,
                )
            },
            !(old(self).phase_view() is Streaming && old(self).occupied())
                ==> *final(self) == *old(self) && accepted == 0,
    {
        if !matches!(self.phase, SessionPhase::Streaming) {
            return 0;
        }
        let ghost pre_header = self.header;
        let ghost pre_log = self.log_view();
        match &mut self.slot {
            Some(sink) => {
                let accepted = sink.append_buffer(buf);
                proof {
                    crate::sink::lemma_accept_len(pre_header, pre_log, buf@);
                }
                let dropped = (buf.len() - accepted) as u64;
                self.rejected = if self.rejected <= u64::MAX - dropped {
                    self.rejected + dropped
                } else {
                    u64::MAX
                };
                accepted
            },
            None => 0,
        }
    }

    /// Marks the end of active capture: the stream has been stopped (or
    /// at least ordered to stop) before anyone may take the sink.
    /// Succeeds exactly once, on a streaming session; everything else
    /// about the session is untouched.
    pub fn stop_streaming(&mut self) -> (stopped: bool)
        requires
            old(self).wf(),
        ensures
            final(self).wf(),
            stopped <==> old(self).phase_view() is Streaming,
            stopped ==> final(self).phase_view() is Stopped,
            stopped ==> final(self).header_view() == old(self).header_view()
                && final(self).occupied() == old(self).occupied()
                && final(self).log_view() == old(self).log_view()
                && final(self).rejected_view() == old(self).rejected_view(),
            !stopped ==> *final(self) == *old(self),
    {
        match self.phase {
            SessionPhase::Streaming => {
                self.phase = SessionPhase::Stopped;
                true
            },
            _ => false,
        }
    }

    /// Takes the sink out of its slot for finalization, leaving the
    /// slot empty so that any delivery still in flight observes an
    /// absent sink and does nothing. Yields the sink exactly when the
    /// session has stopped and the sink was not taken before: never
    /// while samples may still arrive, and never twice.
    pub fn take_sink(&mut self) -> (r: Option<Sink>)
        requires
            old(self).wf(),
        ensures
            final(self).wf(),
            final(self).phase_view() == old(self).phase_view(),
            final(self).header_view() == old(self).header_view(),
            final(self).rejected_view() == old(self).rejected_view(),
            old(self).phase_view() is Stopped && old(self).occupied() ==> (r matches Some(s)
                && {
                &&& s.wf()
                &&& s.header_view() == old(self).header_view()
                &&& s.log() == old(self).log_view()
                &&& !final(self).occupied()
            }),
            !(old(self).phase_view() is Stopped && old(self).occupied())
                ==> r is None && *final(self) == *old(self),
    {
        match self.phase {
            SessionPhase::Stopped => self.slot.take(),
            _ => None,
        }
    }

    /// The phase, readable at run time.
    pub fn phase(&self) -> (r: SessionPhase)
        ensures
            r == self.phase_view(),
    {
        self.phase
    }

    /// The negotiated container header, readable at run time.
    pub fn header(&self) -> (r: SinkSpec)
        ensures
            r == self.header_view(),
    {
        self.header
    }

    /// How many samples the session has accepted so far.
    pub fn captured(&self) -> (r: usize)
        requires
            self.wf(),
        ensures
            r == self.log_view().len(),
    {
        match &self.slot {
            Some(sink) => sink.len(),
            None => 0,
        }
    }

    /// How many delivered samples were rejected so far.
    pub fn rejected(&self) -> (r: u64)
        ensures
            r == self.rejected_view(),
    {
        self.rejected
    }
}

/// Whatever a delivery rejects, it rejects per sample: a log whose
/// samples are all representable stays that way, so a rejected sample
/// never corrupts what was already accepted.
pub proof fn lemma_accept_keeps_samples_representable(header: SinkSpec, log: Seq<i32>, buf: Seq<i32>)
    requires
        forall|i: int| 0 <= i < log.len() ==> spec_sample_fits(log[i], header.bits_per_sample),
    ensures
        forall|i: int|
            0 <= i < spec_accept(header, log, buf).len() ==> spec_sample_fits(
                spec_accept(header, log, buf)[i],
                header.bits_per_sample,
            ),
    decreases buf.len(),
{
    if buf.len() > 0 {
        let log1 = crate::sink::spec_accept_one(header, log, buf[0]);
        assert forall|i: int| 0 <= i < log1.len() implies spec_sample_fits(
            log1[i],
            header.bits_per_sample,
        ) by {
            if i < log.len() {
                assert(log1[i] == log[i]);
            }
        }
        lemma_accept_keeps_samples_representable(header, log1, buf.drop_first());
        assert(spec_accept(header, log, buf) == spec_accept(header, log1, buf.drop_first()));
    }
}

/// With a single channel every sample count forms whole frames, so
/// per-sample rejections can never leave a single-channel capture in a
/// state where finalization would fail.
pub proof fn lemma_single_channel_always_aligned(header: SinkSpec, log: Seq<i32>, buf: Seq<i32>)
    requires
        header.channels == 1,
    ensures
        spec_accept(header, log, buf).len() % (header.channels as nat) == 0,
{
}

} // verus!
