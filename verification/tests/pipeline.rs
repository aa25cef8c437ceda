//! End-to-end tests of the capture pipeline: sessions fed synthetic
//! buffers, finalized into container bytes, and read back through an
//! independent WAVE reader.

use std::io::Cursor;

use mic_capture::format::ReportedFormat;
use mic_capture::format::SampleDomain;
use mic_capture::format::StreamSettings;
use mic_capture::session::CaptureSession;
use mic_capture::session::DeviceProbe;
use mic_capture::session::SessionPhase;

fn settings(channels: u16, sample_rate: u32, format: ReportedFormat) -> StreamSettings {
    StreamSettings { channels, sample_rate, format }
}

fn configured(channels: u16, sample_rate: u32, format: ReportedFormat) -> CaptureSession {
    CaptureSession::configure(DeviceProbe::Available(settings(channels, sample_rate, format)))
        .expect("a supported configuration must configure")
}

fn run_capture(mut session: CaptureSession, buffers: &[Vec<i32>]) -> Vec<u8> {
    assert!(session.begin_streaming());
    for buf in buffers {
        session.deliver(buf);
    }
    assert!(session.stop_streaming());
    let sink = session.take_sink().expect("a stopped session must yield its sink");
    sink.finalize().expect("whole frames must finalize")
}

#[test]
fn records_two_buffers_in_order() {
    let session = configured(1, 8000, ReportedFormat::I16);
    let bytes = run_capture(session, &[vec![1, 2, 3], vec![4, 5]]);

    let mut reader = hound::WavReader::new(Cursor::new(bytes)).expect("container must open");
    assert_eq!(reader.spec().channels, 1);
    assert_eq!(reader.spec().sample_rate, 8000);
    assert_eq!(reader.spec().bits_per_sample, 16);
    assert_eq!(reader.spec().sample_format, hound::SampleFormat::Int);
    let samples: Vec<i32> = reader.samples::<i32>().map(|s| s.unwrap()).collect();
    assert_eq!(samples, vec![1, 2, 3, 4, 5]);
}

#[test]
fn zero_duration_yields_empty_valid_container() {
    let session = configured(2, 44100, ReportedFormat::I16);
    let bytes = run_capture(session, &[]);

    // A compact PCM header alone: 44 bytes, no sample data.
    assert_eq!(bytes.len(), 44);
    let mut reader = hound::WavReader::new(Cursor::new(bytes)).expect("container must open");
    assert_eq!(reader.len(), 0);
    assert_eq!(reader.spec().channels, 2);
    assert_eq!(reader.spec().sample_rate, 44100);
    assert_eq!(reader.spec().bits_per_sample, 16);
}

#[test]
fn header_matches_negotiated_configuration() {
    let cases: Vec<(ReportedFormat, u16, hound::SampleFormat)> = vec![
        (ReportedFormat::I8, 8, hound::SampleFormat::Int),
        (ReportedFormat::I16, 16, hound::SampleFormat::Int),
        (ReportedFormat::I32, 32, hound::SampleFormat::Int),
        (ReportedFormat::F32, 32, hound::SampleFormat::Float),
    ];
    let mut channels: u16 = 1;
    let mut rate: u32 = 11025;
    for (format, bits, encoding) in cases {
        let session = configured(channels, rate, format);

        let header = session.header();
        assert_eq!(header.channels, channels);
        assert_eq!(header.sample_rate, rate);
        assert_eq!(header.bits_per_sample, bits);
        let float = matches!(header.domain, SampleDomain::IeeeFloat);
        assert_eq!(float, encoding == hound::SampleFormat::Float);

        let bytes = run_capture(session, &[]);
        let reader = hound::WavReader::new(Cursor::new(bytes)).expect("container must open");
        assert_eq!(reader.spec().channels, channels);
        assert_eq!(reader.spec().sample_rate, rate);
        assert_eq!(reader.spec().bits_per_sample, bits);
        assert_eq!(reader.spec().sample_format, encoding);

        channels += 1;
        rate *= 2;
    }
}

#[test]
fn float_samples_round_trip_bit_exactly() {
    let values: Vec<f32> = vec![0.5, -0.25, 1.0, 0.0];
    let buffer: Vec<i32> = values.iter().map(|v| v.to_bits() as i32).collect();

    let session = configured(1, 48000, ReportedFormat::F32);
    let bytes = run_capture(session, &[buffer]);

    let mut reader = hound::WavReader::new(Cursor::new(bytes)).expect("container must open");
    assert_eq!(reader.spec().sample_format, hound::SampleFormat::Float);
    let read: Vec<f32> = reader.samples::<f32>().map(|s| s.unwrap()).collect();
    assert_eq!(read, values);
}

#[test]
fn oversized_samples_are_skipped_not_fatal() {
    let mut session = configured(1, 8000, ReportedFormat::I8);
    assert!(session.begin_streaming());
    let accepted = session.deliver(&vec![1, 300, -2]);
    assert_eq!(accepted, 2);
    assert_eq!(session.rejected(), 1);
    // The capture went on past the failing sample and still finalizes.
    assert!(session.stop_streaming());
    let sink = session.take_sink().expect("sink must still be present");
    let bytes = sink.finalize().expect("a single-channel capture always finalizes");

    let mut reader = hound::WavReader::new(Cursor::new(bytes)).expect("container must open");
    let samples: Vec<i32> = reader.samples::<i32>().map(|s| s.unwrap()).collect();
    assert_eq!(samples, vec![1, -2]);
}

#[test]
fn delivery_after_stop_or_take_is_ignored() {
    let mut session = configured(1, 16000, ReportedFormat::I16);

    // Before streaming begins, nothing is accepted.
    assert_eq!(session.deliver(&vec![9, 9]), 0);
    assert_eq!(session.captured(), 0);

    assert!(session.begin_streaming());
    assert_eq!(session.deliver(&vec![7]), 1);

    assert!(session.stop_streaming());
    // A buffer still in flight after stop is silently dropped.
    assert_eq!(session.deliver(&vec![8, 8]), 0);
    assert_eq!(session.captured(), 1);

    let sink = session.take_sink().expect("first take must yield the sink");
    // The slot is now empty: late deliveries no-op, a second take fails.
    assert_eq!(session.deliver(&vec![6]), 0);
    assert!(session.take_sink().is_none());

    let bytes = sink.finalize().expect("whole frames must finalize");
    let mut reader = hound::WavReader::new(Cursor::new(bytes)).expect("container must open");
    let samples: Vec<i32> = reader.samples::<i32>().map(|s| s.unwrap()).collect();
    assert_eq!(samples, vec![7]);
}

#[test]
fn container_length_is_consistent_with_header() {
    // Three channels and 32 bits force the extensible header layout.
    let session = configured(3, 96000, ReportedFormat::I32);
    let bytes = run_capture(session, &[vec![10, 20, 30, 40, 50, 60]]);
    assert_eq!(bytes.len(), 68 + 6 * 4);

    let mut reader = hound::WavReader::new(Cursor::new(bytes)).expect("container must open");
    assert_eq!(reader.len(), 6);
    let samples: Vec<i32> = reader.samples::<i32>().map(|s| s.unwrap()).collect();
    assert_eq!(samples, vec![10, 20, 30, 40, 50, 60]);
}

#[test]
fn partial_frames_fail_finalization() {
    let mut session = configured(2, 22050, ReportedFormat::I16);
    assert!(session.begin_streaming());
    assert_eq!(session.deliver(&vec![1, 2, 3]), 3);
    assert!(session.stop_streaming());
    let sink = session.take_sink().expect("sink must be present");
    let r = sink.finalize();
    assert!(matches!(r, Err(mic_capture::error::MicError::Other(_))));
}

#[test]
fn transitions_happen_exactly_once_and_in_order() {
    let mut session = configured(1, 8000, ReportedFormat::I16);
    assert_eq!(session.phase(), SessionPhase::Configured);

    // The sink cannot be taken while the stream may still deliver.
    assert!(session.take_sink().is_none());
    assert!(!session.stop_streaming());

    assert!(session.begin_streaming());
    assert_eq!(session.phase(), SessionPhase::Streaming);
    assert!(!session.begin_streaming());
    assert!(session.take_sink().is_none());

    assert!(session.stop_streaming());
    assert_eq!(session.phase(), SessionPhase::Stopped);
    assert!(!session.stop_streaming());
    assert!(session.take_sink().is_some());
    assert!(session.take_sink().is_none());
}
