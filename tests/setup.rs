use ffplay_lite::format::{negotiate, ConfigRange, SampleFormat, SetupError, StreamConfig};
use ffplay_lite::frame::{Layout, PcmFormat};
use ffplay_lite::pipeline::{select_stream, PipelineError};

fn range(format: SampleFormat) -> ConfigRange {
    ConfigRange { channels: 2, min_rate: 8000, max_rate: 48000, format }
}

#[test]
fn resampler_formats_of_supported_types() {
    assert_eq!(SampleFormat::I16.as_ffmpeg_sample(), Ok(PcmFormat::I16(Layout::Packed)));
    assert_eq!(SampleFormat::I32.as_ffmpeg_sample(), Ok(PcmFormat::I32(Layout::Packed)));
    assert_eq!(SampleFormat::I64.as_ffmpeg_sample(), Ok(PcmFormat::I64(Layout::Packed)));
    assert_eq!(SampleFormat::U8.as_ffmpeg_sample(), Ok(PcmFormat::U8(Layout::Packed)));
    assert_eq!(SampleFormat::F32.as_ffmpeg_sample(), Ok(PcmFormat::F32(Layout::Packed)));
    assert_eq!(SampleFormat::F64.as_ffmpeg_sample(), Ok(PcmFormat::F64(Layout::Packed)));
}

#[test]
fn types_without_resampler_equivalent_are_unsupported() {
    for f in [SampleFormat::I8, SampleFormat::U16, SampleFormat::U32, SampleFormat::U64] {
        assert_eq!(f.as_ffmpeg_sample(), Err(SetupError::UnsupportedFormat));
    }
}

#[test]
fn negotiation_takes_first_range_at_its_highest_rate() {
    let ranges = vec![range(SampleFormat::F32), ConfigRange { channels: 1, min_rate: 1, max_rate: 96000, format: SampleFormat::F32 }];
    assert_eq!(
        negotiate(&ranges),
        Ok(StreamConfig {
            channels: 2,
            rate: 48000,
            format: SampleFormat::F32,
            resample_format: PcmFormat::F32(Layout::Packed),
        })
    );
}

#[test]
fn negotiation_without_ranges_fails() {
    assert_eq!(negotiate(&vec![]), Err(SetupError::NoSupportedConfig));
}

#[test]
fn negotiation_of_narrow_unsigned_type_is_unsupported() {
    assert_eq!(negotiate(&vec![range(SampleFormat::U16), range(SampleFormat::F32)]), Err(SetupError::UnsupportedFormat));
    assert_eq!(negotiate(&vec![range(SampleFormat::I8)]), Err(SetupError::UnsupportedFormat));
}

#[test]
fn negotiation_of_type_the_player_does_not_write() {
    assert_eq!(negotiate(&vec![range(SampleFormat::I16)]), Err(SetupError::UnimplementedOutput));
}

#[test]
fn input_without_audio_stream_is_stream_not_found() {
    assert_eq!(select_stream(None), Err(PipelineError::StreamNotFound));
    assert_eq!(select_stream(Some(3)), Ok(3));
}
