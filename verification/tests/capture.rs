use memvro::capture::{
    microphone_stream_sample, pcm_encoding, pcm_frame_layout, MicrophoneFormat, PcmEncoding,
    StreamSample,
};

#[test]
fn supported_microphone_formats_open_a_stream() {
    assert_eq!(microphone_stream_sample(MicrophoneFormat::I8), Ok(StreamSample::I8));
    assert_eq!(microphone_stream_sample(MicrophoneFormat::I16), Ok(StreamSample::I16));
    assert_eq!(microphone_stream_sample(MicrophoneFormat::I32), Ok(StreamSample::I32));
    assert_eq!(microphone_stream_sample(MicrophoneFormat::F32), Ok(StreamSample::F32));
}

#[test]
fn other_microphone_formats_are_refused_by_name() {
    assert_eq!(
        microphone_stream_sample(MicrophoneFormat::U16),
        Err("Unsupported microphone sample format: U16".to_string())
    );
    assert_eq!(
        microphone_stream_sample(MicrophoneFormat::F64),
        Err("Unsupported microphone sample format: F64".to_string())
    );
    assert_eq!(
        microphone_stream_sample(MicrophoneFormat::I64),
        Err("Unsupported microphone sample format: I64".to_string())
    );
}

#[test]
fn pcm_bytes_are_read_by_layout() {
    assert_eq!(pcm_encoding(32, true, &[0, 0, 128, 63]), PcmEncoding::Float32);
    assert_eq!(pcm_encoding(32, false, &[1, 2, 3, 4]), PcmEncoding::Int32);
    assert_eq!(pcm_encoding(16, false, &[1, 2]), PcmEncoding::Int16);
    assert_eq!(pcm_encoding(32, true, &[1, 2, 3]), PcmEncoding::Silence);
    assert_eq!(pcm_encoding(16, true, &[1, 2]), PcmEncoding::Silence);
    assert_eq!(pcm_encoding(24, false, &[1, 2, 3]), PcmEncoding::Silence);
}

#[test]
fn frame_layout_follows_bits_and_channels() {
    assert_eq!(pcm_frame_layout(32, 2), Some((4, 8)));
    assert_eq!(pcm_frame_layout(16, 0), Some((2, 2)));
    assert_eq!(pcm_frame_layout(24, 6), Some((3, 18)));
    assert_eq!(pcm_frame_layout(7, 2), None);
}
