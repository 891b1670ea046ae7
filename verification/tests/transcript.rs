use memvro::transcript::{
    check_model_file, check_recording_format, is_git_lfs_pointer, join_segments, mono_pcm16,
    needs_spanish_retry, resample_neighbors, resampled_len, transcript_file, TranscriptFile,
    WavFormat, MODEL_HEADER_BYTES, WHISPER_SAMPLE_RATE,
};

const POINTER: &[u8] = b"version https://git-lfs.github.com/spec/v1\noid sha256:abc\n";

#[test]
fn pointer_line_is_recognised() {
    assert!(is_git_lfs_pointer(POINTER));
    assert!(is_git_lfs_pointer(&POINTER[..42]));
    assert!(!is_git_lfs_pointer(&POINTER[..41]));
    assert!(!is_git_lfs_pointer(b"lmgg\x01\x00\x00\x00"));
    let mut changed = POINTER.to_vec();
    changed[41] = b'2';
    assert!(!is_git_lfs_pointer(&changed));
}

#[test]
fn header_of_read_size_is_never_a_pointer() {
    assert_eq!(MODEL_HEADER_BYTES, 40);
    assert!(!is_git_lfs_pointer(&POINTER[..MODEL_HEADER_BYTES]));
}

#[test]
fn model_file_checks_name_the_model() {
    assert_eq!(
        check_model_file("/m/ggml-base.bin", false, &[]),
        Err("Whisper model not found at /m/ggml-base.bin".to_string())
    );
    assert_eq!(
        check_model_file("/m/ggml-base.bin", true, POINTER),
        Err("Whisper model at /m/ggml-base.bin is not downloaded. Open Settings and download a model".to_string())
    );
    assert_eq!(check_model_file("/m/ggml-base.bin", true, b"lmgg"), Ok(()));
}

#[test]
fn only_mono_16_bit_integer_recordings_are_read() {
    assert_eq!(check_recording_format(mono_pcm16(48_000)), Ok(48_000));
    let message = Err("Recording must be a 16-bit mono WAV file".to_string());
    let stereo = WavFormat { channels: 2, ..mono_pcm16(44_100) };
    assert_eq!(check_recording_format(stereo), message);
    let float = WavFormat { integer_samples: false, bits_per_sample: 32, ..mono_pcm16(16_000) };
    assert_eq!(check_recording_format(float), message);
    let wide = WavFormat { bits_per_sample: 24, ..mono_pcm16(16_000) };
    assert_eq!(check_recording_format(wide), message);
}

#[test]
fn resampled_length_scales_with_the_rate() {
    assert_eq!(WHISPER_SAMPLE_RATE, 16_000);
    assert_eq!(resampled_len(48_000, 48_000, 16_000), 16_000);
    assert_eq!(resampled_len(10, 48_000, 16_000), 3);
    assert_eq!(resampled_len(10, 44_100, 16_000), 3);
    assert_eq!(resampled_len(3, 16_000, 48_000), 9);
    assert_eq!(resampled_len(7, 16_000, 16_000), 7);
    assert_eq!(resampled_len(0, 48_000, 16_000), 0);
}

#[test]
fn resample_neighbors_stay_inside_the_track() {
    assert_eq!(resample_neighbors(0, 10, 48_000, 16_000), (0, 1));
    assert_eq!(resample_neighbors(2, 10, 48_000, 16_000), (6, 7));
    assert_eq!(resample_neighbors(8, 3, 16_000, 48_000), (2, 2));
    assert_eq!(resample_neighbors(4, 3, 16_000, 48_000), (1, 2));
    let len = 1234;
    let out = resampled_len(len, 44_100, 16_000);
    for index in 0..out {
        let (lower, upper) = resample_neighbors(index, len, 44_100, 16_000);
        assert!(lower < len && upper < len && lower <= upper);
    }
}

#[test]
fn spanish_retry_only_when_nothing_was_recognised() {
    assert!(needs_spanish_retry(0, Some("es")));
    assert!(!needs_spanish_retry(1, Some("es")));
    assert!(!needs_spanish_retry(0, Some("en")));
    assert!(!needs_spanish_retry(0, None));
}

#[test]
fn segments_are_joined_one_per_line() {
    assert_eq!(join_segments(&vec![]), "");
    assert_eq!(join_segments(&vec![" Hello".to_string()]), " Hello");
    assert_eq!(
        join_segments(&vec![" Hola.".to_string(), " ¿Qué tal?".to_string(), "Bien".to_string()]),
        " Hola.\n ¿Qué tal?\nBien"
    );
}

#[test]
fn spoken_transcript_gets_a_final_line_break() {
    match transcript_file(" Hello there", "/s/mixed.wav", "/s/recording.txt") {
        TranscriptFile::Speech { contents } => assert_eq!(contents, " Hello there\n"),
        TranscriptFile::NoSpeech { .. } => panic!("speech expected"),
    }
}

#[test]
fn blank_transcript_leaves_a_diagnostic() {
    match transcript_file(" \n ", "/s/mixed.wav", "/s/recording.txt") {
        TranscriptFile::NoSpeech { diagnostic, error } => {
            assert_eq!(
                diagnostic,
                "[No speech detected]\n\nThe recording contains audio, but Whisper did not identify spoken words. The exact audio sent to Whisper was saved to /s/mixed.wav.\n"
            );
            assert_eq!(error, "No speech was detected. A diagnostic file was saved to /s/recording.txt.");
        }
        TranscriptFile::Speech { .. } => panic!("no speech expected"),
    }
    assert!(matches!(transcript_file("", "m", "t"), TranscriptFile::NoSpeech { .. }));
}
