use picovoice::frames::{check_wav_format, slice_frames, FormatError};

#[test]
fn test_slice_drops_trailing_partial() {
    // 3 whole frames of length 3 plus a 2-sample remainder.
    let samples: Vec<i16> = vec![1, 2, 3, 4, 5, 6, 7, 8, 9, 10, 11];
    let frames = slice_frames(&samples, 3);
    assert_eq!(frames.len(), 3);
    assert_eq!(frames[0], vec![1, 2, 3]);
    assert_eq!(frames[1], vec![4, 5, 6]);
    assert_eq!(frames[2], vec![7, 8, 9]);
}

#[test]
fn test_slice_exact_multiple() {
    let samples: Vec<i16> = vec![-1, 0, 1, 2, 3, 4];
    let frames = slice_frames(&samples, 2);
    assert_eq!(frames, vec![vec![-1, 0], vec![1, 2], vec![3, 4]]);
}

#[test]
fn test_slice_shorter_than_one_frame() {
    let samples: Vec<i16> = vec![5, 6];
    let frames = slice_frames(&samples, 3);
    assert!(frames.is_empty());
}

#[test]
fn test_slice_empty_stream() {
    let samples: Vec<i16> = Vec::new();
    let frames = slice_frames(&samples, 512);
    assert!(frames.is_empty());
}

#[test]
fn test_slice_frame_length_one() {
    let samples: Vec<i16> = vec![9, 8, 7];
    let frames = slice_frames(&samples, 1);
    assert_eq!(frames, vec![vec![9], vec![8], vec![7]]);
}

#[test]
fn test_wav_format_accepted() {
    assert!(check_wav_format(16000, 16000, 1, 16, true).is_ok());
}

#[test]
fn test_wav_format_sample_rate_mismatch() {
    assert_eq!(
        check_wav_format(44100, 16000, 1, 16, true),
        Err(FormatError::SampleRateMismatch { expected: 16000, got: 44100 })
    );
}

#[test]
fn test_wav_format_channel_mismatch() {
    assert_eq!(
        check_wav_format(16000, 16000, 2, 16, true),
        Err(FormatError::ChannelCountMismatch { got: 2 })
    );
}

#[test]
fn test_wav_format_not_signed_16_bit() {
    assert_eq!(
        check_wav_format(16000, 16000, 1, 24, true),
        Err(FormatError::NotSigned16Bit)
    );
    assert_eq!(
        check_wav_format(16000, 16000, 1, 16, false),
        Err(FormatError::NotSigned16Bit)
    );
}

#[test]
fn test_wav_format_reports_rate_first() {
    // All three shape checks fail; the sample rate is reported first.
    assert_eq!(
        check_wav_format(8000, 16000, 2, 32, false),
        Err(FormatError::SampleRateMismatch { expected: 16000, got: 8000 })
    );
}
