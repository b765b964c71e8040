use spectrogram::error::SpectrogramError;
use spectrogram::frames::{frame_count, frame_starts, hop_size};

#[test]
fn hop_is_frame_length_minus_overlap() {
    assert_eq!(hop_size(4, 2), Ok(2));
    assert_eq!(hop_size(8, 0), Ok(8));
    assert_eq!(hop_size(8, 7), Ok(1));
}

#[test]
fn frame_count_formula() {
    assert_eq!(frame_count(6, 4, 2), Ok(2));
    assert_eq!(frame_starts(6, 4, 2), Ok(vec![0, 2]));
}

#[test]
fn frame_count_exact_and_remainder() {
    assert_eq!(frame_count(16, 8, 0), Ok(2));
    assert_eq!(frame_count(17, 8, 0), Ok(2));
    assert_eq!(frame_count(8, 8, 0), Ok(1));
    assert_eq!(frame_count(10, 4, 1), Ok(3));
    assert_eq!(frame_starts(10, 4, 1), Ok(vec![0, 3, 6]));
}

#[test]
fn short_input_has_no_frames() {
    assert_eq!(frame_count(3, 4, 2), Ok(0));
    assert_eq!(frame_count(0, 4, 0), Ok(0));
    assert_eq!(frame_starts(3, 4, 2), Ok(vec![]));
}

#[test]
fn overlap_not_below_frame_length_is_rejected() {
    assert_eq!(hop_size(4, 4), Err(SpectrogramError::InvalidOverlap));
    assert_eq!(frame_count(100, 4, 4), Err(SpectrogramError::InvalidOverlap));
    assert_eq!(frame_count(100, 4, 9), Err(SpectrogramError::InvalidOverlap));
    assert_eq!(frame_starts(100, 4, 5), Err(SpectrogramError::InvalidOverlap));
}

#[test]
fn frames_stay_inside_input() {
    let starts = frame_starts(1000, 64, 16).unwrap();
    assert_eq!(starts.len(), (1000 - 64) / 48 + 1);
    for (f, s) in starts.iter().enumerate() {
        assert_eq!(*s, f * 48);
        assert!(*s + 64 <= 1000);
    }
}
