use spectrogram::peaks::{peak_bucket, peak_chunk};

fn bucket_peaks(data: &[f32], num_peaks: usize) -> Vec<f32> {
    (0..num_peaks)
        .map(|p| {
            let (start, end) = peak_bucket(p, data.len(), num_peaks);
            data[start..end].iter().fold(0.0f32, |m, x| m.max(x.abs()))
        })
        .collect()
}

#[test]
fn test_compute_peaks_basic() {
    let data = vec![0.1f32, 0.5, -0.3, 0.8, -0.2];
    assert_eq!(bucket_peaks(&data, 2), vec![0.5, 0.8]);
}

#[test]
fn buckets_are_floor_to_ceiling() {
    assert_eq!(peak_bucket(0, 5, 2), (0, 3));
    assert_eq!(peak_bucket(1, 5, 2), (2, 5));
    assert_eq!(peak_bucket(0, 10, 5), (0, 2));
    assert_eq!(peak_bucket(4, 10, 5), (8, 10));
    assert_eq!(peak_bucket(2, 7, 3), (4, 7));
}

#[test]
fn more_peaks_than_samples() {
    assert_eq!(peak_bucket(0, 2, 4), (0, 1));
    assert_eq!(peak_bucket(1, 2, 4), (0, 1));
    assert_eq!(peak_bucket(2, 2, 4), (1, 2));
    assert_eq!(peak_bucket(3, 2, 4), (1, 2));
    assert_eq!(peak_bucket(3, 0, 4), (0, 0));
}

#[test]
fn large_lengths_do_not_overflow() {
    assert_eq!(peak_bucket(usize::MAX - 1, usize::MAX, usize::MAX), (usize::MAX - 1, usize::MAX));
    assert_eq!(peak_chunk(usize::MAX - 1, usize::MAX, usize::MAX), Some((usize::MAX - 1, usize::MAX)));
}

#[test]
fn chunks_have_ceiling_size() {
    assert_eq!(peak_chunk(0, 5, 2), Some((0, 3)));
    assert_eq!(peak_chunk(1, 5, 2), Some((3, 5)));
    assert_eq!(peak_chunk(0, 4, 3), Some((0, 2)));
    assert_eq!(peak_chunk(1, 4, 3), Some((2, 4)));
    assert_eq!(peak_chunk(2, 4, 3), None);
    assert_eq!(peak_chunk(0, 0, 3), None);
}
