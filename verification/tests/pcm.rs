use audio_rms::pcm::{analyze_buffer, decode_s16le, sum_of_squares, DecodeError};

#[test]
fn decode_reads_little_endian_samples() {
    let bytes = [0x01u8, 0x00, 0xFF, 0xFF, 0x00, 0x80, 0xFF, 0x7F];
    let samples = decode_s16le(&bytes).unwrap();
    assert_eq!(samples, vec![1, -1, -32768, 32767]);
}

#[test]
fn decode_of_empty_buffer_is_empty() {
    assert_eq!(decode_s16le(&[]).unwrap(), Vec::<i16>::new());
}

#[test]
fn decode_rejects_odd_length() {
    assert_eq!(decode_s16le(&[0x07]), Err(DecodeError::OddLength));
    assert_eq!(decode_s16le(&[1, 2, 3]), Err(DecodeError::OddLength));
}

#[test]
fn sum_of_squares_of_nothing_is_zero() {
    assert_eq!(sum_of_squares(&[]), 0);
}

#[test]
fn sum_of_squares_exact_values() {
    assert_eq!(sum_of_squares(&[3, -4]), 25);
    assert_eq!(sum_of_squares(&[-32768]), 1073741824);
    assert_eq!(
        sum_of_squares(&[32767, -32768, 1]),
        32767u128 * 32767 + 32768 * 32768 + 1
    );
}

#[test]
fn analyze_buffer_returns_sum_and_count() {
    // 3 and -4, low byte first
    let bytes = [0x03u8, 0x00, 0xFC, 0xFF];
    assert_eq!(analyze_buffer(&bytes).unwrap(), (25, 2));
}

#[test]
fn analyze_buffer_of_empty_buffer() {
    assert_eq!(analyze_buffer(&[]).unwrap(), (0, 0));
}

#[test]
fn analyze_buffer_rejects_incomplete_sample() {
    assert_eq!(analyze_buffer(&[1, 2, 3]), Err(DecodeError::OddLength));
}

#[test]
fn rms_from_analysis_matches_per_sample_formula() {
    // The loudness a caller derives from the analysis must agree with
    // summing (s / i16::MAX)^2 sample by sample and averaging.
    let samples: Vec<i16> = vec![1000, -2000, 3000, -4000, 12345];
    let mut bytes = Vec::new();
    for s in &samples {
        bytes.extend_from_slice(&s.to_le_bytes());
    }
    let (sum, count) = analyze_buffer(&bytes).unwrap();
    let max = f64::from(i16::MAX);
    let rms = ((sum as f64) / (max * max) / (count as f64)).sqrt();

    let mean: f64 = samples
        .iter()
        .map(|s| {
            let f = f64::from(*s) / max;
            f * f
        })
        .sum::<f64>()
        / (samples.len() as f64);
    let reference = mean.sqrt();
    assert!((rms - reference).abs() < 1e-12);
}
