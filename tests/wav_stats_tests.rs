use wav_stats::{
    aggregate, calculate_duration, decimal_string, duration_from_header, entry_failure,
    file_result, format_duration, format_seconds, is_wav_extension, stats_report,
    warnings_report, Duration, ExtractionError, ScanResult, Summary,
};

/// A canonical PCM WAVE file: a RIFF header, a `fmt ` chunk and a data chunk
/// holding `frames` frames of silence.
fn wav_bytes(channels: u16, sample_rate: u32, bits: u16, frames: u32) -> Vec<u8> {
    let block_align = channels * (bits / 8);
    let data_len = frames * block_align as u32;
    let mut b = Vec::new();
    b.extend_from_slice(b"RIFF");
    b.extend_from_slice(&(36 + data_len).to_le_bytes());
    b.extend_from_slice(b"WAVE");
    b.extend_from_slice(b"fmt ");
    b.extend_from_slice(&16u32.to_le_bytes());
    b.extend_from_slice(&1u16.to_le_bytes());
    b.extend_from_slice(&channels.to_le_bytes());
    b.extend_from_slice(&sample_rate.to_le_bytes());
    b.extend_from_slice(&(sample_rate * block_align as u32).to_le_bytes());
    b.extend_from_slice(&block_align.to_le_bytes());
    b.extend_from_slice(&bits.to_le_bytes());
    b.extend_from_slice(b"data");
    b.extend_from_slice(&data_len.to_le_bytes());
    b.extend(std::iter::repeat(0u8).take(data_len as usize));
    b
}

fn successes(nanos: &[u64]) -> Vec<ScanResult> {
    nanos.iter().map(|n| ScanResult::Success(Duration::from_nanos(*n))).collect()
}

#[test]
fn test_calculate_duration_valid_wav() {
    // 44-byte header followed by one second of 16-bit mono samples at 44100 Hz.
    let bytes = wav_bytes(1, 44100, 16, 44100);
    assert_eq!(bytes.len(), 44 + 88200);
    let duration = calculate_duration(&bytes).unwrap();
    assert_eq!(duration.nanos, 1_000_000_000);
}

#[test]
fn test_calculate_duration_empty_wav() {
    let result = calculate_duration(&[]);
    assert!(result.is_err());
    assert_eq!(result.unwrap_err().message(), "Failed to read enough bytes.");
}

#[test]
fn test_calculate_duration_non_wav() {
    // The contents of an empty text file.
    let result = calculate_duration(&[]);
    assert!(result.is_err());
}

#[test]
fn text_bytes_are_not_wav() {
    let text = b"just some text, not audio";
    let result = calculate_duration(text);
    assert!(matches!(result, Err(ExtractionError::UnreadableHeader(_))));
}

#[test]
fn audio_shorter_than_a_nanosecond_is_not_zero() {
    assert_eq!(duration_from_header(1, u32::MAX), Ok(Duration::from_nanos(1)));
    assert_eq!(duration_from_header(1, 1_000_000_001), Ok(Duration::from_nanos(1)));
    assert_eq!(duration_from_header(1, 1_000_000_000), Ok(Duration::from_nanos(1)));
    assert_eq!(duration_from_header(3, 2_000_000_000), Ok(Duration::from_nanos(1)));
    let bytes = wav_bytes(1, 2_000_000_000, 8, 1);
    let d = calculate_duration(&bytes).unwrap();
    assert_eq!(d, Duration::from_nanos(1));
}

#[test]
fn test_print_stats_no_files() {
    let summary = aggregate(&Vec::new());
    assert!(summary.stats.is_none());
    assert_eq!(stats_report(&summary), "No WAV files found in the directory tree.\n");
}

#[test]
fn test_print_stats_with_files() {
    let summary = aggregate(&successes(&[1_000_000_000, 2_000_000_000]));
    let report = stats_report(&summary);
    assert!(report.contains("Total files processed: 2\n"));
    assert!(report.contains("Total duration: 3s\n"));
    assert!(report.contains("Average duration: 1s\n"));
    assert!(report.contains("Shortest file: 1s\n"));
    assert!(report.contains("Longest file: 2s\n"));
    assert!(report.contains("Number of errors/warnings: 0\n"));
}

#[test]
fn test_format_duration() {
    assert_eq!(format_duration(Duration::from_secs(0)), "0s");
    assert_eq!(format_duration(Duration::from_secs(45)), "45s");
    assert_eq!(format_duration(Duration::from_secs(148)), "2m 28s");
    assert_eq!(format_duration(Duration::from_secs(252)), "4m 12s");
    assert_eq!(format_duration(Duration::from_secs(3600 + 120 + 3)), "1h 2m 3s");
    assert_eq!(format_duration(Duration::from_secs(3600)), "1h");
    assert_eq!(format_duration(Duration::from_secs(3603)), "1h 3s");
}

#[test]
fn format_drops_fraction_of_a_second() {
    assert_eq!(format_duration(Duration::from_nanos(999_999_999)), "0s");
    assert_eq!(format_duration(Duration::from_nanos(1_500_000_000)), "1s");
    assert_eq!(format_seconds(3723), "1h 2m 3s");
    assert_eq!(format_seconds(7200 + 59), "2h 59s");
    assert_eq!(format_seconds(60), "1m");
    assert_eq!(format_seconds(100 * 3600), "100h");
}

#[test]
fn decimal_notation() {
    assert_eq!(decimal_string(0), "0");
    assert_eq!(decimal_string(7), "7");
    assert_eq!(decimal_string(1200), "1200");
    assert_eq!(decimal_string(u128::MAX), u128::MAX.to_string());
}

#[test]
fn zero_frames_is_empty_audio() {
    assert_eq!(duration_from_header(0, 44100), Err(ExtractionError::EmptyAudio));
    let bytes = wav_bytes(2, 48000, 16, 0);
    let e = calculate_duration(&bytes).unwrap_err();
    assert_eq!(e, ExtractionError::EmptyAudio);
    assert_eq!(e.message(), "Empty audio file");
}

#[test]
fn zero_sample_rate_is_unreadable() {
    let e = duration_from_header(100, 0).unwrap_err();
    assert_eq!(
        e,
        ExtractionError::UnreadableHeader("Ill-formed WAVE file: sample rate is zero".to_string())
    );
    let bytes = wav_bytes(1, 0, 16, 10);
    assert!(matches!(calculate_duration(&bytes), Err(ExtractionError::UnreadableHeader(_))));
}

#[test]
fn duration_is_frames_over_rate() {
    assert_eq!(duration_from_header(44100, 44100), Ok(Duration::from_secs(1)));
    assert_eq!(duration_from_header(1, 3), Ok(Duration::from_nanos(333_333_333)));
    assert_eq!(
        duration_from_header(u32::MAX, 1),
        Ok(Duration::from_nanos(u32::MAX as u64 * 1_000_000_000))
    );
}

#[test]
fn stereo_duration_counts_frames() {
    let bytes = wav_bytes(2, 22050, 16, 44100);
    assert_eq!(calculate_duration(&bytes), Ok(Duration::from_secs(2)));
}

#[test]
fn truncated_header_is_unreadable() {
    let bytes = wav_bytes(1, 44100, 16, 10);
    let result = calculate_duration(&bytes[..20]);
    assert!(matches!(result, Err(ExtractionError::UnreadableHeader(_))));
}

#[test]
fn wav_extension_ignores_case() {
    assert!(is_wav_extension("wav"));
    assert!(is_wav_extension("WAV"));
    assert!(is_wav_extension("Wav"));
    assert!(!is_wav_extension("wave"));
    assert!(!is_wav_extension("mp3"));
    assert!(!is_wav_extension(""));
    assert!(!is_wav_extension("wa"));
}

#[test]
fn failure_messages() {
    let r = file_result("dir/bad.wav", Err(ExtractionError::EmptyAudio));
    assert_eq!(r, ScanResult::Failure("Failed to read WAV file dir/bad.wav: Empty audio file".to_string()));
    let ok = file_result("dir/good.wav", Ok(Duration::from_secs(3)));
    assert_eq!(ok, ScanResult::Success(Duration::from_secs(3)));
    assert_eq!(
        entry_failure("permission denied"),
        ScanResult::Failure("Failed to read entry: permission denied".to_string())
    );
}

#[test]
fn average_lies_between_extremes() {
    let summary = aggregate(&successes(&[1_000_000_000, 2_000_000_000, 4_000_000_001]));
    let s = summary.stats.unwrap();
    assert_eq!(s.file_count, 3);
    assert_eq!(s.total_nanos, 7_000_000_001);
    assert_eq!(s.average.nanos, 2_333_333_333);
    assert_eq!(s.min.nanos, 1_000_000_000);
    assert_eq!(s.max.nanos, 4_000_000_001);
    assert!(s.min.nanos <= s.average.nanos && s.average.nanos <= s.max.nanos);
    assert!(s.average.nanos as u128 * 3 <= s.total_nanos);
    assert!(s.total_nanos < (s.average.nanos as u128 + 1) * 3);
}

#[test]
fn aggregation_ignores_order() {
    let a = vec![
        ScanResult::Success(Duration::from_secs(5)),
        ScanResult::Failure("x".to_string()),
        ScanResult::Success(Duration::from_secs(1)),
        ScanResult::Success(Duration::from_secs(3)),
    ];
    let b = vec![
        ScanResult::Success(Duration::from_secs(3)),
        ScanResult::Success(Duration::from_secs(5)),
        ScanResult::Success(Duration::from_secs(1)),
        ScanResult::Failure("x".to_string()),
    ];
    let (sa, sb) = (aggregate(&a), aggregate(&b));
    assert_eq!(sa.errors.len(), sb.errors.len());
    let (x, y) = (sa.stats.unwrap(), sb.stats.unwrap());
    assert_eq!(x.file_count, y.file_count);
    assert_eq!(x.total_nanos, y.total_nanos);
    assert_eq!(x.average, y.average);
    assert_eq!(x.min, y.min);
    assert_eq!(x.max, y.max);
    assert_eq!(x.min, Duration::from_secs(1));
    assert_eq!(x.max, Duration::from_secs(5));
}

#[test]
fn only_failures_report_no_files() {
    let results = vec![entry_failure("gone"), file_result("a.wav", Err(ExtractionError::EmptyAudio))];
    let summary: Summary = aggregate(&results);
    assert!(summary.stats.is_none());
    assert_eq!(summary.errors.len(), 2);
    let report = stats_report(&summary);
    assert_eq!(report, "No WAV files found in the directory tree.\n");
    assert!(!report.contains("Total duration"));
    assert!(!report.contains("Average duration"));
}

#[test]
fn one_second_file_end_to_end() {
    let bytes = wav_bytes(1, 44100, 16, 44100);
    let results = vec![file_result("root/one.wav", calculate_duration(&bytes))];
    let summary = aggregate(&results);
    assert_eq!(
        stats_report(&summary),
        "\nWAV File Statistics:\n====================\nTotal files processed: 1\n\
         Total duration: 1s\nAverage duration: 1s\nShortest file: 1s\nLongest file: 1s\n\
         ====================\nNumber of errors/warnings: 0\n"
    );
    assert_eq!(warnings_report(&summary.errors), "");
}

#[test]
fn corrupt_and_valid_file_end_to_end() {
    let good = wav_bytes(1, 8000, 8, 16000);
    let bad = b"RIFF\x00\x00\x00\x00garbage".to_vec();
    let results = vec![
        file_result("root/bad.wav", calculate_duration(&bad)),
        file_result("root/good.wav", calculate_duration(&good)),
    ];
    let summary = aggregate(&results);
    let report = stats_report(&summary);
    assert!(report.contains("Total files processed: 1\n"));
    assert!(report.contains("Total duration: 2s\n"));
    assert!(report.contains("Number of errors/warnings: 1\n"));
    let warnings = warnings_report(&summary.errors);
    assert!(warnings.starts_with("\nWarnings:\n  - Failed to read WAV file root/bad.wav: "));
    assert_eq!(warnings.lines().filter(|l| l.starts_with("  - ")).count(), 1);
}

#[test]
fn warnings_list_every_message() {
    let errors = vec!["first".to_string(), "second".to_string()];
    assert_eq!(warnings_report(&errors), "\nWarnings:\n  - first\n  - second\n");
    assert_eq!(warnings_report(&Vec::new()), "");
}
