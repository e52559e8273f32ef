//! Playback-duration statistics for collections of WAVE audio files.
//!
//! The library decides everything that a scan computes: which file names are
//! audio files, the duration that a file's header declares, how per-file
//! outcomes are combined into totals and extremes, and the text of the report.
//! Reading the directory tree and the files is left to the caller.

pub mod duration;
pub mod format;
pub mod extract;
pub mod scan;
pub mod report;

pub use duration::{Duration, NANOS_PER_SEC};
pub use format::{format_duration, format_seconds, decimal_string};
pub use extract::{ExtractionError, calculate_duration, duration_from_header, is_wav_extension};
pub use scan::{ScanResult, AggregateStats, Summary, aggregate, entry_failure, file_result};
pub use report::{stats_report, warnings_report};
