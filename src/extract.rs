use vstd::prelude::*;
use crate::duration::{Duration, NANOS_PER_SEC};

verus! {

/// Why no duration could be taken from a file.
#[derive(Debug, PartialEq, Eq)]
pub enum ExtractionError {
    /// The bytes are not a WAVE container, or its header cannot be used; the
    /// text says what is wrong with it.
    UnreadableHeader(String),
    /// The header is sound but declares no sample frames.
    EmptyAudio,
}

/// The text of the error for a header whose sample rate is zero.
pub open spec fn zero_rate_text() -> Seq<char> {
    "Ill-formed WAVE file: sample rate is zero"@
}

/// The text of `ExtractionError::EmptyAudio`.
pub open spec fn empty_audio_text() -> Seq<char> {
    "Empty audio file"@
}

impl ExtractionError {
    /// The text that describes this error.
    pub open spec fn text(&self) -> Seq<char> {
        match self {
            ExtractionError::UnreadableHeader(t) => t@,
            ExtractionError::EmptyAudio => empty_audio_text(),
        }
    }

    /// Whether this is `UnreadableHeader` with the text `t`.
    pub open spec fn is_unreadable_with(&self, t: Seq<char>) -> bool {
        match self {
            ExtractionError::UnreadableHeader(s) => s@ == t,
            ExtractionError::EmptyAudio => false,
        }
    }

    /// The text that describes this error.
    pub fn message(&self) -> (r: String)
        ensures
            r@ == self.text(),
    {
        match self {
            ExtractionError::UnreadableHeader(t) => t.clone(),
            ExtractionError::EmptyAudio => String::from_str("Empty audio file"),
        }
    }
}

/// Nanoseconds played by `frames` sample frames at `rate` frames per second,
/// rounded down.
pub open spec fn frames_nanos(frames: nat, rate: nat) -> nat
    recommends
        rate > 0,
{
    ((frames * NANOS_PER_SEC) / (rate as int)) as nat
}

/// The duration in nanoseconds of a file with at least one frame: the frame
/// count over the rate, rounded down, but never less than one nanosecond, as
/// a file that holds audio never lasts no time at all.
pub open spec fn file_nanos(frames: nat, rate: nat) -> nat
    recommends
        rate > 0,
{
    if frames_nanos(frames, rate) == 0 {
        1
    } else {
        frames_nanos(frames, rate)
    }
}

/// What a header that declares `frames` sample frames at `rate` frames per
/// second gives: no frames is an error, as is a zero rate; otherwise the
/// duration is the frame count over the rate, and never zero.
pub open spec fn header_outcome(frames: u32, rate: u32, r: Result<Duration, ExtractionError>) -> bool {
    if frames == 0 {
        r == Err::<Duration, ExtractionError>(ExtractionError::EmptyAudio)
    } else if rate == 0 {
        r is Err && r->Err_0.is_unreadable_with(zero_rate_text())
    } else {
        r == Ok::<Duration, ExtractionError>(
            Duration { nanos: file_nanos(frames as nat, rate as nat) as u64 },
        ) && 0 < file_nanos(frames as nat, rate as nat) <= u64::MAX
    }
}

/// The sample frame count and the sample rate that a WAVE header declares, or
/// the text of the reason why the bytes hold no usable header.
pub uninterp spec fn wav_header_of(bytes: Seq<u8>) -> Result<(u32, u32), Seq<char>>;

/// Relies on hound's `WavReader::new`, which reads the RIFF/WAVE header at the
/// start of `bytes` and stops at the data chunk, on `WavReader::duration` (the
/// number of sample frames, whatever the channel count) and on
/// `WavReader::spec().sample_rate`; a refused header comes back as the
/// error's displayed text.
#[verifier::external_body]
fn read_wav_header(bytes: &[u8]) -> (r: Result<(u32, u32), String>)
    ensures
        match r {
            Ok(h) => wav_header_of(bytes@) == Ok::<(u32, u32), Seq<char>>(h),
            Err(t) => wav_header_of(bytes@) == Err::<(u32, u32), Seq<char>>(t@),
        },
{
    match hound::WavReader::new(std::io::Cursor::new(bytes)) {
        Ok(reader) => Ok((reader.duration(), reader.spec().sample_rate)),
        Err(e) => Err(e.to_string()),
    }
}

/// The duration declared by a header with `frames` sample frames at
/// `sample_rate` frames per second.
pub fn duration_from_header(frames: u32, sample_rate: u32) -> (r: Result<Duration, ExtractionError>)
    ensures
        header_outcome(frames, sample_rate, r),
{
    if frames == 0 {
        return Err(ExtractionError::EmptyAudio);
    }
    if sample_rate == 0 {
        return Err(
            ExtractionError::UnreadableHeader(
                String::from_str("Ill-formed WAVE file: sample rate is zero"),
            ),
        );
    }
    let f = frames as u64;
    assert((f as int) * 1_000_000_000 <= u64::MAX as int) by (nonlinear_arith)
        requires
            f <= u32::MAX,
    ;
    let scaled = f * NANOS_PER_SEC;
    let quotient = scaled / (sample_rate as u64);
    let nanos = if quotient == 0 { 1 } else { quotient };
    assert((scaled as int) / (sample_rate as int) <= scaled as int) by (nonlinear_arith)
        requires
            sample_rate >= 1,
            scaled >= 0,
    ;
    assert(scaled >= 1);
    Ok(Duration { nanos })
}

/// The playback duration of the WAVE file whose contents are `bytes`, taken
/// from its header alone.
pub fn calculate_duration(bytes: &[u8]) -> (r: Result<Duration, ExtractionError>)
    ensures
        match wav_header_of(bytes@) {
            Err(t) => r is Err && r->Err_0.is_unreadable_with(t),
            Ok((frames, rate)) => header_outcome(frames, rate, r),
        },
{
    match read_wav_header(bytes) {
        Err(t) => Err(ExtractionError::UnreadableHeader(t)),
        Ok((frames, rate)) => duration_from_header(frames, rate),
    }
}

/// Whether `ext` is "wav" in any mix of upper and lower case.
pub open spec fn is_wav_ext(ext: Seq<char>) -> bool {
    &&& ext.len() == 3
    &&& (ext[0] == 'w' || ext[0] == 'W')
    &&& (ext[1] == 'a' || ext[1] == 'A')
    &&& (ext[2] == 'v' || ext[2] == 'V')
}

/// Whether a file name extension marks a WAVE file, ignoring ASCII case.
pub fn is_wav_extension(ext: &str) -> (r: bool)
    ensures
        r == is_wav_ext(ext@),
{
    if ext.unicode_len() != 3 {
        return false;
    }
    let c0 = ext.get_char(0);
    let c1 = ext.get_char(1);
    let c2 = ext.get_char(2);
    (c0 == 'w' || c0 == 'W') && (c1 == 'a' || c1 == 'A') && (c2 == 'v' || c2 == 'V')
}

} // verus!
