use vstd::prelude::*;
use crate::duration::NANOS_PER_SEC;
use crate::format::{decimal, format_duration, format_seconds, push_decimal, seconds_text};
use crate::scan::{AggregateStats, Summary};

verus! {

/// The report for a scan in which no file succeeded.
pub open spec fn no_files_text() -> Seq<char> {
    "No WAV files found in the directory tree.\n"@
}

/// The statistics block of the report, followed by the number of failures.
pub open spec fn stats_text(s: AggregateStats, error_count: nat) -> Seq<char> {
    "\nWAV File Statistics:\n====================\nTotal files processed: "@ + decimal(
        s.file_count as nat,
    ) + "\nTotal duration: "@ + seconds_text((s.total_nanos / (NANOS_PER_SEC as u128)) as nat)
        + "\nAverage duration: "@ + seconds_text(s.average.whole_secs()) + "\nShortest file: "@
        + seconds_text(s.min.whole_secs()) + "\nLongest file: "@ + seconds_text(
        s.max.whole_secs(),
    ) + "\n====================\nNumber of errors/warnings: "@ + decimal(error_count) + "\n"@
}

/// The report for a summary: the statistics, or the notice that no file was
/// found when there are none.
pub open spec fn report_text(stats: Option<AggregateStats>, error_count: nat) -> Seq<char> {
    match stats {
        None => no_files_text(),
        Some(s) => stats_text(s, error_count),
    }
}

/// One indented bullet line for each message.
pub open spec fn bullet_lines(messages: Seq<Seq<char>>) -> Seq<char>
    decreases messages.len(),
{
    if messages.len() == 0 {
        Seq::empty()
    } else {
        bullet_lines(messages.drop_last()) + "  - "@ + messages.last() + "\n"@
    }
}

/// The warnings block: nothing without failures, else a heading and a bullet
/// line for each message.
pub open spec fn warnings_text(messages: Seq<Seq<char>>) -> Seq<char> {
    if messages.len() == 0 {
        Seq::empty()
    } else {
        "\nWarnings:\n"@ + bullet_lines(messages)
    }
}

/// The report of a scan's statistics, written to standard output.
pub fn stats_report(summary: &Summary) -> (r: String)
    ensures
        r@ == report_text(summary.stats, summary.errors@.len()),
        summary.stats is None ==> r@ == no_files_text(),
{
    match &summary.stats {
        None => String::from_str("No WAV files found in the directory tree.\n"),
        Some(s) => {
            let mut out = String::from_str(
                "\nWAV File Statistics:\n====================\nTotal files processed: ",
            );
            push_decimal(&mut out, s.file_count as u128);
            out.append("\nTotal duration: ");
            let total = format_seconds(s.total_nanos / (NANOS_PER_SEC as u128));
            out.append(total.as_str());
            out.append("\nAverage duration: ");
            let average = format_duration(s.average);
            out.append(average.as_str());
            out.append("\nShortest file: ");
            let shortest = format_duration(s.min);
            out.append(shortest.as_str());
            out.append("\nLongest file: ");
            let longest = format_duration(s.max);
            out.append(longest.as_str());
            out.append("\n====================\nNumber of errors/warnings: ");
            push_decimal(&mut out, summary.errors.len() as u128);
            out.append("\n");
            assert(out@ =~= stats_text(*s, summary.errors@.len()));
            out
        },
    }
}

/// The warnings block for the failure messages of a scan, written to standard
/// error; empty where there are none.
pub fn warnings_report(errors: &Vec<String>) -> (r: String)
    ensures
        r@ == warnings_text(errors@.map_values(|s: String| s@)),
{
    let ghost texts = errors@.map_values(|s: String| s@);
    if errors.len() == 0 {
        return String::new();
    }
    let mut out = String::from_str("\nWarnings:\n");
    let mut i: usize = 0;
    while i < errors.len()
        invariant
            i <= errors.len(),
            errors.len() > 0,
            texts == errors@.map_values(|s: String| s@),
            out@ == "\nWarnings:\n"@ + bullet_lines(texts.take(i as int)),
        decreases errors.len() - i,
    {
        let ghost before = out@;
        out.append("  - ");
        out.append(errors[i].as_str());
        out.append("\n");
        proof {
            let next = texts.take(i as int + 1);
            assert(next.drop_last() =~= texts.take(i as int));
            assert(next.last() == errors@[i as int]@);
            assert(out@ =~= "\nWarnings:\n"@ + bullet_lines(next));
        }
        i = i + 1;
    }
    assert(texts.take(errors.len() as int) =~= texts);
    out
}

} // verus!
