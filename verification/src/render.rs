//! Rendering of one match into the line each sink receives.
//!
//! Every sink's exact output is pinned down: the CSV record
//! `"ATTR";THRESHOLD;"PATH";AGE`, the human-readable sentence for the
//! console streams, and the shorter sentence (without the age) for the log
//! facility. Durations in the sentences are humanized by `humantime`, whose
//! output is carried as a named function of the seconds alone.

use vstd::prelude::*;
use vstd::string::StringExecFns;

use crate::sinks::Sink;
use crate::times::{attr_name, TimeAttr};

verus! {

/// Where a rendered line is to be written.
#[derive(Clone, Copy, Debug, PartialEq, Eq, Structural)]
pub enum Dest {
    /// Standard output.
    Stdout,
    /// Standard error.
    Stderr,
    /// Structured log facility, warning level.
    LogWarn,
    /// Structured log facility, error level.
    LogError,
}

/// The destination each sink writes to.
pub open spec fn sink_dest(s: Sink) -> Dest {
    match s {
        Sink::Csv => Dest::Stdout,
        Sink::Stdout => Dest::Stdout,
        Sink::Stderr => Dest::Stderr,
        Sink::Warn => Dest::LogWarn,
        Sink::Error => Dest::LogError,
    }
}

/// One qualifying file, as handed to the sinks: the compared attribute, the
/// configured threshold, the path relative to the scan root, and the
/// computed age. Built only for files that qualify, written out at once and
/// then discarded.
pub struct MatchRecord {
    /// The timestamp attribute the scan compared.
    pub attr: TimeAttr,
    /// The configured age threshold in seconds.
    pub threshold_secs: u64,
    /// The file's path relative to the scan root.
    pub rel_path: String,
    /// The file's computed age in seconds.
    pub age_secs: u64,
}

/// The abstract content of a [`MatchRecord`].
pub ghost struct RecordView {
    /// The timestamp attribute the scan compared.
    pub attr: TimeAttr,
    /// The configured age threshold in seconds.
    pub threshold_secs: u64,
    /// The file's path relative to the scan root.
    pub rel_path: Seq<char>,
    /// The file's computed age in seconds.
    pub age_secs: u64,
}

impl View for MatchRecord {
    type V = RecordView;

    open spec fn view(&self) -> RecordView {
        RecordView {
            attr: self.attr,
            threshold_secs: self.threshold_secs,
            rel_path: self.rel_path@,
            age_secs: self.age_secs,
        }
    }
}

/// A line ready to be written, together with its destination.
pub struct SinkLine {
    /// Where the line goes.
    pub dest: Dest,
    /// The exact text, without a trailing newline.
    pub text: String,
}

/// The single character writing a decimal digit.
pub open spec fn digit_seq(d: int) -> Seq<char> {
    if d == 0 {
        "0"@
    } else if d == 1 {
        "1"@
    } else if d == 2 {
        "2"@
    } else if d == 3 {
        "3"@
    } else if d == 4 {
        "4"@
    } else if d == 5 {
        "5"@
    } else if d == 6 {
        "6"@
    } else if d == 7 {
        "7"@
    } else if d == 8 {
        "8"@
    } else if d == 9 {
        "9"@
    } else {
        Seq::empty()
    }
}

/// The decimal writing of a non-negative number, no leading zeros except
/// for zero itself.
pub open spec fn dec_seq(n: int) -> Seq<char>
    decreases n,
{
    if n < 10 {
        digit_seq(n)
    } else {
        dec_seq(n / 10) + digit_seq(n % 10)
    }
}

/// What `humantime::format_duration` writes for a whole number of seconds.
pub uninterp spec fn human_duration(secs: u64) -> Seq<char>;

/// Relies on humantime::format_duration: the humanized text depends on the
/// duration — here always a whole count of seconds — alone.
#[verifier::external_body]
fn format_duration_secs(secs: u64) -> (r: String)
    ensures
        r@ == human_duration(secs),
{
    humantime::format_duration(std::time::Duration::from_secs(secs)).to_string()
}

/// The CSV record for a match: attribute and path double-quoted, threshold
/// and age as plain seconds, semicolon-delimited.
pub open spec fn csv_line(r: RecordView) -> Seq<char> {
    "\""@ + attr_name(r.attr) + "\""@ + ";"@ + dec_seq(r.threshold_secs as int) + ";"@ + "\""@
        + r.rel_path + "\""@ + ";"@ + dec_seq(r.age_secs as int)
}

/// The human-readable sentence for the console streams.
pub open spec fn sentence_line(r: RecordView) -> Seq<char> {
    "file("@ + attr_name(r.attr) + ") \""@ + r.rel_path + "\" is older than "@ + human_duration(
        r.threshold_secs,
    ) + " - the age is: "@ + human_duration(r.age_secs)
}

/// The sentence for the log facility: no age, path unquoted.
pub open spec fn log_line(r: RecordView) -> Seq<char> {
    "file("@ + attr_name(r.attr) + ") "@ + r.rel_path + " is older than "@ + human_duration(
        r.threshold_secs,
    )
}

/// The exact text a sink receives for a match.
pub open spec fn spec_line(s: Sink, r: RecordView) -> Seq<char> {
    match s {
        Sink::Csv => csv_line(r),
        Sink::Stdout => sentence_line(r),
        Sink::Stderr => sentence_line(r),
        Sink::Warn => log_line(r),
        Sink::Error => log_line(r),
    }
}

/// Append one decimal digit.
fn push_digit(s: &mut String, d: u64)
    requires
        d < 10,
    ensures
        final(s)@ == old(s)@ + digit_seq(d as int),
{
    match d {
        0 => s.append("0"),
        1 => s.append("1"),
        2 => s.append("2"),
        3 => s.append("3"),
        4 => s.append("4"),
        5 => s.append("5"),
        6 => s.append("6"),
        7 => s.append("7"),
        8 => s.append("8"),
        _ => s.append("9"),
    }
}

/// Append the decimal writing of a number.
fn push_dec(s: &mut String, n: u64)
    ensures
        final(s)@ == old(s)@ + dec_seq(n as int),
    decreases n,
{
    if n < 10 {
        push_digit(s, n);
    } else {
        push_dec(s, n / 10);
        push_digit(s, n % 10);
        proof {
            assert(final(s)@ =~= old(s)@ + dec_seq(n as int));
        }
    }
}

/// Render the line a sink receives for a match, with its destination.
pub fn render_sink_line(sink: Sink, record: &MatchRecord) -> (r: SinkLine)
    ensures
        r.dest == sink_dest(sink),
        r.text@ == spec_line(sink, record@),
{
    let mut text = String::new();
    match sink {
        Sink::Csv => {
            text.append("\"");
            text.append(record.attr.name());
            text.append("\"");
            text.append(";");
            push_dec(&mut text, record.threshold_secs);
            text.append(";");
            text.append("\"");
            text.append(record.rel_path.as_str());
            text.append("\"");
            text.append(";");
            push_dec(&mut text, record.age_secs);
            proof {
                assert(text@ =~= csv_line(record@));
            }
            SinkLine { dest: Dest::Stdout, text }
        },
        Sink::Stdout | Sink::Stderr => {
            text.append("file(");
            text.append(record.attr.name());
            text.append(") \"");
            text.append(record.rel_path.as_str());
            text.append("\" is older than ");
            let thr = format_duration_secs(record.threshold_secs);
            text.append(thr.as_str());
            text.append(" - the age is: ");
            let age = format_duration_secs(record.age_secs);
            text.append(age.as_str());
            proof {
                assert(text@ =~= sentence_line(record@));
            }
            let dest = if sink == Sink::Stdout {
                Dest::Stdout
            } else {
                Dest::Stderr
            };
            SinkLine { dest, text }
        },
        Sink::Warn | Sink::Error => {
            text.append("file(");
            text.append(record.attr.name());
            text.append(") ");
            text.append(record.rel_path.as_str());
            text.append(" is older than ");
            let thr = format_duration_secs(record.threshold_secs);
            text.append(thr.as_str());
            proof {
                assert(text@ =~= log_line(record@));
            }
            let dest = if sink == Sink::Warn {
                Dest::LogWarn
            } else {
                Dest::LogError
            };
            SinkLine { dest, text }
        },
    }
}

} // verus!
