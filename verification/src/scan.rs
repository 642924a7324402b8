//! The per-entry decision pipeline of a scan.
//!
//! A scan holds an immutable request: the compared attribute, the age
//! threshold, the optional path filter and the ordered distinct sinks. The
//! caller walks the tree, captures `now` once, and hands every entry here;
//! [`evaluate_entry`] decides whether the entry is reported, and if so
//! renders one line per sink, in sink order. Per-entry failures never abort
//! the pipeline: each is returned as a skip with its reason.
//!
//! A file whose requested attribute the filesystem does not expose is
//! skipped, with the reason surfaced, rather than aborting the whole run;
//! a timestamp after `now` counts as age zero.

use vstd::prelude::*;
use vstd::string::StringExecFns;

use crate::errors::ConfigError;
use crate::offset::{get_seconds, offset_seconds, offset_valid};
use crate::pattern::{regex_compiles, spec_match, Matcher};
use crate::render::{render_sink_line, sink_dest, spec_line, MatchRecord, RecordView, SinkLine};
use crate::sinks::{dedup_sinks, mapped_sinks, normalize_sinks, sinks_valid, Sink};
use crate::times::{
    age_seconds, attr_of, parse_attr, resolve_timestamp, resolved_time, spec_age, spec_qualifies,
    FileTimes, TimeAttr,
};

verus! {

/// Everything a scan was configured with, built once before the walk.
pub struct ScanRequest {
    /// The timestamp attribute to compare.
    pub attr: TimeAttr,
    /// The age threshold in seconds; strictly older files qualify.
    pub threshold_secs: u64,
    /// The optional filter on paths relative to the scan root.
    pub matcher: Matcher,
    /// The sinks to write each match to, in order, each at most once.
    pub sinks: Vec<Sink>,
}

/// Why an entry produced no report.
#[derive(Clone, Copy, Debug, PartialEq, Eq, Structural)]
pub enum SkipReason {
    /// The entry is not a regular file.
    NotFile,
    /// The filesystem does not expose the requested attribute.
    AttributeUnavailable,
    /// The file's age does not strictly exceed the threshold.
    NotOld,
    /// The pattern excludes the file's relative path.
    PatternMismatch,
    /// The pattern engine could not finish matching the path.
    PatternFailed,
}

/// What one entry of the walk came to.
pub enum Outcome {
    /// The entry is not reported, for the given reason.
    Skip(SkipReason),
    /// The entry qualifies: the record and one rendered line per sink.
    Report { record: MatchRecord, lines: Vec<SinkLine> },
}

/// Whether an entry is reported: it is a regular file, its requested
/// timestamp is available, its age strictly exceeds the threshold, and its
/// relative path passes the filter.
pub open spec fn should_report(
    attr: TimeAttr,
    threshold: u64,
    pattern: Option<Seq<char>>,
    now: u64,
    is_file: bool,
    rel_path: Seq<char>,
    times: FileTimes,
) -> bool {
    &&& is_file
    &&& resolved_time(attr, times) is Some
    &&& spec_qualifies(spec_age(now, resolved_time(attr, times)->Some_0), threshold)
    &&& spec_match(pattern, rel_path) == Some(true)
}

/// The reason a non-reported entry is skipped, in the order the pipeline
/// checks: file type, attribute, age, pattern.
pub open spec fn spec_skip_reason(
    attr: TimeAttr,
    threshold: u64,
    pattern: Option<Seq<char>>,
    now: u64,
    is_file: bool,
    rel_path: Seq<char>,
    times: FileTimes,
) -> SkipReason {
    if !is_file {
        SkipReason::NotFile
    } else if resolved_time(attr, times) is None {
        SkipReason::AttributeUnavailable
    } else if !spec_qualifies(spec_age(now, resolved_time(attr, times)->Some_0), threshold) {
        SkipReason::NotOld
    } else if spec_match(pattern, rel_path) is None {
        SkipReason::PatternFailed
    } else {
        SkipReason::PatternMismatch
    }
}

/// The record a reported entry carries.
pub open spec fn spec_record(
    attr: TimeAttr,
    threshold: u64,
    now: u64,
    rel_path: Seq<char>,
    times: FileTimes,
) -> RecordView {
    RecordView {
        attr,
        threshold_secs: threshold,
        rel_path,
        age_secs: spec_age(now, resolved_time(attr, times)->Some_0),
    }
}

/// Decide one entry of the walk and render its report.
///
/// `now` is the epoch-second count captured once at the start of the walk;
/// `rel_path` is the entry's path relative to the scan root; `times` holds
/// the timestamps the caller read from the entry's metadata. An entry is
/// reported exactly when it is a regular file whose requested timestamp is
/// available, strictly older than the threshold, and whose relative path
/// passes the filter; the report carries one line per configured sink, in
/// sink order. Anything else is a skip carrying the first failed check.
pub fn evaluate_entry(
    req: &ScanRequest,
    now: u64,
    is_file: bool,
    rel_path: &str,
    times: &FileTimes,
) -> (r: Outcome)
    ensures
        r is Report <==> should_report(
            req.attr,
            req.threshold_secs,
            req.matcher@,
            now,
            is_file,
            rel_path@,
            *times,
        ),
        r is Report ==> r->record@ == spec_record(
            req.attr,
            req.threshold_secs,
            now,
            rel_path@,
            *times,
        ),
        r is Report ==> r->lines@.len() == req.sinks@.len(),
        r is Report ==> forall|i: int|
            0 <= i < req.sinks@.len() ==> (#[trigger] r->lines@[i]).dest == sink_dest(
                req.sinks@[i],
            ) && r->lines@[i].text@ == spec_line(req.sinks@[i], r->record@),
        r is Skip ==> r->0 == spec_skip_reason(
            req.attr,
            req.threshold_secs,
            req.matcher@,
            now,
            is_file,
            rel_path@,
            *times,
        ),
{
    if !is_file {
        return Outcome::Skip(SkipReason::NotFile);
    }
    let ts = match resolve_timestamp(req.attr, times) {
        Ok(ts) => ts,
        Err(_) => {
            return Outcome::Skip(SkipReason::AttributeUnavailable);
        },
    };
    let age = age_seconds(now, ts);
    if !(age > req.threshold_secs) {
        return Outcome::Skip(SkipReason::NotOld);
    }
    match req.matcher.matches(rel_path) {
        None => Outcome::Skip(SkipReason::PatternFailed),
        Some(false) => Outcome::Skip(SkipReason::PatternMismatch),
        Some(true) => {
            let record = MatchRecord {
                attr: req.attr,
                threshold_secs: req.threshold_secs,
                rel_path: String::from_str(rel_path),
                age_secs: age,
            };
            let mut lines: Vec<SinkLine> = Vec::new();
            let mut i: usize = 0;
            while i < req.sinks.len()
                invariant
                    i <= req.sinks@.len(),
                    lines@.len() == i,
                    record@ == spec_record(
                        req.attr,
                        req.threshold_secs,
                        now,
                        rel_path@,
                        *times,
                    ),
                    forall|j: int|
                        0 <= j < i ==> (#[trigger] lines@[j]).dest == sink_dest(req.sinks@[j])
                            && lines@[j].text@ == spec_line(req.sinks@[j], record@),
                decreases req.sinks@.len() - i,
            {
                let line = render_sink_line(req.sinks[i], &record);
                lines.push(line);
                i += 1;
            }
            Outcome::Report { record, lines }
        },
    }
}

/// Build a scan request from the raw configuration inputs.
///
/// The attribute name is matched exactly, the offset string is parsed by
/// [`get_seconds`], the sink identifiers are validated and deduplicated by
/// [`normalize_sinks`], and the optional pattern is compiled last. The
/// first bad input is reported and nothing is scanned.
pub fn configure(
    attr_text: &str,
    offset_text: &str,
    pattern: Option<&str>,
    sink_ids: &Vec<String>,
) -> (r: Result<ScanRequest, ConfigError>)
    ensures
        attr_of(attr_text@) is None ==> r is Err && r->Err_0 == ConfigError::UnknownAttribute,
        attr_of(attr_text@) is Some && !offset_valid(offset_text@) ==> r is Err && r->Err_0
            == ConfigError::BadOffset,
        attr_of(attr_text@) is Some && offset_valid(offset_text@) && !sinks_valid(
            sink_ids.deep_view(),
        ) ==> r is Err && r->Err_0 == ConfigError::UnknownSink,
        attr_of(attr_text@) is Some && offset_valid(offset_text@) && sinks_valid(
            sink_ids.deep_view(),
        ) ==> (r is Ok <==> (pattern is None || regex_compiles(pattern->Some_0@))),
        attr_of(attr_text@) is Some && offset_valid(offset_text@) && sinks_valid(
            sink_ids.deep_view(),
        ) && r is Err ==> r->Err_0 == ConfigError::BadPattern,
        r is Ok ==> {
            &&& attr_of(attr_text@) == Some(r->Ok_0.attr)
            &&& offset_valid(offset_text@)
            &&& r->Ok_0.threshold_secs == offset_seconds(offset_text@)
            &&& (pattern is None <==> r->Ok_0.matcher@ is None)
            &&& (pattern is Some ==> r->Ok_0.matcher@ == Some(pattern->Some_0@))
            &&& sinks_valid(sink_ids.deep_view())
            &&& r->Ok_0.sinks@ == dedup_sinks(mapped_sinks(sink_ids.deep_view()))
        },
{
    let attr = match parse_attr(attr_text) {
        Some(attr) => attr,
        None => {
            return Err(ConfigError::UnknownAttribute);
        },
    };
    let threshold_secs = match get_seconds(offset_text) {
        Ok(secs) => secs,
        Err(e) => {
            return Err(e);
        },
    };
    let sinks = match normalize_sinks(sink_ids) {
        Ok(sinks) => sinks,
        Err(e) => {
            return Err(e);
        },
    };
    let matcher = match Matcher::compile(pattern) {
        Ok(matcher) => matcher,
        Err(e) => {
            return Err(e);
        },
    };
    Ok(ScanRequest { attr, threshold_secs, matcher, sinks })
}

} // verus!
