use findold::render::{render_sink_line, Dest, MatchRecord};
use findold::sinks::Sink;
use findold::times::TimeAttr;

fn record(attr: TimeAttr, threshold_secs: u64, rel_path: &str, age_secs: u64) -> MatchRecord {
    MatchRecord {
        attr,
        threshold_secs,
        rel_path: rel_path.to_string(),
        age_secs,
    }
}

#[test]
fn csv_line_is_exact() {
    let r = record(TimeAttr::Ctime, 5, "a/b.txt", 10);
    let line = render_sink_line(Sink::Csv, &r);
    assert_eq!(line.dest, Dest::Stdout);
    assert_eq!(line.text, "\"ctime\";5;\"a/b.txt\";10");
}

#[test]
fn csv_line_round_trips_into_its_fields() {
    let r = record(TimeAttr::Ctime, 5, "a/b.txt", 10);
    let line = render_sink_line(Sink::Csv, &r).text;
    let fields: Vec<&str> = line.split(';').collect();
    assert_eq!(fields, vec!["\"ctime\"", "5", "\"a/b.txt\"", "10"]);
    assert_eq!(fields[1].parse::<u64>().unwrap(), r.threshold_secs);
    assert_eq!(fields[3].parse::<u64>().unwrap(), r.age_secs);
    assert_eq!(fields[0].trim_matches('"'), "ctime");
    assert_eq!(fields[2].trim_matches('"'), "a/b.txt");
}

#[test]
fn csv_line_large_numbers() {
    let r = record(TimeAttr::Atime, 0, "x", u64::MAX);
    let line = render_sink_line(Sink::Csv, &r);
    assert_eq!(line.text, "\"atime\";0;\"x\";18446744073709551615");
}

#[test]
fn stdout_sentence_is_exact() {
    let r = record(TimeAttr::Mtime, 5, "a.txt", 10);
    let line = render_sink_line(Sink::Stdout, &r);
    assert_eq!(line.dest, Dest::Stdout);
    assert_eq!(
        line.text,
        "file(mtime) \"a.txt\" is older than 5s - the age is: 10s"
    );
}

#[test]
fn stderr_gets_the_same_sentence() {
    let r = record(TimeAttr::Mtime, 5, "a.txt", 10);
    let out = render_sink_line(Sink::Stdout, &r);
    let err = render_sink_line(Sink::Stderr, &r);
    assert_eq!(err.dest, Dest::Stderr);
    assert_eq!(out.text, err.text);
}

#[test]
fn log_lines_have_no_age_and_no_quotes() {
    let r = record(TimeAttr::Ctime, 300, "d/e.log", 9999);
    let warn = render_sink_line(Sink::Warn, &r);
    let error = render_sink_line(Sink::Error, &r);
    assert_eq!(warn.dest, Dest::LogWarn);
    assert_eq!(error.dest, Dest::LogError);
    assert_eq!(warn.text, "file(ctime) d/e.log is older than 5m");
    assert_eq!(warn.text, error.text);
}

#[test]
fn durations_are_humanized_as_humantime_writes_them() {
    let threshold: u64 = 86400;
    let age: u64 = 8640000;
    let r = record(TimeAttr::Mtime, threshold, "old.txt", age);
    let line = render_sink_line(Sink::Stdout, &r);
    let expected = format!(
        "file(mtime) \"old.txt\" is older than {} - the age is: {}",
        humantime::format_duration(std::time::Duration::from_secs(threshold)),
        humantime::format_duration(std::time::Duration::from_secs(age)),
    );
    assert_eq!(line.text, expected);
}
