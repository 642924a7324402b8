use findold::sinks::{normalize_sinks, parse_sink, Sink};
use findold::ConfigError;

fn ids(list: &[&str]) -> Vec<String> {
    list.iter().map(|s| s.to_string()).collect()
}

#[test]
fn duplicates_collapse_case_insensitively() {
    let sinks = normalize_sinks(&ids(&["warn", "WARN", "error"])).unwrap();
    assert_eq!(sinks, vec![Sink::Warn, Sink::Error]);
    let names: Vec<&str> = sinks.iter().map(|s| s.name()).collect();
    assert_eq!(names, vec!["warn", "error"]);
}

#[test]
fn first_occurrence_keeps_its_place() {
    let sinks = normalize_sinks(&ids(&["csv", "stdout", "CSV", "stderr", "stdout"])).unwrap();
    assert_eq!(sinks, vec![Sink::Csv, Sink::Stdout, Sink::Stderr]);
}

#[test]
fn all_five_sinks_are_recognized() {
    let sinks = normalize_sinks(&ids(&["warn", "error", "stderr", "stdout", "csv"])).unwrap();
    assert_eq!(
        sinks,
        vec![Sink::Warn, Sink::Error, Sink::Stderr, Sink::Stdout, Sink::Csv]
    );
}

#[test]
fn unknown_identifier_is_rejected() {
    assert_eq!(
        normalize_sinks(&ids(&["stdout", "console"])),
        Err(ConfigError::UnknownSink)
    );
}

#[test]
fn parse_sink_folds_case() {
    assert_eq!(parse_sink("CsV"), Some(Sink::Csv));
    assert_eq!(parse_sink("STDERR"), Some(Sink::Stderr));
    assert_eq!(parse_sink("Stdout"), Some(Sink::Stdout));
    assert_eq!(parse_sink("syslog"), None);
    assert_eq!(parse_sink(""), None);
}

#[test]
fn empty_list_stays_empty() {
    assert_eq!(normalize_sinks(&ids(&[])), Ok(vec![]));
}
