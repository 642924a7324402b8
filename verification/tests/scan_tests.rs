use findold::render::Dest;
use findold::scan::{configure, evaluate_entry, Outcome, ScanRequest, SkipReason};
use findold::times::FileTimes;
use findold::ConfigError;

fn ids(list: &[&str]) -> Vec<String> {
    list.iter().map(|s| s.to_string()).collect()
}

fn mtimes(mtime: u64) -> FileTimes {
    FileTimes {
        atime: None,
        ctime: None,
        mtime: Some(mtime),
    }
}

fn request(attr: &str, offset: &str, pattern: Option<&str>, sinks: &[&str]) -> ScanRequest {
    configure(attr, offset, pattern, &ids(sinks)).unwrap()
}

fn skip_reason(outcome: Outcome) -> SkipReason {
    match outcome {
        Outcome::Skip(reason) => reason,
        Outcome::Report { .. } => panic!("expected a skip"),
    }
}

#[test]
fn age_equal_to_threshold_is_excluded() {
    let req = request("mtime", "100", None, &["stdout"]);
    let now: u64 = 1_000_000;
    let at_threshold = evaluate_entry(&req, now, true, "a.txt", &mtimes(now - 100));
    assert_eq!(skip_reason(at_threshold), SkipReason::NotOld);
    let one_older = evaluate_entry(&req, now, true, "a.txt", &mtimes(now - 101));
    assert!(matches!(one_older, Outcome::Report { .. }));
}

#[test]
fn future_timestamp_counts_as_age_zero() {
    let req = request("mtime", "0", None, &["stdout"]);
    let now: u64 = 1_000;
    let future = evaluate_entry(&req, now, true, "a.txt", &mtimes(now + 50));
    assert_eq!(skip_reason(future), SkipReason::NotOld);
}

#[test]
fn non_files_are_skipped_without_resolution() {
    let req = request("ctime", "0", None, &["stdout"]);
    let outcome = evaluate_entry(&req, 1_000, false, "somedir", &mtimes(0));
    assert_eq!(skip_reason(outcome), SkipReason::NotFile);
}

#[test]
fn missing_attribute_skips_only_that_file() {
    let req = request("ctime", "10", None, &["stdout"]);
    let now: u64 = 1_000_000;
    let no_ctime = FileTimes {
        atime: Some(now),
        ctime: None,
        mtime: Some(now),
    };
    let broken = evaluate_entry(&req, now, true, "broken.txt", &no_ctime);
    assert_eq!(skip_reason(broken), SkipReason::AttributeUnavailable);
    let sibling = FileTimes {
        atime: None,
        ctime: Some(now - 11),
        mtime: None,
    };
    let reported = evaluate_entry(&req, now, true, "sibling.txt", &sibling);
    assert!(matches!(reported, Outcome::Report { .. }));
}

#[test]
fn pattern_excludes_regardless_of_age() {
    let req = request("mtime", "10", Some("keep"), &["stdout"]);
    let now: u64 = 1_000_000;
    let excluded = evaluate_entry(&req, now, true, "drop.txt", &mtimes(0));
    assert_eq!(skip_reason(excluded), SkipReason::PatternMismatch);
    let kept = evaluate_entry(&req, now, true, "keep.txt", &mtimes(0));
    assert!(matches!(kept, Outcome::Report { .. }));
}

#[test]
fn report_carries_one_line_per_sink_in_order() {
    let req = request("mtime", "5", None, &["csv", "stderr"]);
    let now: u64 = 2_000;
    match evaluate_entry(&req, now, true, "a/b.txt", &mtimes(now - 10)) {
        Outcome::Report { record, lines } => {
            assert_eq!(record.age_secs, 10);
            assert_eq!(record.threshold_secs, 5);
            assert_eq!(record.rel_path, "a/b.txt");
            assert_eq!(lines.len(), 2);
            assert_eq!(lines[0].dest, Dest::Stdout);
            assert_eq!(lines[0].text, "\"mtime\";5;\"a/b.txt\";10");
            assert_eq!(lines[1].dest, Dest::Stderr);
        },
        Outcome::Skip(_) => panic!("expected a report"),
    }
}

#[test]
fn end_to_end_only_the_old_file_is_reported() {
    let req = request("mtime", "1d", None, &["stdout"]);
    assert_eq!(req.threshold_secs, 86400);
    let now: u64 = 10_000_000;
    let old = evaluate_entry(
        &req,
        now,
        true,
        "old.txt",
        &mtimes(now - 100 * 86400),
    );
    let new = evaluate_entry(&req, now, true, "new.txt", &mtimes(now - 3600));
    let mut reported: Vec<String> = Vec::new();
    for outcome in [old, new] {
        if let Outcome::Report { lines, .. } = outcome {
            for line in lines {
                reported.push(line.text);
            }
        }
    }
    assert_eq!(reported.len(), 1);
    assert!(reported[0].contains("old.txt"));
    assert!(!reported[0].contains("new.txt"));
}

#[test]
fn configuration_errors_are_reported_by_kind() {
    assert_eq!(
        configure("birthtime", "0", None, &ids(&["stdout"])).err(),
        Some(ConfigError::UnknownAttribute)
    );
    assert_eq!(
        configure("mtime", "soon", None, &ids(&["stdout"])).err(),
        Some(ConfigError::BadOffset)
    );
    assert_eq!(
        configure("mtime", "0", None, &ids(&["stdout", "socket"])).err(),
        Some(ConfigError::UnknownSink)
    );
    assert_eq!(
        configure("mtime", "0", Some("(bad"), &ids(&["stdout"])).err(),
        Some(ConfigError::BadPattern)
    );
    assert_eq!(
        ConfigError::BadOffset.describe(),
        "bad time offset"
    );
}

#[test]
fn attribute_names_are_matched_exactly() {
    assert_eq!(
        configure("MTIME", "0", None, &ids(&["stdout"])).err(),
        Some(ConfigError::UnknownAttribute)
    );
}
