use cargo_test_fuzz::opts::{normalize_opts, TestFuzz};
use cargo_test_fuzz::targets::{
    executable_target, executable_targets, filter_executable_targets, filter_targets,
    match_message, targets, TargetError, TestListing,
};

fn opts() -> TestFuzz {
    TestFuzz {
        backtrace: false,
        display_corpus: false,
        display_corpus_instrumented: false,
        display_crashes: false,
        display_queue: false,
        exact: false,
        list: false,
        resume: false,
        no_instrumentation: false,
        no_run: false,
        no_ui: false,
        persistent: false,
        pretty_print: false,
        package: None,
        replay_corpus: false,
        replay_corpus_instrumented: false,
        replay_crashes: false,
        replay_queue: false,
        target: None,
        args: vec![],
    }
}

fn strings(v: &[&str]) -> Vec<String> {
    v.iter().map(|s| s.to_string()).collect()
}

fn listing(exe: &str, krate: &str, lines: &[&str], complete: bool) -> TestListing {
    TestListing {
        executable: exe.to_string(),
        krate: krate.to_string(),
        lines: strings(lines),
        complete,
    }
}

#[test]
fn targets_are_read_up_to_the_blank_line() {
    let lines = strings(&[
        "parse_fuzz::entry: test",
        "tests::other: test",
        "qux::decode_fuzz::entry: test",
        "bench_fuzz::entry: bench",
        "",
        "late_fuzz::entry: test",
        "3 tests, 1 benchmark",
    ]);
    assert_eq!(
        targets(&lines, true),
        Some(strings(&["parse", "qux::decode"]))
    );
    // Reading stopped after the blank line: the listing is still whole.
    assert_eq!(targets(&lines, false), Some(strings(&["parse", "qux::decode"])));
}

#[test]
fn targets_fail_when_reading_stops_before_the_blank_line() {
    let lines = strings(&["parse_fuzz::entry: test"]);
    assert_eq!(targets(&lines, false), None);
    assert_eq!(targets(&lines, true), Some(strings(&["parse"])));
    assert_eq!(targets(&vec![], true), Some(vec![]));
}

#[test]
fn a_suffix_alone_is_an_empty_target_name() {
    let lines = strings(&["_fuzz::entry: test", "x_fuzz::entry:test", ""]);
    assert_eq!(targets(&lines, true), Some(strings(&[""])));
}

#[test]
fn executables_without_targets_are_dropped() {
    let ls = vec![
        listing("/t/a", "a", &["foo_fuzz::entry: test", ""], true),
        listing("/t/b", "b", &["plain: test", ""], true),
        listing("/t/c", "c", &["bar_fuzz::entry: test", "baz_fuzz::entry: test"], true),
    ];
    let r = executable_targets(&ls).ok().unwrap();
    assert_eq!(
        r,
        vec![
            ("/t/a".to_string(), "a".to_string(), strings(&["foo"])),
            ("/t/c".to_string(), "c".to_string(), strings(&["bar", "baz"])),
        ]
    );
}

#[test]
fn the_first_unreadable_listing_is_reported() {
    let ls = vec![
        listing("/t/a", "a", &["foo_fuzz::entry: test"], true),
        listing("/t/b", "b", &["x"], false),
        listing("/t/c", "c", &["y"], false),
    ];
    assert_eq!(executable_targets(&ls).err().unwrap().index, 1);
}

#[test]
fn filtering_by_substring_and_exactly() {
    let ts = strings(&["parse", "parse_all", "other", "reparse"]);
    let mut o = opts();
    assert_eq!(filter_targets(&o, "parse", &ts), strings(&["parse", "parse_all", "reparse"]));
    o.exact = true;
    assert_eq!(filter_targets(&o, "parse", &ts), strings(&["parse"]));
    assert_eq!(filter_targets(&o, "pars", &ts), Vec::<String>::new());
    o.exact = false;
    assert_eq!(filter_targets(&o, "", &ts), ts);
}

#[test]
fn filtering_twice_is_filtering_once() {
    let ts = strings(&["ab", "abc", "xabx", "b"]);
    let o = opts();
    let once = filter_targets(&o, "ab", &ts);
    assert_eq!(filter_targets(&o, "ab", &once), once);
}

#[test]
fn filtering_executables_drops_those_left_empty() {
    let ets = vec![
        ("/t/a".to_string(), "a".to_string(), strings(&["foo", "bar"])),
        ("/t/b".to_string(), "b".to_string(), strings(&["baz"])),
    ];
    let r = filter_executable_targets(&opts(), "ba", &ets);
    assert_eq!(
        r,
        vec![
            ("/t/a".to_string(), "a".to_string(), strings(&["bar"])),
            ("/t/b".to_string(), "b".to_string(), strings(&["baz"])),
        ]
    );
    let r = filter_executable_targets(&opts(), "foo", &ets);
    assert_eq!(r, vec![("/t/a".to_string(), "a".to_string(), strings(&["foo"]))]);
}

#[test]
fn match_message_words() {
    let mut o = opts();
    assert_eq!(match_message(&o), "");
    o.target = Some("parse".to_string());
    assert_eq!(match_message(&o), " containing `parse`");
    o.exact = true;
    assert_eq!(match_message(&o), " equal to `parse`");
}

#[test]
fn one_target_is_chosen() {
    let ets = vec![("/t/a".to_string(), "a".to_string(), strings(&["foo"]))];
    assert_eq!(
        executable_target(&opts(), &ets).ok().unwrap(),
        ("/t/a".to_string(), "a".to_string(), "foo".to_string())
    );
    // Two targets in the one executable still choose the first.
    let ets = vec![("/t/a".to_string(), "a".to_string(), strings(&["foo", "bar"]))];
    assert_eq!(executable_target(&opts(), &ets).ok().unwrap().2, "foo");
}

#[test]
fn choosing_fails_on_none_or_too_many() {
    let mut o = opts();
    o.target = Some("x".to_string());
    match executable_target(&o, &[]) {
        Err(TargetError::NoFuzzTargets { match_message }) => {
            assert_eq!(match_message, " containing `x`")
        }
        _ => panic!("expected no fuzz targets"),
    }
    let ets = vec![
        ("/t/a".to_string(), "a".to_string(), strings(&["x1"])),
        ("/t/b".to_string(), "b".to_string(), strings(&["x2"])),
    ];
    match executable_target(&o, &ets) {
        Err(TargetError::MultipleExecutables { executable_targets, .. }) => {
            assert_eq!(executable_targets, ets)
        }
        _ => panic!("expected multiple executables"),
    }
    let ets = vec![("/t/a".to_string(), "a".to_string(), strings(&["x1", "x2", "x3"]))];
    match executable_target(&o, &ets) {
        Err(TargetError::MultipleTargets { executable, krate, targets, match_message }) => {
            assert_eq!(executable, "/t/a");
            assert_eq!(krate, "a");
            assert_eq!(targets, strings(&["x1", "x2", "x3"]));
            assert_eq!(match_message, " containing `x`");
        }
        _ => panic!("expected multiple targets"),
    }
}

#[test]
fn corpus_display_and_replay_imply_no_instrumentation() {
    let mut o = opts();
    o.display_corpus = true;
    assert!(normalize_opts(o).no_instrumentation);
    let mut o = opts();
    o.replay_corpus = true;
    assert!(normalize_opts(o).no_instrumentation);
    let mut o = opts();
    o.display_crashes = true;
    assert!(!normalize_opts(o).no_instrumentation);
}
