use cargo_test_fuzz::cargo_build::{build_args, build_executables};
use cargo_test_fuzz::opts::TestFuzz;
use cargo_test_fuzz::run::{
    dir_kind, entry_args, entry_env, entry_test, fuzz_args, fuzz_env, is_bookkeeping_file, plan,
    Action, DirKind, EntryReport, EntrySummary, EntryTally, Step,
};
use cargo_test_fuzz::targets::TargetError;

fn opts() -> TestFuzz {
    TestFuzz {
        backtrace: false,
        display_corpus: false,
        display_corpus_instrumented: false,
        display_crashes: false,
        display_queue: false,
        exact: false,
        list: false,
        resume: false,
        no_instrumentation: false,
        no_run: false,
        no_ui: false,
        persistent: false,
        pretty_print: false,
        package: None,
        replay_corpus: false,
        replay_corpus_instrumented: false,
        replay_crashes: false,
        replay_queue: false,
        target: None,
        args: vec![],
    }
}

fn strings(v: &[&str]) -> Vec<String> {
    v.iter().map(|s| s.to_string()).collect()
}

fn pairs(v: &[(&str, &str)]) -> Vec<(String, String)> {
    v.iter().map(|(a, b)| (a.to_string(), b.to_string())).collect()
}

fn two_executables() -> Vec<(String, String, Vec<String>)> {
    vec![
        ("/t/a".to_string(), "a".to_string(), strings(&["parse", "print"])),
        ("/t/b".to_string(), "b".to_string(), strings(&["decode"])),
    ]
}

#[test]
fn build_args_default_and_full() {
    assert_eq!(
        build_args(&opts()),
        strings(&["afl", "test", "--no-run", "--message-format=json"])
    );
    let mut o = opts();
    o.no_instrumentation = true;
    o.package = Some("pkg".to_string());
    o.persistent = true;
    assert_eq!(
        build_args(&o),
        strings(&[
            "test",
            "--no-run",
            "--package",
            "pkg",
            "--features",
            "test-fuzz/persistent",
            "--message-format=json"
        ])
    );
}

const ARTIFACT_TEST: &str = r#"{"reason":"compiler-artifact","package_id":"foo 0.1.0 (path+file:///p)","manifest_path":"/p/Cargo.toml","target":{"kind":["lib"],"crate_types":["lib"],"name":"foo","src_path":"/p/src/lib.rs","edition":"2021","doctest":true,"test":true},"profile":{"opt_level":"0","debuginfo":2,"debug_assertions":true,"overflow_checks":true,"test":true},"features":[],"filenames":["/p/target/debug/deps/foo-abc"],"executable":"/p/target/debug/deps/foo-abc","fresh":false}"#;

const ARTIFACT_LIB: &str = r#"{"reason":"compiler-artifact","package_id":"foo 0.1.0 (path+file:///p)","manifest_path":"/p/Cargo.toml","target":{"kind":["lib"],"crate_types":["lib"],"name":"foo","src_path":"/p/src/lib.rs","edition":"2021","doctest":true,"test":true},"profile":{"opt_level":"0","debuginfo":2,"debug_assertions":true,"overflow_checks":true,"test":false},"features":[],"filenames":["/p/target/debug/libfoo.rlib"],"executable":null,"fresh":false}"#;

#[test]
fn build_keeps_test_executables_only() {
    let stdout = format!(
        "{}\n{}\nnot json at all\n{{\"reason\":\"build-finished\",\"success\":true}}\n",
        ARTIFACT_LIB, ARTIFACT_TEST
    );
    let r = build_executables(stdout.as_bytes()).ok().unwrap();
    assert_eq!(
        r,
        vec![("/p/target/debug/deps/foo-abc".to_string(), "foo".to_string())]
    );
}

#[test]
fn build_fails_on_unreadable_output() {
    let bytes: &[u8] = &[0xff, 0xfe, b'\n'];
    assert!(build_executables(bytes).is_err());
    assert_eq!(build_executables(b"").ok().unwrap(), vec![]);
}

#[test]
fn plan_lists_the_selected_executables() {
    let mut o = opts();
    o.list = true;
    o.target = Some("pr".to_string());
    match plan(&o, two_executables()).ok().unwrap() {
        Step::List { executable_targets } => assert_eq!(
            executable_targets,
            vec![("/t/a".to_string(), "a".to_string(), strings(&["print"]))]
        ),
        _ => panic!("expected a listing"),
    }
}

#[test]
fn plan_stops_after_building() {
    let mut o = opts();
    o.no_run = true;
    assert!(matches!(plan(&o, vec![]).ok().unwrap(), Step::Built));
}

#[test]
fn plan_fuzzes_the_one_target() {
    let mut o = opts();
    o.target = Some("decode".to_string());
    match plan(&o, two_executables()).ok().unwrap() {
        Step::Fuzz { executable, krate, target } => {
            assert_eq!(executable, "/t/b");
            assert_eq!(krate, "b");
            assert_eq!(target, "decode");
        }
        _ => panic!("expected fuzzing"),
    }
}

#[test]
fn plan_displays_and_replays() {
    let mut o = opts();
    o.target = Some("decode".to_string());
    o.display_crashes = true;
    match plan(&o, two_executables()).ok().unwrap() {
        Step::ForEachEntry { action, dir, target, .. } => {
            assert_eq!(action, Action::Display);
            assert_eq!(dir, DirKind::Crashes);
            assert_eq!(target, "decode");
        }
        _ => panic!("expected display"),
    }
    let mut o = opts();
    o.target = Some("decode".to_string());
    o.replay_queue = true;
    match plan(&o, two_executables()).ok().unwrap() {
        Step::ForEachEntry { action, dir, .. } => {
            assert_eq!(action, Action::Replay);
            assert_eq!(dir, DirKind::Queue);
        }
        _ => panic!("expected replay"),
    }
    let mut o = opts();
    o.target = Some("decode".to_string());
    o.no_instrumentation = true;
    assert!(matches!(plan(&o, two_executables()).ok().unwrap(), Step::NoInstrumentation));
}

#[test]
fn plan_fails_without_a_single_executable() {
    match plan(&opts(), two_executables()) {
        Err(TargetError::MultipleExecutables { match_message, .. }) => assert_eq!(match_message, ""),
        _ => panic!("expected multiple executables"),
    }
    let mut o = opts();
    o.target = Some("zzz".to_string());
    o.exact = true;
    match plan(&o, two_executables()) {
        Err(TargetError::NoFuzzTargets { match_message }) => {
            assert_eq!(match_message, " equal to `zzz`")
        }
        _ => panic!("expected no targets"),
    }
}

#[test]
fn directory_kinds() {
    let mut o = opts();
    assert_eq!(dir_kind(&o), DirKind::Unset);
    o.display_corpus_instrumented = true;
    assert_eq!(dir_kind(&o), DirKind::Corpus);
    let mut o = opts();
    o.replay_crashes = true;
    assert_eq!(dir_kind(&o), DirKind::Crashes);
    // Replaying the corpus with instrumentation replays the corpus.
    let mut o = opts();
    o.replay_corpus_instrumented = true;
    assert_eq!(dir_kind(&o), DirKind::Corpus);
}

#[test]
fn entry_environment_and_arguments() {
    assert_eq!(
        entry_env(&opts(), Action::Display),
        pairs(&[("TEST_FUZZ", "1"), ("TEST_FUZZ_DISPLAY", "1")])
    );
    let mut o = opts();
    o.backtrace = true;
    o.pretty_print = true;
    assert_eq!(
        entry_env(&o, Action::Replay),
        pairs(&[
            ("TEST_FUZZ", "1"),
            ("RUST_BACKTRACE", "1"),
            ("TEST_FUZZ_REPLAY", "1"),
            ("TEST_FUZZ_PRETTY_PRINT", "1")
        ])
    );
    assert_eq!(
        entry_args("qux::decode"),
        strings(&["--exact", "qux::decode_fuzz::entry", "--nocapture"])
    );
    assert_eq!(entry_test("t"), "t_fuzz::entry");
}

#[test]
fn bookkeeping_files_are_skipped() {
    assert!(is_bookkeeping_file("README.txt"));
    assert!(is_bookkeeping_file(".state"));
    assert!(!is_bookkeeping_file("id:000000"));
    assert!(!is_bookkeeping_file("README.txt~"));
}

#[test]
fn tally_of_no_entries() {
    let t = EntryTally::new();
    assert_eq!(t.finish(Action::Display), EntrySummary::NothingTo(Action::Display));
    assert_eq!(t.finish(Action::Replay), EntrySummary::NothingTo(Action::Replay));
}

#[test]
fn tally_outcomes() {
    let mut t = EntryTally::new();
    assert_eq!(t.record(true, true), EntryReport::Status);
    assert_eq!(t.finish(Action::Replay), EntrySummary::NoStderrOutput);
    assert_eq!(t.record(true, false), EntryReport::Stderr);
    assert_eq!(t.finish(Action::Replay), EntrySummary::Done);
    let mut t = EntryTally::new();
    t.record(false, true);
    assert_eq!(t.finish(Action::Display), EntrySummary::DisplayFailure);
    assert_eq!(t.finish(Action::Replay), EntrySummary::Done);
}

#[test]
fn fuzz_environment_and_arguments() {
    assert_eq!(fuzz_env(&opts()), pairs(&[("TEST_FUZZ", "1")]));
    let mut o = opts();
    o.no_ui = true;
    assert_eq!(fuzz_env(&o), pairs(&[("TEST_FUZZ", "1"), ("AFL_NO_UI", "1")]));
    o.args = strings(&["-V", "10"]);
    assert_eq!(
        fuzz_args(&o, "/c", "/o", "/t/a", "parse"),
        strings(&[
            "afl", "fuzz", "-i", "/c", "-o", "/o", "-V", "10", "--", "/t/a", "--exact",
            "parse_fuzz::entry"
        ])
    );
    o.resume = true;
    o.args = vec![];
    assert_eq!(
        fuzz_args(&o, "/c", "/o", "/t/a", "parse"),
        strings(&["afl", "fuzz", "-i", "-", "-o", "/o", "--", "/t/a", "--exact", "parse_fuzz::entry"])
    );
}

#[test]
fn plan_replays_the_corpus_with_instrumentation() {
    let mut o = opts();
    o.target = Some("decode".to_string());
    o.replay_corpus_instrumented = true;
    match plan(&o, two_executables()).ok().unwrap() {
        Step::ForEachEntry { action, dir, .. } => {
            assert_eq!(action, Action::Replay);
            assert_eq!(dir, DirKind::Corpus);
        }
        _ => panic!("expected replay"),
    }
}

#[test]
fn plan_filters_before_choosing() {
    let mut o = opts();
    o.target = Some("decode".to_string());
    let ets = vec![
        ("/t/a".to_string(), "a".to_string(), vec![]),
        ("/t/b".to_string(), "b".to_string(), strings(&["decode"])),
    ];
    assert!(matches!(plan(&o, ets).ok().unwrap(), Step::Fuzz { .. }));
}

#[test]
fn build_refuses_too_deeply_nested_lines() {
    let mut line = String::from("{\"a\":");
    line.push_str(&"[".repeat(100_000));
    match build_executables(line.as_bytes()) {
        Err(cargo_test_fuzz::cargo_build::BuildError::TooDeeplyNested) => {}
        _ => panic!("expected the nesting to be refused"),
    }
    // Many brackets spread over lines are fine.
    let mut many = String::new();
    for _ in 0..2000 {
        many.push_str("[]\n");
    }
    assert_eq!(build_executables(many.as_bytes()).ok().unwrap(), vec![]);
    let exactly = "[".repeat(1024);
    assert!(build_executables(exactly.as_bytes()).is_ok());
    let over = "[".repeat(1025);
    assert!(build_executables(over.as_bytes()).is_err());
}
