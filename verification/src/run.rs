use vstd::prelude::*;

use crate::cargo_build::push_str;
use crate::opts::TestFuzz;
use crate::targets::{
    ENTRY_SUFFIX, line_target, ExecutableTargets, TargetError, executable_target, filter_executable_targets,
    filtered_executable_targets, target_choice, target_view,
};

verus! {

/// What is done with each entry of a fuzzing directory.
#[derive(Clone, Copy, Debug, PartialEq, Eq, Structural)]
pub enum Action {
    Display,
    Replay,
}

/// The directory of a fuzz target whose entries are displayed or replayed.
#[derive(Clone, Copy, Debug, PartialEq, Eq, Structural)]
pub enum DirKind {
    Corpus,
    Crashes,
    Queue,
    /// No directory was asked for: the empty path.
    Unset,
}

/// What `cargo test-fuzz` does once the test executables are known.
pub enum Step {
    /// Print the executables and their fuzz targets, and stop.
    List { executable_targets: Vec<ExecutableTargets> },
    /// Stop after building (`--no-run`).
    Built,
    /// Run the target on each entry of one of its directories.
    ForEachEntry {
        executable: String,
        krate: String,
        target: String,
        action: Action,
        dir: DirKind,
    },
    /// Stop before fuzzing, since the target was built without instrumentation.
    NoInstrumentation,
    /// Fuzz the target.
    Fuzz { executable: String, krate: String, target: String },
}

pub enum StepView {
    List(Seq<(Seq<char>, Seq<char>, Seq<Seq<char>>)>),
    Built,
    ForEachEntry {
        executable: Seq<char>,
        krate: Seq<char>,
        target: Seq<char>,
        action: Action,
        dir: DirKind,
    },
    NoInstrumentation,
    Fuzz { executable: Seq<char>, krate: Seq<char>, target: Seq<char> },
}

impl View for Step {
    type V = StepView;

    open spec fn view(&self) -> StepView {
        match self {
            Step::List { executable_targets } => StepView::List(executable_targets.deep_view()),
            Step::Built => StepView::Built,
            Step::ForEachEntry { executable, krate, target, action, dir } => StepView::ForEachEntry {
                executable: executable@,
                krate: krate@,
                target: target@,
                action: *action,
                dir: *dir,
            },
            Step::NoInstrumentation => StepView::NoInstrumentation,
            Step::Fuzz { executable, krate, target } => StepView::Fuzz {
                executable: executable@,
                krate: krate@,
                target: target@,
            },
        }
    }
}

/// What running the target on the entries of a directory came to.
#[derive(Clone, Copy, Debug, PartialEq, Eq, Structural)]
pub enum EntrySummary {
    /// The directory held no entries.
    NothingTo(Action),
    /// No run failed and none wrote to stderr.
    NoStderrOutput,
    /// A run failed while only displaying.
    DisplayFailure,
    /// Some runs wrote to stderr or failed while replaying.
    Done,
}

/// How one entry's run is reported.
#[derive(Clone, Copy, Debug, PartialEq, Eq, Structural)]
pub enum EntryReport {
    /// The run wrote nothing to stderr: show its exit status.
    Status,
    /// Show what the run wrote to stderr.
    Stderr,
}

// ---------------------------------------------------------------------------
// Specifications
// ---------------------------------------------------------------------------

pub open spec fn display_requested(opts: TestFuzz) -> bool {
    opts.display_corpus || opts.display_corpus_instrumented || opts.display_crashes
        || opts.display_queue
}

pub open spec fn replay_requested(opts: TestFuzz) -> bool {
    opts.replay_corpus || opts.replay_corpus_instrumented || opts.replay_crashes
        || opts.replay_queue
}

/// The directory whose entries are displayed or replayed.
pub open spec fn dir_kind_spec(opts: TestFuzz) -> DirKind {
    if opts.display_corpus || opts.display_corpus_instrumented || opts.replay_corpus
        || opts.replay_corpus_instrumented {
        DirKind::Corpus
    } else if opts.display_crashes || opts.replay_crashes {
        DirKind::Crashes
    } else if opts.display_queue || opts.replay_queue {
        DirKind::Queue
    } else {
        DirKind::Unset
    }
}

/// The executables left to choose from: those matching the target pattern, if any.
pub open spec fn selected(opts: TestFuzz, ets: Seq<(Seq<char>, Seq<char>, Seq<Seq<char>>)>) -> Seq<
    (Seq<char>, Seq<char>, Seq<Seq<char>>),
> {
    match target_view(opts) {
        Some(pat) => filtered_executable_targets(opts.exact, pat, ets),
        None => ets,
    }
}

/// What is done with the one chosen target.
pub open spec fn target_step(
    opts: TestFuzz,
    executable: Seq<char>,
    krate: Seq<char>,
    target: Seq<char>,
) -> StepView {
    if display_requested(opts) {
        StepView::ForEachEntry { executable, krate, target, action: Action::Display, dir: dir_kind_spec(opts) }
    } else if replay_requested(opts) {
        StepView::ForEachEntry { executable, krate, target, action: Action::Replay, dir: dir_kind_spec(opts) }
    } else if opts.no_instrumentation {
        StepView::NoInstrumentation
    } else {
        StepView::Fuzz { executable, krate, target }
    }
}

/// The name of a fuzz target's entry test.
pub open spec fn entry_test_name(target: Seq<char>) -> Seq<char> {
    target + ENTRY_SUFFIX@
}

pub open spec fn entry_env_spec(opts: TestFuzz, action: Action) -> Seq<(Seq<char>, Seq<char>)> {
    seq![("TEST_FUZZ"@, "1"@)] + (if opts.backtrace {
        seq![("RUST_BACKTRACE"@, "1"@)]
    } else {
        Seq::empty()
    }) + seq![
        (match action {
            Action::Display => "TEST_FUZZ_DISPLAY"@,
            Action::Replay => "TEST_FUZZ_REPLAY"@,
        }, "1"@),
    ] + (if opts.pretty_print {
        seq![("TEST_FUZZ_PRETTY_PRINT"@, "1"@)]
    } else {
        Seq::empty()
    })
}

pub open spec fn entry_args_spec(target: Seq<char>) -> Seq<Seq<char>> {
    seq!["--exact"@, entry_test_name(target), "--nocapture"@]
}

pub open spec fn fuzz_env_spec(opts: TestFuzz) -> Seq<(Seq<char>, Seq<char>)> {
    seq![("TEST_FUZZ"@, "1"@)] + (if opts.no_ui {
        seq![("AFL_NO_UI"@, "1"@)]
    } else {
        Seq::empty()
    })
}

pub open spec fn fuzz_args_spec(
    opts: TestFuzz,
    corpus: Seq<char>,
    output: Seq<char>,
    executable: Seq<char>,
    target: Seq<char>,
) -> Seq<Seq<char>> {
    seq![
        "afl"@,
        "fuzz"@,
        "-i"@,
        if opts.resume {
            "-"@
        } else {
            corpus
        },
        "-o"@,
        output,
    ] + opts.args.deep_view() + seq!["--"@, executable, "--exact"@, entry_test_name(target)]
}

// ---------------------------------------------------------------------------
// Choosing what to do
// ---------------------------------------------------------------------------

/// The directory whose entries `--display-*` or `--replay-*` work on.
pub fn dir_kind(opts: &TestFuzz) -> (r: DirKind)
    ensures
        r == dir_kind_spec(*opts),
{
    if opts.display_corpus || opts.display_corpus_instrumented || opts.replay_corpus
        || opts.replay_corpus_instrumented {
        DirKind::Corpus
    } else if opts.display_crashes || opts.replay_crashes {
        DirKind::Crashes
    } else if opts.display_queue || opts.replay_queue {
        DirKind::Queue
    } else {
        DirKind::Unset
    }
}

/// What `cargo test-fuzz` does with the executables that hold fuzz targets:
/// narrow them to the target pattern, list them, stop after building, or
/// choose the one target and display, replay or fuzz it.
pub fn plan(opts: &TestFuzz, executable_targets: Vec<ExecutableTargets>) -> (r: Result<
    Step,
    TargetError,
>)
    requires
        selected(*opts, executable_targets.deep_view()).len() == 1 ==> selected(
            *opts,
            executable_targets.deep_view(),
        )[0].2.len() > 0,
    ensures
        opts.list ==> (r matches Ok(s) && s@ == StepView::List(
            selected(*opts, executable_targets.deep_view()),
        )),
        !opts.list && opts.no_run ==> (r matches Ok(s) && s@ == StepView::Built),
        !opts.list && !opts.no_run ==> {
            let sel = selected(*opts, executable_targets.deep_view());
            match r {
                Ok(s) => {
                    &&& sel.len() == 1
                    &&& sel[0].2.len() <= 2
                    &&& s@ == target_step(*opts, sel[0].0, sel[0].1, sel[0].2[0])
                },
                Err(e) => target_choice(*opts, sel, Err(e)),
            }
        },
        !opts.list && !opts.no_run ==> (r is Ok <==> {
            let sel = selected(*opts, executable_targets.deep_view());
            sel.len() == 1 && sel[0].2.len() <= 2
        }),
        !opts.list && !opts.no_run && r is Ok ==> {
            let step = r->Ok_0@;
            let displaying = opts.display_corpus || opts.display_corpus_instrumented
                || opts.display_crashes || opts.display_queue;
            let replaying = opts.replay_corpus || opts.replay_corpus_instrumented
                || opts.replay_crashes || opts.replay_queue;
            &&& displaying ==> (step matches StepView::ForEachEntry { action, .. } && action
                == Action::Display)
            &&& (!displaying && replaying) ==> (step matches StepView::ForEachEntry { action, .. }
                && action == Action::Replay)
            &&& step is NoInstrumentation <==> (!displaying && !replaying && opts.no_instrumentation)
            &&& step is Fuzz <==> (!displaying && !replaying && !opts.no_instrumentation)
        },
{
    let executable_targets = match &opts.target {
        Some(pat) => filter_executable_targets(opts, pat.as_str(), executable_targets.as_slice()),
        None => executable_targets,
    };
    if opts.list {
        return Ok(Step::List { executable_targets });
    }
    if opts.no_run {
        return Ok(Step::Built);
    }
    let chosen = executable_target(opts, executable_targets.as_slice());
    proof {
        if chosen is Ok {
            let t = chosen->Ok_0;
            requested_action_is_taken(*opts, t.0@, t.1@, t.2@);
        }
    }
    match chosen {
        Err(e) => Err(e),
        Ok((executable, krate, target)) => {
            let display = opts.display_corpus || opts.display_corpus_instrumented
                || opts.display_crashes || opts.display_queue;
            let replay = opts.replay_corpus || opts.replay_corpus_instrumented || opts.replay_crashes
                || opts.replay_queue;
            let dir = dir_kind(opts);
            if display {
                Ok(Step::ForEachEntry { executable, krate, target, action: Action::Display, dir })
            } else if replay {
                Ok(Step::ForEachEntry { executable, krate, target, action: Action::Replay, dir })
            } else if opts.no_instrumentation {
                Ok(Step::NoInstrumentation)
            } else {
                Ok(Step::Fuzz { executable, krate, target })
            }
        },
    }
}

// ---------------------------------------------------------------------------
// Displaying and replaying entries
// ---------------------------------------------------------------------------

fn push_pair(v: &mut Vec<(String, String)>, k: &str, x: &str)
    ensures
        final(v).deep_view() == old(v).deep_view().push((k@, x@)),
{
    let ghost before = v.deep_view();
    v.push((k.to_owned(), x.to_owned()));
    assert(v.deep_view() =~= before.push((k@, x@)));
}

/// The name of a fuzz target's entry test: the target name followed by
/// `_fuzz::entry`.
pub fn entry_test(target: &str) -> (r: String)
    ensures
        r@ == entry_test_name(target@),
{
    let mut name = target.to_owned();
    name.append(ENTRY_SUFFIX);
    name
}

/// The environment under which the target runs on each entry: test-fuzz
/// enabled, backtraces and pretty printing where asked for, and the action.
pub fn entry_env(opts: &TestFuzz, action: Action) -> (r: Vec<(String, String)>)
    ensures
        r.deep_view() == entry_env_spec(*opts, action),
        r.deep_view().contains(("TEST_FUZZ"@, "1"@)),
        opts.backtrace <==> r.deep_view().contains(("RUST_BACKTRACE"@, "1"@)),
        opts.pretty_print <==> r.deep_view().contains(("TEST_FUZZ_PRETTY_PRINT"@, "1"@)),
        (action == Action::Display) <==> r.deep_view().contains(("TEST_FUZZ_DISPLAY"@, "1"@)),
        (action == Action::Replay) <==> r.deep_view().contains(("TEST_FUZZ_REPLAY"@, "1"@)),
{
    let mut env: Vec<(String, String)> = Vec::new();
    push_pair(&mut env, "TEST_FUZZ", "1");
    if opts.backtrace {
        push_pair(&mut env, "RUST_BACKTRACE", "1");
    }
    match action {
        Action::Display => push_pair(&mut env, "TEST_FUZZ_DISPLAY", "1"),
        Action::Replay => push_pair(&mut env, "TEST_FUZZ_REPLAY", "1"),
    }
    if opts.pretty_print {
        push_pair(&mut env, "TEST_FUZZ_PRETTY_PRINT", "1");
    }
    assert(env.deep_view() =~= entry_env_spec(*opts, action));
    proof {
        entry_env_sets_what_is_asked(*opts, action);
    }
    env
}

/// The arguments that run exactly the target's entry test, showing its output.
pub fn entry_args(target: &str) -> (r: Vec<String>)
    ensures
        r.deep_view() == entry_args_spec(target@),
        r.len() == 3,
        r.deep_view()[0] == "--exact"@,
        r.deep_view()[1] == target@ + ENTRY_SUFFIX@,
        r.deep_view()[2] == "--nocapture"@,
{
    let mut args: Vec<String> = Vec::new();
    push_str(&mut args, "--exact");
    let name = entry_test(target);
    push_str(&mut args, name.as_str());
    push_str(&mut args, "--nocapture");
    assert(args.deep_view() =~= entry_args_spec(target@));
    args
}

/// Whether a file of a fuzzing directory is bookkeeping rather than an entry.
pub fn is_bookkeeping_file(file_name: &str) -> (r: bool)
    ensures
        r == (file_name@ == "README.txt"@ || file_name@ == ".state"@),
{
    crate::text::str_eq(file_name, "README.txt") || crate::text::str_eq(file_name, ".state")
}

/// What the runs on a directory's entries have come to so far.
pub struct EntryTally {
    nonempty: bool,
    failure: bool,
    output: bool,
}

pub struct EntryTallyView {
    pub nonempty: bool,
    pub failure: bool,
    pub output: bool,
}

impl View for EntryTally {
    type V = EntryTallyView;

    closed spec fn view(&self) -> EntryTallyView {
        EntryTallyView { nonempty: self.nonempty, failure: self.failure, output: self.output }
    }
}

impl EntryTally {
    /// No run can have failed or written output before any entry was run.
    #[verifier::type_invariant]
    closed spec fn inv(self) -> bool {
        !self.nonempty ==> !self.failure && !self.output
    }

    /// The tally before any entry.
    pub fn new() -> (r: EntryTally)
        ensures
            r@ == (EntryTallyView { nonempty: false, failure: false, output: false }),
    {
        EntryTally { nonempty: false, failure: false, output: false }
    }

    /// Counts one entry's run: whether it exited successfully and whether it
    /// wrote nothing to stderr; says how to report the run.
    pub fn record(&mut self, success: bool, stderr_empty: bool) -> (r: EntryReport)
        ensures
            final(self)@ == (EntryTallyView {
                nonempty: true,
                failure: old(self)@.failure || !success,
                output: old(self)@.output || !stderr_empty,
            }),
            r == (if stderr_empty {
                EntryReport::Status
            } else {
                EntryReport::Stderr
            }),
    {
        self.nonempty = true;
        self.failure = self.failure || !success;
        if stderr_empty {
            EntryReport::Status
        } else {
            self.output = true;
            EntryReport::Stderr
        }
    }

    /// What the runs came to, once every entry has been run. No run can have
    /// failed or written output where no entry was run.
    pub fn finish(&self, action: Action) -> (r: EntrySummary)
        ensures
            !self@.nonempty ==> !self@.failure && !self@.output,
            r == (if !self@.nonempty {
                EntrySummary::NothingTo(action)
            } else if !self@.failure && !self@.output {
                EntrySummary::NoStderrOutput
            } else if self@.failure && action == Action::Display {
                EntrySummary::DisplayFailure
            } else {
                EntrySummary::Done
            }),
    {
        proof {
            use_type_invariant(self);
        }
        if !self.nonempty {
            EntrySummary::NothingTo(action)
        } else if !self.failure && !self.output {
            EntrySummary::NoStderrOutput
        } else if self.failure && action == Action::Display {
            EntrySummary::DisplayFailure
        } else {
            EntrySummary::Done
        }
    }
}

// ---------------------------------------------------------------------------
// Fuzzing
// ---------------------------------------------------------------------------

/// The environment under which the fuzzer runs: test-fuzz enabled, and afl's
/// user interface off where asked for.
pub fn fuzz_env(opts: &TestFuzz) -> (r: Vec<(String, String)>)
    ensures
        r.deep_view() == fuzz_env_spec(*opts),
        r.deep_view().contains(("TEST_FUZZ"@, "1"@)),
        opts.no_ui <==> r.deep_view().contains(("AFL_NO_UI"@, "1"@)),
{
    let mut env: Vec<(String, String)> = Vec::new();
    push_pair(&mut env, "TEST_FUZZ", "1");
    if opts.no_ui {
        push_pair(&mut env, "AFL_NO_UI", "1");
    }
    assert(env.deep_view() =~= fuzz_env_spec(*opts));
    proof {
        fuzz_env_sets_what_is_asked(*opts);
    }
    env
}

/// The arguments of `cargo afl fuzz`: the corpus as input (or `-` to resume),
/// the output directory, the user's fuzzer arguments, then the executable
/// running exactly the target's entry test.
pub fn fuzz_args(opts: &TestFuzz, corpus: &str, output: &str, executable: &str, target: &str) -> (r:
    Vec<String>)
    ensures
        r.deep_view() == fuzz_args_spec(*opts, corpus@, output@, executable@, target@),
        r.len() == opts.args.len() + 10,
        r.deep_view()[0] == "afl"@ && r.deep_view()[1] == "fuzz"@ && r.deep_view()[2] == "-i"@
            && r.deep_view()[4] == "-o"@,
        r.deep_view()[8 + opts.args.len()] == "--exact"@,
        r.deep_view()[3] == (if opts.resume { "-"@ } else { corpus@ }),
        r.deep_view()[5] == output@,
        r.deep_view().subrange(6, 6 + opts.args.len()) == opts.args.deep_view(),
        r.deep_view()[6 + opts.args.len()] == "--"@,
        r.deep_view()[7 + opts.args.len()] == executable@,
        r.deep_view()[9 + opts.args.len()] == target@ + ENTRY_SUFFIX@,
{
    let mut args: Vec<String> = Vec::new();
    push_str(&mut args, "afl");
    push_str(&mut args, "fuzz");
    push_str(&mut args, "-i");
    push_str(
        &mut args,
        if opts.resume {
            "-"
        } else {
            corpus
        },
    );
    push_str(&mut args, "-o");
    push_str(&mut args, output);
    let ghost a0 = args.deep_view();
    let mut i: usize = 0;
    while i < opts.args.len()
        invariant
            i <= opts.args.len(),
            args.deep_view() == a0 + opts.args.deep_view().take(i as int),
        decreases opts.args.len() - i,
    {
        push_str(&mut args, opts.args[i].as_str());
        assert(opts.args.deep_view().take(i + 1) =~= opts.args.deep_view().take(i as int).push(
            opts.args@[i as int]@,
        ));
        i = i + 1;
    }
    assert(opts.args.deep_view().take(i as int) =~= opts.args.deep_view());
    push_str(&mut args, "--");
    push_str(&mut args, executable);
    push_str(&mut args, "--exact");
    let name = entry_test(target);
    push_str(&mut args, name.as_str());
    assert(args.deep_view() =~= fuzz_args_spec(*opts, corpus@, output@, executable@, target@));
    proof {
        fuzzer_arguments_are_passed_through(*opts, corpus@, output@, executable@, target@);
    }
    args
}

// ---------------------------------------------------------------------------
// Laws
// ---------------------------------------------------------------------------

/// The test that a chosen target's entry is run as, by display, replay and
/// fuzzing alike, is the very test whose `--list` line named the target.
pub proof fn entry_test_names_listed_line(line: Seq<char>)
    requires
        line_target(line) is Some,
    ensures
        entry_test_name(line_target(line).unwrap()) + ": test"@ == line,
{
    let l = line.subrange(0, line.len() - ": test"@.len());
    let t = line_target(line).unwrap();
    assert(t + ENTRY_SUFFIX@ =~= l);
    assert(l + ": test"@ =~= line);
}

/// The `--list` line of a target's entry test names that target.
pub proof fn listed_line_names_target(target: Seq<char>)
    ensures
        line_target(entry_test_name(target) + ": test"@) == Some(target),
{
    let name = entry_test_name(target);
    let line = name + ": test"@;
    assert(line.subrange(line.len() - ": test"@.len(), line.len() as int) =~= ": test"@);
    assert(line.subrange(0, line.len() - ": test"@.len()) =~= name);
    assert(name.subrange(name.len() - ENTRY_SUFFIX@.len(), name.len() as int) =~= ENTRY_SUFFIX@);
    assert(name.subrange(0, name.len() - ENTRY_SUFFIX@.len()) =~= target);
}

/// Displaying takes precedence over replaying, and either runs the target on a
/// directory's entries; the stop for `--no-instrumentation` and fuzzing come
/// only where neither is asked for.
pub proof fn requested_action_is_taken(
    opts: TestFuzz,
    executable: Seq<char>,
    krate: Seq<char>,
    target: Seq<char>,
)
    ensures
        ({
            let step = target_step(opts, executable, krate, target);
            let displaying = opts.display_corpus || opts.display_corpus_instrumented
                || opts.display_crashes || opts.display_queue;
            let replaying = opts.replay_corpus || opts.replay_corpus_instrumented
                || opts.replay_crashes || opts.replay_queue;
            &&& displaying ==> (step matches StepView::ForEachEntry { action, .. } && action
                == Action::Display)
            &&& (!displaying && replaying) ==> (step matches StepView::ForEachEntry { action, .. }
                && action == Action::Replay)
            &&& step is NoInstrumentation <==> (!displaying && !replaying && opts.no_instrumentation)
            &&& step is Fuzz <==> (!displaying && !replaying && !opts.no_instrumentation)
            &&& step matches StepView::ForEachEntry { executable: e, krate: k, target: t, .. } ==> (
            e == executable && k == krate && t == target)
            &&& step matches StepView::Fuzz { executable: e, krate: k, target: t } ==> (e
                == executable && k == krate && t == target)
        }),
{
}

/// Each run on an entry has test-fuzz enabled, says whether it displays or
/// replays, and has backtraces and pretty printing exactly where they were
/// asked for, whichever the action.
pub proof fn entry_env_sets_what_is_asked(opts: TestFuzz, action: Action)
    ensures
        ({
            let env = entry_env_spec(opts, action);
            &&& env.contains(("TEST_FUZZ"@, "1"@))
            &&& opts.backtrace <==> env.contains(("RUST_BACKTRACE"@, "1"@))
            &&& opts.pretty_print <==> env.contains(("TEST_FUZZ_PRETTY_PRINT"@, "1"@))
            &&& (action == Action::Display) <==> env.contains(("TEST_FUZZ_DISPLAY"@, "1"@))
            &&& (action == Action::Replay) <==> env.contains(("TEST_FUZZ_REPLAY"@, "1"@))
        }),
{
    reveal_strlit("TEST_FUZZ");
    reveal_strlit("RUST_BACKTRACE");
    reveal_strlit("TEST_FUZZ_PRETTY_PRINT");
    reveal_strlit("TEST_FUZZ_DISPLAY");
    reveal_strlit("TEST_FUZZ_REPLAY");
    assert("TEST_FUZZ"@.len() == 9);
    assert("RUST_BACKTRACE"@.len() == 14);
    assert("TEST_FUZZ_PRETTY_PRINT"@.len() == 22);
    assert("TEST_FUZZ_DISPLAY"@.len() == 17);
    assert("TEST_FUZZ_REPLAY"@.len() == 16);
    let env = entry_env_spec(opts, action);
    let act = match action {
        Action::Display => "TEST_FUZZ_DISPLAY"@,
        Action::Replay => "TEST_FUZZ_REPLAY"@,
    };
    assert(env[0] == ("TEST_FUZZ"@, "1"@));
    if opts.backtrace {
        assert(env[1] == ("RUST_BACKTRACE"@, "1"@));
    }
    let k: int = if opts.backtrace { 2 } else { 1 };
    assert(env[k] == (act, "1"@));
    if opts.pretty_print {
        assert(env[k + 1] == ("TEST_FUZZ_PRETTY_PRINT"@, "1"@));
    }
    assert(env.len() == k + 1 + if opts.pretty_print { 1int } else { 0int });
    assert forall|i: int| 0 <= i < env.len() implies {
        let e = #[trigger] env[i];
        &&& (e == ("RUST_BACKTRACE"@, "1"@) ==> opts.backtrace)
        &&& (e == ("TEST_FUZZ_PRETTY_PRINT"@, "1"@) ==> opts.pretty_print)
        &&& (e == ("TEST_FUZZ_DISPLAY"@, "1"@) ==> action == Action::Display)
        &&& (e == ("TEST_FUZZ_REPLAY"@, "1"@) ==> action == Action::Replay)
    } by {
        if i == 0 {
        } else if opts.backtrace && i == 1 {
        } else if i == k {
        } else {
            assert(opts.pretty_print && i == k + 1);
        }
    }
}

/// The fuzzer reads the corpus, or resumes, writes to the output directory,
/// gets the user's own arguments in their order just before `--`, and runs the
/// executable on exactly the target's entry test.
pub proof fn fuzzer_arguments_are_passed_through(
    opts: TestFuzz,
    corpus: Seq<char>,
    output: Seq<char>,
    executable: Seq<char>,
    target: Seq<char>,
)
    ensures
        ({
            let a = fuzz_args_spec(opts, corpus, output, executable, target);
            let n = opts.args.len();
            &&& a.len() == n + 10
            &&& a[0] == "afl"@ && a[1] == "fuzz"@ && a[2] == "-i"@ && a[4] == "-o"@
            &&& a[8 + n] == "--exact"@
            &&& a[3] == (if opts.resume { "-"@ } else { corpus })
            &&& a[5] == output
            &&& a.subrange(6, 6 + n) == opts.args.deep_view()
            &&& a[6 + n] == "--"@
            &&& a[7 + n] == executable
            &&& a[9 + n] == target + ENTRY_SUFFIX@
        }),
{
    let a = fuzz_args_spec(opts, corpus, output, executable, target);
    let n = opts.args.len() as int;
    assert(a.subrange(6, 6 + n) =~= opts.args.deep_view());
}

/// The fuzzer runs with test-fuzz enabled, and with afl's user interface off
/// exactly where asked for.
pub proof fn fuzz_env_sets_what_is_asked(opts: TestFuzz)
    ensures
        fuzz_env_spec(opts).contains(("TEST_FUZZ"@, "1"@)),
        opts.no_ui <==> fuzz_env_spec(opts).contains(("AFL_NO_UI"@, "1"@)),
{
    reveal_strlit("TEST_FUZZ");
    reveal_strlit("AFL_NO_UI");
    assert("TEST_FUZZ"@.len() == 9);
    assert("AFL_NO_UI"@[0] == 'A');
    assert("TEST_FUZZ"@[0] == 'T');
    let env = fuzz_env_spec(opts);
    assert(env[0] == ("TEST_FUZZ"@, "1"@));
    if opts.no_ui {
        assert(env[1] == ("AFL_NO_UI"@, "1"@));
    } else {
        assert(env =~= seq![("TEST_FUZZ"@, "1"@)]);
    }
}

} // verus!
