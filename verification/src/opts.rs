use vstd::prelude::*;

verus! {

/// The options of `cargo test-fuzz`, as the command line gave them.
pub struct TestFuzz {
    pub backtrace: bool,
    pub display_corpus: bool,
    pub display_corpus_instrumented: bool,
    pub display_crashes: bool,
    pub display_queue: bool,
    pub exact: bool,
    pub list: bool,
    pub resume: bool,
    pub no_instrumentation: bool,
    pub no_run: bool,
    pub no_ui: bool,
    pub persistent: bool,
    pub pretty_print: bool,
    pub package: Option<String>,
    pub replay_corpus: bool,
    pub replay_corpus_instrumented: bool,
    pub replay_crashes: bool,
    pub replay_queue: bool,
    pub target: Option<String>,
    pub args: Vec<String>,
}

/// Displaying or replaying the corpus uses an uninstrumented fuzz target.
pub open spec fn normalized(opts: TestFuzz) -> TestFuzz {
    TestFuzz {
        no_instrumentation: opts.no_instrumentation || opts.display_corpus || opts.replay_corpus,
        ..opts
    }
}

/// The options as `cargo test-fuzz` acts on them: `--display-corpus` and
/// `--replay-corpus` imply `--no-instrumentation`.
pub fn normalize_opts(opts: TestFuzz) -> (r: TestFuzz)
    ensures
        r == normalized(opts),
{
    let mut opts = opts;
    if opts.display_corpus || opts.replay_corpus {
        opts.no_instrumentation = true;
    }
    opts
}

/// Normalizing twice changes nothing more than normalizing once.
pub proof fn normalize_idempotent(opts: TestFuzz)
    ensures
        normalized(normalized(opts)) == normalized(opts),
{
}

} // verus!
