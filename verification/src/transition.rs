use vstd::prelude::*;

verus! {

/// What `--display` and `--replay` work on.
#[derive(Clone, Copy, Debug, PartialEq, Eq, Structural)]
pub enum Object {
    Concretizations,
    Corpus,
    CorpusInstrumented,
    Crashes,
    Hangs,
    ImplConcretizations,
    Queue,
}

/// The options of `cargo test-fuzz` as the command line gives them, deprecated
/// spellings included.
pub struct TestFuzzWithDeprecations {
    pub backtrace: bool,
    pub consolidate: bool,
    pub consolidate_all: bool,
    pub display: Option<Object>,
    pub exact: bool,
    pub exit_code: bool,
    pub features: Vec<String>,
    pub list: bool,
    pub manifest_path: Option<String>,
    pub no_default_features: bool,
    pub no_instrumentation: bool,
    pub no_run: bool,
    pub no_ui: bool,
    pub package: Option<String>,
    pub persistent: bool,
    pub pretty_print: bool,
    pub replay: Option<Object>,
    pub reset: bool,
    pub reset_all: bool,
    pub resume: bool,
    pub run_until_crash: bool,
    pub test: Option<String>,
    pub timeout: Option<u64>,
    pub verbose: bool,
    pub ztarget: Option<String>,
    pub zzargs: Vec<String>,
}

/// The options that `cargo test-fuzz` runs with.
pub struct TestFuzz {
    pub backtrace: bool,
    pub consolidate: bool,
    pub consolidate_all: bool,
    pub display: Option<Object>,
    pub exact: bool,
    pub exit_code: bool,
    pub features: Vec<String>,
    pub list: bool,
    pub manifest_path: Option<String>,
    pub no_default_features: bool,
    pub no_instrumentation: bool,
    pub no_run: bool,
    pub no_ui: bool,
    pub package: Option<String>,
    pub persistent: bool,
    pub pretty_print: bool,
    pub replay: Option<Object>,
    pub reset: bool,
    pub reset_all: bool,
    pub resume: bool,
    pub run_until_crash: bool,
    pub test: Option<String>,
    pub timeout: Option<u64>,
    pub verbose: bool,
    pub ztarget: Option<String>,
    pub zzargs: Vec<String>,
}

/// Each option keeps its value: the conversion drops the deprecated spellings'
/// struct, and nothing else.
pub open spec fn options_from(opts: TestFuzzWithDeprecations) -> TestFuzz {
    TestFuzz {
        backtrace: opts.backtrace,
        consolidate: opts.consolidate,
        consolidate_all: opts.consolidate_all,
        display: opts.display,
        exact: opts.exact,
        exit_code: opts.exit_code,
        features: opts.features,
        list: opts.list,
        manifest_path: opts.manifest_path,
        no_default_features: opts.no_default_features,
        no_instrumentation: opts.no_instrumentation,
        no_run: opts.no_run,
        no_ui: opts.no_ui,
        package: opts.package,
        persistent: opts.persistent,
        pretty_print: opts.pretty_print,
        replay: opts.replay,
        reset: opts.reset,
        reset_all: opts.reset_all,
        resume: opts.resume,
        run_until_crash: opts.run_until_crash,
        test: opts.test,
        timeout: opts.timeout,
        verbose: opts.verbose,
        ztarget: opts.ztarget,
        zzargs: opts.zzargs,
    }
}

impl From<TestFuzzWithDeprecations> for TestFuzz {
    fn from(opts: TestFuzzWithDeprecations) -> (r: Self) {
        let TestFuzzWithDeprecations {
            backtrace,
            consolidate,
            consolidate_all,
            display,
            exact,
            exit_code,
            features,
            list,
            manifest_path,
            no_default_features,
            no_instrumentation,
            no_run,
            no_ui,
            package,
            persistent,
            pretty_print,
            replay,
            reset,
            reset_all,
            resume,
            run_until_crash,
            test,
            timeout,
            verbose,
            ztarget,
            zzargs,
        } = opts;
        Self {
            backtrace,
            consolidate,
            consolidate_all,
            display,
            exact,
            exit_code,
            features,
            list,
            manifest_path,
            no_default_features,
            no_instrumentation,
            no_run,
            no_ui,
            package,
            persistent,
            pretty_print,
            replay,
            reset,
            reset_all,
            resume,
            run_until_crash,
            test,
            timeout,
            verbose,
            ztarget,
            zzargs,
        }
    }
}

impl vstd::std_specs::convert::FromSpecImpl<TestFuzzWithDeprecations> for TestFuzz {
    open spec fn obeys_from_spec() -> bool {
        true
    }

    open spec fn from_spec(v: TestFuzzWithDeprecations) -> TestFuzz {
        options_from(v)
    }
}

} // verus!
