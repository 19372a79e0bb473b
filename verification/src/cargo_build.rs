use vstd::prelude::*;

use crate::opts::TestFuzz;

verus! {

#[verifier::external_type_specification]
#[verifier::external_body]
pub struct ExIoError(std::io::Error);

/// One line of cargo's `--message-format=json` output, as far as choosing
/// test executables reads it.
pub enum CargoMessage {
    /// A compiler artifact: the target it was built for, whether it was built
    /// with the test profile, and the executable it produced, if any.
    Artifact { target_name: String, test: bool, executable: Option<String> },
    /// Any other message or line of text.
    Other,
}

pub enum CargoMessageView {
    Artifact { target_name: Seq<char>, test: bool, executable: Option<Seq<char>> },
    Other,
}

impl View for CargoMessage {
    type V = CargoMessageView;

    open spec fn view(&self) -> CargoMessageView {
        match self {
            CargoMessage::Artifact { target_name, test, executable } => CargoMessageView::Artifact {
                target_name: target_name@,
                test: *test,
                executable: match executable {
                    Some(e) => Some(e@),
                    None => None,
                },
            },
            CargoMessage::Other => CargoMessageView::Other,
        }
    }
}

/// Building the test executables failed.
pub enum BuildError {
    /// Cargo's output could not be read as messages.
    Messages(std::io::Error),
    /// A line of cargo's output opens more brackets than it is safe to parse.
    TooDeeplyNested,
}

/// The most `[` and `{` that one line of cargo's output may hold. Reading a line
/// nests once per bracket at most, with no recursion limit of its own, so this
/// bounds how deep the parser's stack grows.
pub const MAX_LINE_BRACKETS: usize = 1024;

/// `[` or `{`.
pub open spec fn is_open_bracket(b: u8) -> bool {
    b == 0x5b || b == 0x7b
}

/// The number of `[` and `{` since the last line break (or the start).
pub open spec fn brackets_since_line_start(s: Seq<u8>) -> nat
    decreases s.len(),
{
    if s.len() == 0 {
        0
    } else if s.last() == 0x0a {
        0
    } else {
        brackets_since_line_start(s.drop_last()) + if is_open_bracket(s.last()) {
            1nat
        } else {
            0nat
        }
    }
}

/// No line of `s` holds more than `MAX_LINE_BRACKETS` opening brackets.
pub open spec fn lines_shallow(s: Seq<u8>) -> bool {
    forall|i: int| 0 <= i <= s.len() ==> #[trigger] brackets_since_line_start(s.take(i))
        <= MAX_LINE_BRACKETS
}

/// The messages that `cargo_metadata::Message::parse_stream` reads from cargo's
/// output, one per line; `None` where reading fails.
pub uninterp spec fn cargo_messages(stdout: Seq<u8>) -> Option<Seq<CargoMessageView>>;

pub open spec fn message_view_fn() -> spec_fn(CargoMessage) -> CargoMessageView {
    |m: CargoMessage| m@
}

/// The executable and target name of a test-profile artifact with an executable.
pub open spec fn test_executable(m: CargoMessageView) -> Option<(Seq<char>, Seq<char>)> {
    match m {
        CargoMessageView::Artifact { target_name, test, executable } => {
            if test && executable is Some {
                Some((executable.unwrap(), target_name))
            } else {
                None
            }
        },
        CargoMessageView::Other => None,
    }
}

pub open spec fn test_executable_fn() -> spec_fn(CargoMessageView) -> Option<(Seq<char>, Seq<char>)> {
    |m: CargoMessageView| test_executable(m)
}

/// The arguments of the `cargo` command that builds the test executables.
pub open spec fn build_args_spec(opts: TestFuzz) -> Seq<Seq<char>> {
    (if opts.no_instrumentation {
        Seq::empty()
    } else {
        seq!["afl"@]
    }) + seq!["test"@, "--no-run"@] + (match opts.package {
        Some(p) => seq!["--package"@, p@],
        None => Seq::empty(),
    }) + (if opts.persistent {
        seq!["--features"@, "test-fuzz/persistent"@]
    } else {
        Seq::empty()
    }) + seq!["--message-format=json"@]
}

/// Reads cargo's JSON output with `cargo_metadata::Message::parse_stream`,
/// keeping of each message only what `CargoMessage` holds. Claimed: the result
/// is exactly what that function yields on these bytes, which depends on the
/// bytes alone. Lines are parsed with no recursion limit, so lines nested
/// without bound could exhaust the stack: the bytes must hold no line with more
/// than `MAX_LINE_BRACKETS` opening brackets.
#[verifier::external_body]
fn parse_cargo_messages(stdout: &[u8]) -> (r: Result<Vec<CargoMessage>, std::io::Error>)
    requires
        lines_shallow(stdout@),
    ensures
        r is Ok <==> cargo_messages(stdout@) is Some,
        r matches Ok(v) ==> v@.map_values(message_view_fn()) == cargo_messages(stdout@).unwrap(),
{
    cargo_metadata::Message::parse_stream(stdout).map(|m| m.map(|m| match m {
        cargo_metadata::Message::CompilerArtifact(a) => CargoMessage::Artifact {
            target_name: a.target.name,
            test: a.profile.test,
            executable: a.executable.map(|p| p.into_string()),
        },
        _ => CargoMessage::Other,
    })).collect()
}

pub fn push_str(v: &mut Vec<String>, s: &str)
    ensures
        final(v).deep_view() == old(v).deep_view().push(s@),
{
    let ghost before = v.deep_view();
    v.push(s.to_owned());
    assert(v.deep_view() =~= before.push(s@));
}

/// The arguments of the `cargo` command that builds the test executables:
/// `afl` unless building without instrumentation, `test --no-run`, the package
/// and the persistent-mode feature where asked for, and JSON messages last.
pub fn build_args(opts: &TestFuzz) -> (r: Vec<String>)
    ensures
        r.deep_view() == build_args_spec(*opts),
        r.deep_view()[0] == (if opts.no_instrumentation { "test"@ } else { "afl"@ }),
        r.deep_view().last() == "--message-format=json"@,
        opts.package matches Some(p) ==> exists|i: int|
            0 <= i < r.len() - 1 && #[trigger] r.deep_view()[i] == "--package"@ && r.deep_view()[i
                + 1] == p@,
        opts.package is None ==> !r.deep_view().contains("--package"@),
        opts.persistent ==> exists|i: int|
            0 <= i < r.len() - 1 && #[trigger] r.deep_view()[i] == "--features"@ && r.deep_view()[i
                + 1] == "test-fuzz/persistent"@,
{
    let mut args: Vec<String> = Vec::new();
    if !opts.no_instrumentation {
        push_str(&mut args, "afl");
    }
    let ghost a0 = args.deep_view();
    push_str(&mut args, "test");
    push_str(&mut args, "--no-run");
    let ghost a1 = args.deep_view();
    assert(a1 =~= a0 + seq!["test"@, "--no-run"@]);
    match &opts.package {
        Some(package) => {
            push_str(&mut args, "--package");
            push_str(&mut args, package.as_str());
        },
        None => {},
    }
    if opts.persistent {
        push_str(&mut args, "--features");
        push_str(&mut args, "test-fuzz/persistent");
    }
    push_str(&mut args, "--message-format=json");
    assert(args.deep_view() =~= build_args_spec(*opts));
    proof {
        build_args_ask_for_what_opts_say(*opts);
    }
    args
}

/// The test executables among cargo's messages, each with the name of the
/// target it was built for, in the order cargo reported them.
pub fn test_executables(messages: &Vec<CargoMessage>) -> (r: Vec<(String, String)>)
    ensures
        r.deep_view() == messages@.map_values(message_view_fn()).filter_map(test_executable_fn()),
        forall|p: (Seq<char>, Seq<char>)| #[trigger]
            r.deep_view().contains(p) ==> exists|i: int|
                0 <= i < messages.len() && #[trigger] messages@[i]@ == (CargoMessageView::Artifact {
                    target_name: p.1,
                    test: true,
                    executable: Some(p.0),
                }),
        forall|i: int|
            0 <= i < messages.len() ==> (#[trigger] messages@[i]@ is Artifact && messages@[i]@->test && messages@[i]@->executable is Some ==> r.deep_view().contains((messages@[i]@->executable->0, messages@[i]@->target_name))),
{
    let ghost ms = messages@.map_values(message_view_fn());
    let mut out: Vec<(String, String)> = Vec::new();
    let mut i: usize = 0;
    while i < messages.len()
        invariant
            i <= messages.len(),
            ms == messages@.map_values(message_view_fn()),
            out.deep_view() == ms.take(i as int).filter_map(test_executable_fn()),
        decreases messages.len() - i,
    {
        let ghost before = out.deep_view();
        match &messages[i] {
            CargoMessage::Artifact { target_name, test, executable } => {
                if *test {
                    match executable {
                        Some(e) => {
                            out.push((e.clone(), target_name.clone()));
                            assert(out.deep_view() =~= before.push(test_executable(ms[i as int]).unwrap()));
                        },
                        None => {},
                    }
                }
            },
            CargoMessage::Other => {},
        }
        proof {
            let taken = ms.take(i + 1);
            assert(taken.drop_last() =~= ms.take(i as int));
            assert(taken.last() == ms[i as int]);
            if test_executable(ms[i as int]) is Some {
                assert(before + seq![test_executable(ms[i as int]).unwrap()] =~= before.push(
                    test_executable(ms[i as int]).unwrap(),
                ));
            }
        }
        i = i + 1;
    }
    assert(ms.take(i as int) =~= ms);
    proof {
        only_test_artifacts_are_kept(ms);
        assert forall|p: (Seq<char>, Seq<char>)| #[trigger]
            out.deep_view().contains(p) implies exists|i: int|
                0 <= i < messages.len() && #[trigger] messages@[i]@ == (CargoMessageView::Artifact {
                    target_name: p.1,
                    test: true,
                    executable: Some(p.0),
                }) by {
            let i = choose|i: int|
                0 <= i < ms.len() && ms[i] == (CargoMessageView::Artifact {
                    target_name: p.1,
                    test: true,
                    executable: Some(p.0),
                });
            assert(ms[i] == messages@[i]@);
        }
        assert forall|i: int|
            0 <= i < messages.len() implies (#[trigger] messages@[i]@ is Artifact && messages@[i]@->test && messages@[i]@->executable is Some ==> out.deep_view().contains((messages@[i]@->executable->0, messages@[i]@->target_name))) by {
            assert(ms[i] == messages@[i]@);
        }
    }
    out
}

/// Whether no line of `s` holds more than `MAX_LINE_BRACKETS` opening brackets.
pub fn check_lines_shallow(s: &[u8]) -> (r: bool)
    ensures
        r == lines_shallow(s@),
{
    let mut count: usize = 0;
    let mut i: usize = 0;
    assert(s@.take(0) =~= Seq::<u8>::empty());
    while i < s.len()
        invariant
            i <= s.len(),
            count == brackets_since_line_start(s@.take(i as int)),
            forall|k: int| 0 <= k <= i ==> #[trigger] brackets_since_line_start(s@.take(k))
                <= MAX_LINE_BRACKETS,
        decreases s.len() - i,
    {
        proof {
            assert(s@.take(i + 1).drop_last() =~= s@.take(i as int));
            assert(s@.take(i + 1).last() == s@[i as int]);
        }
        let b = s[i];
        if b == 0x0a {
            count = 0;
        } else if b == 0x5b || b == 0x7b {
            if count == MAX_LINE_BRACKETS {
                assert(brackets_since_line_start(s@.take(i + 1)) > MAX_LINE_BRACKETS);
                return false;
            }
            count = count + 1;
        }
        i = i + 1;
    }
    assert(s@.take(i as int) =~= s@);
    assert forall|k: int| 0 <= k <= s@.len() implies #[trigger] brackets_since_line_start(
        s@.take(k),
    ) <= MAX_LINE_BRACKETS by {}
    true
}

/// The test executables that cargo's JSON output reports, each with the name
/// of the target it was built for. Fails where a line opens more than
/// `MAX_LINE_BRACKETS` brackets, and where the output cannot be read.
pub fn build_executables(stdout: &[u8]) -> (r: Result<Vec<(String, String)>, BuildError>)
    ensures
        r matches Err(BuildError::TooDeeplyNested) <==> !lines_shallow(stdout@),
        r is Ok <==> lines_shallow(stdout@) && cargo_messages(stdout@) is Some,
        r matches Ok(v) ==> v.deep_view() == cargo_messages(stdout@).unwrap().filter_map(
            test_executable_fn(),
        ),
        r matches Ok(v) ==> forall|p: (Seq<char>, Seq<char>)| #[trigger]
            v.deep_view().contains(p) ==> cargo_messages(stdout@).unwrap().contains(
                CargoMessageView::Artifact { target_name: p.1, test: true, executable: Some(p.0) },
            ),
{
    if !check_lines_shallow(stdout) {
        return Err(BuildError::TooDeeplyNested);
    }
    match parse_cargo_messages(stdout) {
        Ok(messages) => {
            let r = test_executables(&messages);
            proof {
                let ms = cargo_messages(stdout@).unwrap();
                only_test_artifacts_are_kept(ms);
                assert forall|p: (Seq<char>, Seq<char>)| #[trigger] r.deep_view().contains(p) implies ms.contains(
                    CargoMessageView::Artifact { target_name: p.1, test: true, executable: Some(p.0) },
                ) by {
                    let i = choose|i: int|
                        0 <= i < ms.len() && ms[i] == (CargoMessageView::Artifact {
                            target_name: p.1,
                            test: true,
                            executable: Some(p.0),
                        });
                }
            }
            Ok(r)
        },
        Err(e) => Err(BuildError::Messages(e)),
    }
}

// ---------------------------------------------------------------------------
// Laws
// ---------------------------------------------------------------------------

proof fn filter_map_keeps<A, B>(s: Seq<A>, f: spec_fn(A) -> Option<B>, i: int)
    requires
        0 <= i < s.len(),
        f(s[i]) is Some,
    ensures
        s.filter_map(f).contains(f(s[i]).unwrap()),
    decreases s.len(),
{
    let rest = s.drop_last();
    if i == s.len() - 1 {
        let out = s.filter_map(f);
        assert(out[out.len() - 1] == f(s[i]).unwrap());
    } else {
        assert(rest[i] == s[i]);
        filter_map_keeps(rest, f, i);
        let j = choose|j: int| 0 <= j < rest.filter_map(f).len() && rest.filter_map(f)[j] == f(
            s[i],
        ).unwrap();
        match f(s.last()) {
            Some(x) => {
                assert(s.filter_map(f)[j] == f(s[i]).unwrap());
            },
            None => {},
        }
    }
}

/// A test executable is kept exactly where cargo reports an artifact built with
/// the test profile that has an executable: each pair kept is such an
/// artifact's executable and target name, and every such artifact is kept.
pub proof fn only_test_artifacts_are_kept(ms: Seq<CargoMessageView>)
    ensures
        forall|p: (Seq<char>, Seq<char>)| #[trigger]
            ms.filter_map(test_executable_fn()).contains(p) ==> exists|i: int|
                0 <= i < ms.len() && ms[i] == (CargoMessageView::Artifact {
                    target_name: p.1,
                    test: true,
                    executable: Some(p.0),
                }),
        forall|i: int|
            0 <= i < ms.len() ==> (#[trigger] ms[i] is Artifact && ms[i]->test && ms[i]->executable is Some ==> ms.filter_map(test_executable_fn()).contains((ms[i]->executable->0, ms[i]->target_name))),
{
    let f = test_executable_fn();
    assert forall|p: (Seq<char>, Seq<char>)| #[trigger] ms.filter_map(f).contains(p) implies exists|i: int|
        0 <= i < ms.len() && ms[i] == (CargoMessageView::Artifact {
            target_name: p.1,
            test: true,
            executable: Some(p.0),
        }) by {
        ms.lemma_filter_map_contains(f, p);
        let m = choose|m: CargoMessageView| #[trigger] ms.contains(m) && f(m) == Some(p);
        let i = choose|i: int| 0 <= i < ms.len() && ms[i] == m;
        assert(ms[i] == m);
    }
    assert forall|i: int|
        0 <= i < ms.len() implies (#[trigger] ms[i] is Artifact && ms[i]->test && ms[i]->executable is Some ==> ms.filter_map(f).contains((ms[i]->executable->0, ms[i]->target_name))) by {
        if f(ms[i]) is Some {
            filter_map_keeps(ms, f, i);
        }
    }
}

/// The build command uses afl unless building without instrumentation, builds
/// the package asked for (`--package` right before its name, and no
/// `--package` where none is asked for), turns on persistent mode where asked
/// for, and ends with JSON messages.
pub proof fn build_args_ask_for_what_opts_say(opts: TestFuzz)
    ensures
        ({
            let a = build_args_spec(opts);
            &&& a[0] == (if opts.no_instrumentation { "test"@ } else { "afl"@ })
            &&& a.last() == "--message-format=json"@
            &&& opts.package matches Some(p) ==> exists|i: int|
                0 <= i < a.len() - 1 && #[trigger] a[i] == "--package"@ && a[i + 1] == p@
            &&& opts.package is None ==> !a.contains("--package"@)
            &&& opts.persistent ==> exists|i: int|
                0 <= i < a.len() - 1 && #[trigger] a[i] == "--features"@ && a[i + 1]
                    == "test-fuzz/persistent"@
        }),
{
    let a = build_args_spec(opts);
    let k: int = if opts.no_instrumentation { 0 } else { 1 };
    assert(a[k] == "test"@);
    assert(a[k + 1] == "--no-run"@);
    let pk: int = if opts.package is Some { 2 } else { 0 };
    if opts.package is Some {
        assert(a[k + 2] == "--package"@);
        assert(a[k + 3] == opts.package->0@);
    }
    if opts.persistent {
        assert(a[k + 2 + pk] == "--features"@);
        assert(a[k + 3 + pk] == "test-fuzz/persistent"@);
    }
    if opts.package is None {
        reveal_strlit("afl");
        reveal_strlit("test");
        reveal_strlit("--no-run");
        reveal_strlit("--package");
        reveal_strlit("--features");
        reveal_strlit("test-fuzz/persistent");
        reveal_strlit("--message-format=json");
        assert("--package"@.len() == 9);
        assert("afl"@.len() == 3);
        assert("test"@.len() == 4);
        assert("--no-run"@.len() == 8);
        assert("--features"@.len() == 10);
        assert("test-fuzz/persistent"@.len() == 20);
        assert("--message-format=json"@.len() == 21);
        assert forall|i: int| 0 <= i < a.len() implies a[i] != "--package"@ by {}
    }
}

} // verus!
