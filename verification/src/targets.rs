use vstd::prelude::*;

use crate::opts::TestFuzz;
use crate::text::{seq_contains, seq_strip_suffix, str_contains, str_eq, strip_suffix};

verus! {

/// What the name of each fuzz target's entry test ends with.
pub const ENTRY_SUFFIX: &'static str = "_fuzz::entry";

/// An executable, the crate it was built from, and the fuzz targets it holds.
pub type ExecutableTargets = (String, String, Vec<String>);

/// The `--list` output of one test executable, line by line.
pub struct TestListing {
    pub executable: String,
    pub krate: String,
    pub lines: Vec<String>,
    /// False where reading the output failed after `lines`.
    pub complete: bool,
}

/// Why no single fuzz target could be chosen.
pub enum TargetError {
    /// No executable holds a fuzz target.
    NoFuzzTargets { match_message: String },
    /// More than one executable holds fuzz targets.
    MultipleExecutables { match_message: String, executable_targets: Vec<ExecutableTargets> },
    /// The one executable holds too many fuzz targets.
    MultipleTargets {
        match_message: String,
        executable: String,
        krate: String,
        targets: Vec<String>,
    },
}

/// Reading the `--list` output of the executable at `index` failed before its end.
pub struct ListingFailure {
    pub index: usize,
}

// ---------------------------------------------------------------------------
// Specifications
// ---------------------------------------------------------------------------

/// The fuzz target that a line of a test executable's `--list` output names:
/// the line is `<target>_fuzz::entry: test`.
pub open spec fn line_target(line: Seq<char>) -> Option<Seq<char>> {
    match seq_strip_suffix(line, ": test"@) {
        Some(l) => seq_strip_suffix(l, ENTRY_SUFFIX@),
        None => None,
    }
}

pub open spec fn line_target_fn() -> spec_fn(Seq<char>) -> Option<Seq<char>> {
    |l: Seq<char>| line_target(l)
}

/// The index of the first empty line, or the number of lines where none is empty.
pub open spec fn listing_end(lines: Seq<Seq<char>>) -> int
    decreases lines.len(),
{
    if lines.len() == 0 {
        0
    } else if lines[0].len() == 0 {
        0
    } else {
        1 + listing_end(lines.drop_first())
    }
}

/// The fuzz targets that a listing names before its first empty line.
pub open spec fn listed_targets(lines: Seq<Seq<char>>) -> Seq<Seq<char>> {
    lines.take(listing_end(lines)).filter_map(line_target_fn())
}

/// The listing reaches its first empty line, or was read to its end.
pub open spec fn listing_readable(lines: Seq<Seq<char>>, complete: bool) -> bool {
    complete || listing_end(lines) < lines.len()
}

pub open spec fn listing_entry(l: TestListing) -> Option<(Seq<char>, Seq<char>, Seq<Seq<char>>)> {
    let ts = listed_targets(l.lines.deep_view());
    if ts.len() > 0 {
        Some((l.executable@, l.krate@, ts))
    } else {
        None
    }
}

pub open spec fn listing_entry_fn() -> spec_fn(TestListing) -> Option<(Seq<char>, Seq<char>, Seq<Seq<char>>)> {
    |l: TestListing| listing_entry(l)
}

/// A target name matches the pattern: it contains it, or equals it under `--exact`.
pub open spec fn target_matches(exact: bool, pat: Seq<char>, t: Seq<char>) -> bool {
    (!exact && seq_contains(t, pat)) || t == pat
}

pub open spec fn target_filter(exact: bool, pat: Seq<char>) -> spec_fn(Seq<char>) -> bool {
    |t: Seq<char>| target_matches(exact, pat, t)
}

pub open spec fn filtered_entry(exact: bool, pat: Seq<char>, e: (Seq<char>, Seq<char>, Seq<Seq<char>>))
    -> Option<(Seq<char>, Seq<char>, Seq<Seq<char>>)>
{
    let ts = e.2.filter(target_filter(exact, pat));
    if ts.len() > 0 {
        Some((e.0, e.1, ts))
    } else {
        None
    }
}

pub open spec fn filtered_entry_fn(exact: bool, pat: Seq<char>)
    -> spec_fn((Seq<char>, Seq<char>, Seq<Seq<char>>)) -> Option<(Seq<char>, Seq<char>, Seq<Seq<char>>)>
{
    |e: (Seq<char>, Seq<char>, Seq<Seq<char>>)| filtered_entry(exact, pat, e)
}

/// The executables whose targets match, each with only the targets that match.
pub open spec fn filtered_executable_targets(
    exact: bool,
    pat: Seq<char>,
    ets: Seq<(Seq<char>, Seq<char>, Seq<Seq<char>>)>,
) -> Seq<(Seq<char>, Seq<char>, Seq<Seq<char>>)> {
    ets.filter_map(filtered_entry_fn(exact, pat))
}

pub open spec fn target_view(opts: TestFuzz) -> Option<Seq<char>> {
    match opts.target {
        Some(p) => Some(p@),
        None => None,
    }
}

/// The words that say how the targets were matched, as error messages show them.
pub open spec fn match_message_text(exact: bool, target: Option<Seq<char>>) -> Seq<char> {
    match target {
        None => Seq::empty(),
        Some(pat) => " "@ + (if exact {
            "equal to"@
        } else {
            "containing"@
        }) + " `"@ + pat + "`"@,
    }
}

/// Every executable in the list holds at least one fuzz target.
pub open spec fn all_hold_targets(ets: Seq<(Seq<char>, Seq<char>, Seq<Seq<char>>)>) -> bool {
    forall|i: int| 0 <= i < ets.len() ==> (#[trigger] ets[i]).2.len() > 0
}

/// What choosing the one executable and fuzz target among `ets` gives.
pub open spec fn target_choice(
    opts: TestFuzz,
    ets: Seq<(Seq<char>, Seq<char>, Seq<Seq<char>>)>,
    r: Result<(String, String, String), TargetError>,
) -> bool {
    let msg = match_message_text(opts.exact, target_view(opts));
    &&& ets.len() == 0 <==> (r matches Err(TargetError::NoFuzzTargets { .. }))
    &&& ets.len() > 1 <==> (r matches Err(TargetError::MultipleExecutables { .. }))
    &&& (ets.len() == 1 && ets[0].2.len() > 2) <==> (r matches Err(TargetError::MultipleTargets { .. }))
    &&& match r {
        Ok(t) => {
            &&& ets.len() == 1
            &&& t.0@ == ets[0].0
            &&& t.1@ == ets[0].1
            &&& t.2@ == ets[0].2[0]
        },
        Err(TargetError::NoFuzzTargets { match_message }) => match_message@ == msg,
        Err(TargetError::MultipleExecutables { match_message, executable_targets }) => {
            &&& match_message@ == msg
            &&& executable_targets.deep_view() == ets
        },
        Err(TargetError::MultipleTargets { match_message, executable, krate, targets }) => {
            &&& match_message@ == msg
            &&& executable@ == ets[0].0
            &&& krate@ == ets[0].1
            &&& targets.deep_view() == ets[0].2
        },
    }
}

// ---------------------------------------------------------------------------
// Lemmas
// ---------------------------------------------------------------------------

proof fn lemma_listing_end_at(lines: Seq<Seq<char>>, i: int)
    requires
        0 <= i <= lines.len(),
        forall|k: int| 0 <= k < i ==> (#[trigger] lines[k]).len() > 0,
        i == lines.len() || lines[i].len() == 0,
    ensures
        listing_end(lines) == i,
    decreases i,
{
    if i > 0 {
        let rest = lines.drop_first();
        assert forall|k: int| 0 <= k < i - 1 implies (#[trigger] rest[k]).len() > 0 by {
            assert(rest[k] == lines[k + 1]);
        }
        if i - 1 < rest.len() {
            assert(rest[i - 1] == lines[i]);
        }
        lemma_listing_end_at(rest, i - 1);
    }
}

// ---------------------------------------------------------------------------
// Executable functions
// ---------------------------------------------------------------------------

fn clone_strings(v: &Vec<String>) -> (r: Vec<String>)
    ensures
        r@ == v@,
{
    let mut r: Vec<String> = Vec::new();
    let mut i: usize = 0;
    while i < v.len()
        invariant
            i <= v.len(),
            r@ == v@.subrange(0, i as int),
        decreases v.len() - i,
    {
        r.push(v[i].clone());
        i = i + 1;
    }
    assert(v@.subrange(0, v.len() as int) == v@);
    r
}

/// The fuzz targets that a test executable's `--list` output names: each line
/// `<target>_fuzz::entry: test` before the first empty line (which precedes the
/// count of tests and benchmarks) names `<target>`. `None` where reading failed
/// before that empty line.
pub fn targets(lines: &Vec<String>, complete: bool) -> (r: Option<Vec<String>>)
    ensures
        r is Some <==> listing_readable(lines.deep_view(), complete),
        r matches Some(v) ==> v.deep_view() == listed_targets(lines.deep_view()),
{
    let ghost ls = lines.deep_view();
    let mut out: Vec<String> = Vec::new();
    let mut i: usize = 0;
    while i < lines.len()
        invariant
            i <= lines.len(),
            ls == lines.deep_view(),
            forall|k: int| 0 <= k < i ==> (#[trigger] ls[k]).len() > 0,
            out.deep_view() == ls.take(i as int).filter_map(line_target_fn()),
        decreases lines.len() - i,
    {
        let line = lines[i].as_str();
        if line.is_empty() {
            proof {
                lemma_listing_end_at(ls, i as int);
            }
            return Some(out);
        }
        let ghost before = out.deep_view();
        match strip_suffix(line, ": test") {
            Some(l) => {
                match strip_suffix(l.as_str(), ENTRY_SUFFIX) {
                    Some(t) => {
                        out.push(t);
                        assert(out.deep_view() =~= before.push(line_target(ls[i as int]).unwrap()));
                    },
                    None => {},
                }
            },
            None => {},
        }
        proof {
            assert(ls.take(i + 1).drop_last() =~= ls.take(i as int));
            assert(ls.take(i + 1).last() == ls[i as int]);
            assert(before + seq![line_target(ls[i as int]).unwrap()] =~= before.push(
                line_target(ls[i as int]).unwrap(),
            ));
        }
        i = i + 1;
    }
    proof {
        lemma_listing_end_at(ls, i as int);
        assert(ls.take(i as int) =~= ls);
    }
    if complete {
        Some(out)
    } else {
        None
    }
}


/// The executables that hold fuzz targets, with the targets that each holds,
/// in the order given; executables whose listing names no fuzz target are left
/// out. Fails at the first listing that could not be read far enough.
pub fn executable_targets(executables: &Vec<TestListing>) -> (r: Result<
    Vec<ExecutableTargets>,
    ListingFailure,
>)
    ensures
        match r {
            Ok(v) => {
                &&& forall|k: int|
                    0 <= k < executables.len() ==> listing_readable(
                        (#[trigger] executables@[k]).lines.deep_view(),
                        executables@[k].complete,
                    )
                &&& v.deep_view() == executables@.filter_map(listing_entry_fn())
                &&& all_hold_targets(v.deep_view())
            },
            Err(f) => {
                &&& f.index < executables.len()
                &&& !listing_readable(
                    executables@[f.index as int].lines.deep_view(),
                    executables@[f.index as int].complete,
                )
                &&& forall|k: int|
                    0 <= k < f.index ==> listing_readable(
                        (#[trigger] executables@[k]).lines.deep_view(),
                        executables@[k].complete,
                    )
            },
        },
{
    let mut out: Vec<ExecutableTargets> = Vec::new();
    let mut i: usize = 0;
    while i < executables.len()
        invariant
            i <= executables.len(),
            forall|k: int|
                0 <= k < i ==> listing_readable(
                    (#[trigger] executables@[k]).lines.deep_view(),
                    executables@[k].complete,
                ),
            out.deep_view() == executables@.take(i as int).filter_map(listing_entry_fn()),
        decreases executables.len() - i,
    {
        let listing = &executables[i];
        let ghost before = out.deep_view();
        match targets(&listing.lines, listing.complete) {
            None => {
                return Err(ListingFailure { index: i });
            },
            Some(ts) => {
                if ts.len() > 0 {
                    out.push((listing.executable.clone(), listing.krate.clone(), ts));
                    assert(out.deep_view() =~= before.push(listing_entry(executables@[i as int]).unwrap()));
                }
            },
        }
        proof {
            let taken = executables@.take(i + 1);
            assert(taken.drop_last() =~= executables@.take(i as int));
            assert(taken.last() == executables@[i as int]);
            if listing_entry(executables@[i as int]) is Some {
                assert(before + seq![listing_entry(executables@[i as int]).unwrap()] =~= before.push(
                    listing_entry(executables@[i as int]).unwrap(),
                ));
            }
        }
        i = i + 1;
    }
    assert(executables@.take(i as int) =~= executables@);
    proof {
        listed_executables_hold_targets(executables@);
    }
    Ok(out)
}

/// The targets whose names match `pat`: contain it, or, under `--exact`,
/// equal it; in the order given.
pub fn filter_targets(opts: &TestFuzz, pat: &str, targets: &[String]) -> (r: Vec<String>)
    ensures
        r.deep_view() == targets.deep_view().filter(target_filter(opts.exact, pat@)),
{
    let ghost ts = targets.deep_view();
    let mut out: Vec<String> = Vec::new();
    let mut i: usize = 0;
    while i < targets.len()
        invariant
            i <= targets.len(),
            ts == targets.deep_view(),
            out.deep_view() == ts.take(i as int).filter(target_filter(opts.exact, pat@)),
        decreases targets.len() - i,
    {
        let ghost before = out.deep_view();
        let t = targets[i].as_str();
        let keep = (!opts.exact && str_contains(t, pat)) || str_eq(t, pat);
        if keep {
            out.push(targets[i].clone());
            assert(out.deep_view() =~= before.push(ts[i as int]));
        }
        proof {
            reveal_with_fuel(Seq::filter, 1);
            let taken = ts.take(i + 1);
            assert(taken.drop_last() =~= ts.take(i as int));
            assert(taken.last() == ts[i as int]);
        }
        i = i + 1;
    }
    assert(ts.take(i as int) =~= ts);
    out
}

/// The executables that hold targets matching `pat`, each with only its
/// matching targets; executables left with none are dropped.
pub fn filter_executable_targets(
    opts: &TestFuzz,
    pat: &str,
    executable_targets: &[ExecutableTargets],
) -> (r: Vec<ExecutableTargets>)
    ensures
        r.deep_view() == filtered_executable_targets(opts.exact, pat@, executable_targets.deep_view()),
        all_hold_targets(r.deep_view()),
{
    let ghost es = executable_targets.deep_view();
    let ghost f = filtered_entry_fn(opts.exact, pat@);
    let mut out: Vec<ExecutableTargets> = Vec::new();
    let mut i: usize = 0;
    while i < executable_targets.len()
        invariant
            i <= executable_targets.len(),
            es == executable_targets.deep_view(),
            f == filtered_entry_fn(opts.exact, pat@),
            out.deep_view() == es.take(i as int).filter_map(f),
            all_hold_targets(out.deep_view()),
        decreases executable_targets.len() - i,
    {
        let ghost before = out.deep_view();
        let (executable, krate, targets) = &executable_targets[i];
        let ts = filter_targets(opts, pat, targets.as_slice());
        if ts.len() > 0 {
            out.push((executable.clone(), krate.clone(), ts));
            assert(out.deep_view() =~= before.push(f(es[i as int]).unwrap()));
        }
        proof {
            let taken = es.take(i + 1);
            assert(taken.drop_last() =~= es.take(i as int));
            assert(taken.last() == es[i as int]);
            if f(es[i as int]) is Some {
                assert(before + seq![f(es[i as int]).unwrap()] =~= before.push(f(es[i as int]).unwrap()));
            }
        }
        i = i + 1;
    }
    assert(es.take(i as int) =~= es);
    out
}

/// `" equal to `pat`"` or `" containing `pat`"` where a target pattern was
/// given, and the empty string where none was.
pub fn match_message(opts: &TestFuzz) -> (r: String)
    ensures
        r@ == match_message_text(opts.exact, target_view(*opts)),
{
    match &opts.target {
        None => String::new(),
        Some(pat) => {
            let mut s = String::from_str(" ");
            s.append(
                if opts.exact {
                    "equal to"
                } else {
                    "containing"
                },
            );
            s.append(" `");
            s.append(pat.as_str());
            s.append("`");
            s
        },
    }
}

/// The one executable and fuzz target to act on. Fails where no executable,
/// or more than one, holds fuzz targets, or where the one holds more than two.
pub fn executable_target(
    opts: &TestFuzz,
    executable_targets: &[ExecutableTargets],
) -> (r: Result<(String, String, String), TargetError>)
    requires
        executable_targets.len() == 1 ==> executable_targets@[0].2.len() > 0,
    ensures
        target_choice(*opts, executable_targets.deep_view(), r),
{
    if executable_targets.len() == 0 {
        return Err(TargetError::NoFuzzTargets { match_message: match_message(opts) });
    }
    if executable_targets.len() > 1 {
        let mut all: Vec<ExecutableTargets> = Vec::new();
        let mut i: usize = 0;
        while i < executable_targets.len()
            invariant
                i <= executable_targets.len(),
                all.deep_view() == executable_targets.deep_view().take(i as int),
            decreases executable_targets.len() - i,
        {
            let (executable, krate, targets) = &executable_targets[i];
            let ghost before = all.deep_view();
            let ts = clone_strings(targets);
            assert(ts.deep_view() =~= targets.deep_view());
            all.push((executable.clone(), krate.clone(), ts));
            assert(all.deep_view() =~= before.push(executable_targets.deep_view()[i as int]));
            assert(all.deep_view() =~= executable_targets.deep_view().take(i + 1));
            i = i + 1;
        }
        assert(executable_targets.deep_view().take(i as int) =~= executable_targets.deep_view());
        return Err(
            TargetError::MultipleExecutables { match_message: match_message(opts), executable_targets: all },
        );
    }
    let (executable, krate, targets) = &executable_targets[0];
    if targets.len() > 2 {
        let ts = clone_strings(targets);
        assert(ts.deep_view() =~= targets.deep_view());
        return Err(
            TargetError::MultipleTargets {
                match_message: match_message(opts),
                executable: executable.clone(),
                krate: krate.clone(),
                targets: ts,
            },
        );
    }
    Ok((executable.clone(), krate.clone(), targets[0].clone()))
}


// ---------------------------------------------------------------------------
// Laws
// ---------------------------------------------------------------------------

/// Filtering targets a second time by the same pattern removes nothing more.
pub proof fn filter_targets_idempotent(exact: bool, pat: Seq<char>, ts: Seq<Seq<char>>)
    ensures
        ts.filter(target_filter(exact, pat)).filter(target_filter(exact, pat)) == ts.filter(
            target_filter(exact, pat),
        ),
    decreases ts.len(),
{
    reveal_with_fuel(Seq::filter, 1);
    let p = target_filter(exact, pat);
    if ts.len() > 0 {
        filter_targets_idempotent(exact, pat, ts.drop_last());
        let f = ts.drop_last().filter(p);
        if p(ts.last()) {
            assert(f.push(ts.last()).drop_last() =~= f);
            assert(f.push(ts.last()).last() == ts.last());
        }
    }
}

/// A target named exactly as the pattern is kept, with `--exact` or without it.
pub proof fn exact_name_kept(exact: bool, pat: Seq<char>, ts: Seq<Seq<char>>, i: int)
    requires
        0 <= i < ts.len(),
        ts[i] == pat,
    ensures
        ts.filter(target_filter(exact, pat)).contains(pat),
{
    ts.lemma_filter_contains(target_filter(exact, pat), i);
}

/// `--exact` only ever keeps targets that the substring match keeps too.
pub proof fn exact_keeps_subset(pat: Seq<char>, ts: Seq<Seq<char>>, t: Seq<char>)
    requires
        ts.filter(target_filter(true, pat)).contains(t),
    ensures
        ts.filter(target_filter(false, pat)).contains(t),
{
    let exact_kept = ts.filter(target_filter(true, pat));
    ts.lemma_filter_contains_rev(target_filter(true, pat), t);
    let j = choose|j: int| 0 <= j < exact_kept.len() && exact_kept[j] == t;
    ts.lemma_filter_pred(target_filter(true, pat), j);
    let i = choose|i: int| 0 <= i < ts.len() && ts[i] == t;
    ts.lemma_filter_contains(target_filter(false, pat), i);
}

/// Every target left after filtering executables by a pattern matches it, and
/// every executable left holds at least one target (so that choosing among
/// them never meets an executable without targets).
pub proof fn filtered_targets_match(
    exact: bool,
    pat: Seq<char>,
    ets: Seq<(Seq<char>, Seq<char>, Seq<Seq<char>>)>,
    e: (Seq<char>, Seq<char>, Seq<Seq<char>>),
    t: Seq<char>,
)
    requires
        filtered_executable_targets(exact, pat, ets).contains(e),
    ensures
        e.2.len() > 0,
        e.2.contains(t) ==> target_matches(exact, pat, t),
{
    let f = filtered_entry_fn(exact, pat);
    ets.lemma_filter_map_contains(f, e);
    let x = choose|x: (Seq<char>, Seq<char>, Seq<Seq<char>>)| #[trigger] ets.contains(x) && f(x) == Some(e);
    assert(f(x) == Some(e));
    if e.2.contains(t) {
        let j = choose|j: int| 0 <= j < e.2.len() && e.2[j] == t;
        x.2.lemma_filter_pred(target_filter(exact, pat), j);
    }
}

/// The executables that the listings name each hold at least one fuzz target.
pub proof fn listed_executables_hold_targets(listings: Seq<TestListing>)
    ensures
        all_hold_targets(listings.filter_map(listing_entry_fn())),
{
    let out = listings.filter_map(listing_entry_fn());
    assert forall|i: int| 0 <= i < out.len() implies (#[trigger] out[i]).2.len() > 0 by {
        assert(out.contains(out[i]));
        listings.lemma_filter_map_contains(listing_entry_fn(), out[i]);
    }
}

} // verus!
