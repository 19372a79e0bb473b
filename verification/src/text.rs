use vstd::prelude::*;

verus! {

/// `p` occurs in `s` as a contiguous run of characters.
pub open spec fn seq_contains(s: Seq<char>, p: Seq<char>) -> bool {
    exists|i: int| 0 <= i && i + p.len() <= s.len() && #[trigger] s.subrange(i, i + p.len()) == p
}

/// `p` is a suffix of `s`.
pub open spec fn seq_ends_with(s: Seq<char>, p: Seq<char>) -> bool {
    p.len() <= s.len() && s.subrange(s.len() - p.len(), s.len() as int) == p
}

/// `s` with the suffix `p` removed, where `p` is a suffix of `s`.
pub open spec fn seq_strip_suffix(s: Seq<char>, p: Seq<char>) -> Option<Seq<char>> {
    if seq_ends_with(s, p) {
        Some(s.subrange(0, s.len() - p.len()))
    } else {
        None
    }
}

/// The characters of a string, one by one.
pub fn chars_of(s: &str) -> (v: Vec<char>)
    ensures
        v@ == s@,
{
    let n = s.unicode_len();
    let mut v: Vec<char> = Vec::new();
    let mut i: usize = 0;
    while i < n
        invariant
            i <= n,
            n == s@.len(),
            v@ == s@.subrange(0, i as int),
        decreases n - i,
    {
        v.push(s.get_char(i));
        i = i + 1;
    }
    assert(s@.subrange(0, n as int) == s@);
    v
}

/// Whether `s` and `p` agree at offset `at`.
fn matches_at(s: &Vec<char>, p: &Vec<char>, at: usize) -> (b: bool)
    requires
        at + p.len() <= s.len(),
    ensures
        b == (s@.subrange(at as int, at + p.len()) == p@),
{
    let mut j: usize = 0;
    while j < p.len()
        invariant
            j <= p.len(),
            at + p.len() <= s.len(),
            forall|k: int| 0 <= k < j ==> s@[at + k] == p@[k],
        decreases p.len() - j,
    {
        if s[at + j] != p[j] {
            assert(s@.subrange(at as int, at + p.len())[j as int] != p@[j as int]);
            return false;
        }
        j = j + 1;
    }
    assert(s@.subrange(at as int, at + p.len()) =~= p@);
    true
}

/// Whether `pat` occurs in `s` (as `str::contains` with a string pattern).
pub fn str_contains(s: &str, pat: &str) -> (b: bool)
    ensures
        b == seq_contains(s@, pat@),
{
    let sv = chars_of(s);
    let pv = chars_of(pat);
    if pv.len() > sv.len() {
        return false;
    }
    if pv.len() == 0 {
        assert(s@.subrange(0int, 0int + pat@.len()) =~= pat@);
        return true;
    }
    let last = sv.len() - pv.len();
    let mut i: usize = 0;
    while i <= last
        invariant
            last + pv.len() == sv.len(),
            pv.len() > 0,
            sv@ == s@,
            pv@ == pat@,
            forall|k: int| 0 <= k < i ==> #[trigger] sv@.subrange(k, k + pv.len()) != pv@,
        decreases last + 1 - i,
    {
        if matches_at(&sv, &pv, i) {
            return true;
        }
        i = i + 1;
    }
    assert forall|k: int| 0 <= k && k + pat@.len() <= s@.len() implies
        #[trigger] s@.subrange(k, k + pat@.len()) != pat@ by {
        assert(k < i);
    }
    false
}

/// Whether two strings hold the same characters.
pub fn str_eq(a: &str, b: &str) -> (r: bool)
    ensures
        r == (a@ == b@),
{
    let av = chars_of(a);
    let bv = chars_of(b);
    if av.len() != bv.len() {
        return false;
    }
    let r = matches_at(&av, &bv, 0);
    assert(av@.subrange(0, bv@.len() as int) =~= av@);
    r
}

/// `s` without the suffix `suffix`, or `None` where `s` does not end with it
/// (as `str::strip_suffix` with a string pattern).
pub fn strip_suffix(s: &str, suffix: &str) -> (r: Option<String>)
    ensures
        match r {
            Some(t) => seq_strip_suffix(s@, suffix@) == Some(t@),
            None => seq_strip_suffix(s@, suffix@) is None,
        },
{
    let sv = chars_of(s);
    let pv = chars_of(suffix);
    if pv.len() > sv.len() {
        return None;
    }
    let cut = sv.len() - pv.len();
    if matches_at(&sv, &pv, cut) {
        Some(s.substring_char(0, cut).to_owned())
    } else {
        None
    }
}

} // verus!
