//! Character-sequence utilities: substring search, search-and-replace,
//! line splitting and joining, whitespace trimming, and decimal rendering
//! and parsing. All executable functions are specified against spec
//! functions over `Seq<char>`.

use vstd::prelude::*;
use vstd::string::StrSliceExecFns;

verus! {

// ---------------------------------------------------------------------------
// Substring occurrence
// ---------------------------------------------------------------------------

/// `pat` occurs in `s` starting at index `i`.
pub open spec fn is_match_at(s: Seq<char>, pat: Seq<char>, i: int) -> bool {
    0 <= i && i + pat.len() <= s.len() && s.subrange(i, i + pat.len()) == pat
}

/// `pat` occurs somewhere in `s`.
pub open spec fn has_sub(s: Seq<char>, pat: Seq<char>) -> bool {
    exists|i: int| is_match_at(s, pat, i)
}

/// Decides whether `pat` occurs in `s` at index `i`.
pub fn match_at(s: &Vec<char>, pat: &Vec<char>, i: usize) -> (r: bool)
    requires
        i <= s@.len(),
    ensures
        r == is_match_at(s@, pat@, i as int),
{
    let n = s.len();
    if n - i < pat.len() {
        return false;
    }
    let mut j: usize = 0;
    while j < pat.len()
        invariant
            n == s@.len(),
            i + pat@.len() <= n,
            j <= pat@.len(),
            forall|k: int| 0 <= k < j ==> s@[i + k] == pat@[k],
        decreases pat@.len() - j,
    {
        if s[i + j] != pat[j] {
            assert(!is_match_at(s@, pat@, i as int)) by {
                if is_match_at(s@, pat@, i as int) {
                    assert(s@.subrange(i as int, i + pat@.len())[j as int] == s@[i + j]);
                }
            }
            return false;
        }
        j += 1;
    }
    assert(s@.subrange(i as int, i + pat@.len()) =~= pat@);
    true
}

/// Decides whether `pat` occurs anywhere in `s`.
pub fn contains_sub(s: &Vec<char>, pat: &Vec<char>) -> (r: bool)
    ensures
        r == has_sub(s@, pat@),
{
    if pat.len() == 0 {
        assert(is_match_at(s@, pat@, 0)) by {
            assert(s@.subrange(0, 0) =~= pat@);
        }
        return true;
    }
    let mut i: usize = 0;
    while i < s.len()
        invariant
            i <= s@.len(),
            forall|k: int| 0 <= k < i ==> !is_match_at(s@, pat@, k),
        decreases s@.len() - i,
    {
        if match_at(s, pat, i) {
            return true;
        }
        i += 1;
    }
    assert(forall|k: int| !is_match_at(s@, pat@, k));
    false
}

// ---------------------------------------------------------------------------
// Search and replace
// ---------------------------------------------------------------------------

/// Replace every occurrence of `pat` in `s` by `rep`, scanning left to
/// right; matches never overlap, and text introduced by `rep` is not
/// rescanned. An empty pattern leaves `s` unchanged.
pub open spec fn replace_all(s: Seq<char>, pat: Seq<char>, rep: Seq<char>) -> Seq<char>
    decreases s.len(),
{
    if pat.len() == 0 || s.len() < pat.len() {
        s
    } else if s.subrange(0, pat.len() as int) == pat {
        rep + replace_all(s.skip(pat.len() as int), pat, rep)
    } else {
        seq![s[0]] + replace_all(s.skip(1), pat, rep)
    }
}

/// Delete every occurrence of `pat` from `s`.
pub open spec fn remove_all(s: Seq<char>, pat: Seq<char>) -> Seq<char> {
    replace_all(s, pat, Seq::empty())
}

/// A match inside a suffix of `s` is a match of `s`, shifted.
pub proof fn lemma_match_skip(s: Seq<char>, pat: Seq<char>, k: int, i: int)
    requires
        0 <= k <= s.len(),
        0 <= i,
    ensures
        is_match_at(s.skip(k), pat, i) <==> is_match_at(s, pat, k + i),
{
    if i + pat.len() <= s.len() - k {
        assert(s.skip(k).subrange(i, i + pat.len() as int) =~= s.subrange(
            k + i,
            k + i + pat.len(),
        ));
    }
}

/// Unfolding `replace_all` at a position where `pat` matches.
pub proof fn lemma_replace_step_match(s: Seq<char>, pat: Seq<char>, rep: Seq<char>)
    requires
        pat.len() >= 1,
        is_match_at(s, pat, 0),
    ensures
        replace_all(s, pat, rep) == rep + replace_all(s.skip(pat.len() as int), pat, rep),
{
}

/// Unfolding `replace_all` at a position where `pat` does not match.
pub proof fn lemma_replace_step_miss(s: Seq<char>, pat: Seq<char>, rep: Seq<char>)
    requires
        pat.len() >= 1,
        s.len() >= 1,
        !is_match_at(s, pat, 0),
    ensures
        replace_all(s, pat, rep) == seq![s[0]] + replace_all(s.skip(1), pat, rep),
{
    if s.len() < pat.len() {
        assert(s.skip(1).len() < pat.len());
        assert(s =~= seq![s[0]] + s.skip(1));
    }
}

/// Replacement in a string without an occurrence of the pattern is a no-op.
pub proof fn lemma_replace_noop(s: Seq<char>, pat: Seq<char>, rep: Seq<char>)
    requires
        pat.len() >= 1,
        !has_sub(s, pat),
    ensures
        replace_all(s, pat, rep) == s,
    decreases s.len(),
{
    if s.len() == 0 {
    } else {
        assert(!is_match_at(s, pat, 0));
        lemma_replace_step_miss(s, pat, rep);
        assert(!has_sub(s.skip(1), pat)) by {
            if has_sub(s.skip(1), pat) {
                let i = choose|i: int| is_match_at(s.skip(1), pat, i);
                lemma_match_skip(s, pat, 1, i);
            }
        }
        lemma_replace_noop(s.skip(1), pat, rep);
        assert(s =~= seq![s[0]] + s.skip(1));
    }
}

/// Deleting a pattern that occurs exactly once cuts out exactly that
/// occurrence.
pub proof fn lemma_remove_single(s: Seq<char>, pat: Seq<char>, i: int)
    requires
        pat.len() >= 1,
        is_match_at(s, pat, i),
        forall|j: int| j != i ==> !is_match_at(s, pat, j),
    ensures
        remove_all(s, pat) == s.take(i) + s.skip(i + pat.len()),
    decreases i,
{
    if i == 0 {
        lemma_replace_step_match(s, pat, Seq::empty());
        assert(!has_sub(s.skip(pat.len() as int), pat)) by {
            if has_sub(s.skip(pat.len() as int), pat) {
                let k = choose|k: int| is_match_at(s.skip(pat.len() as int), pat, k);
                lemma_match_skip(s, pat, pat.len() as int, k);
            }
        }
        lemma_replace_noop(s.skip(pat.len() as int), pat, Seq::empty());
        assert(Seq::<char>::empty() + s.skip(pat.len() as int) =~= s.take(0) + s.skip(
            pat.len() as int,
        ));
    } else {
        assert(!is_match_at(s, pat, 0));
        lemma_replace_step_miss(s, pat, Seq::empty());
        assert(is_match_at(s.skip(1), pat, i - 1)) by {
            lemma_match_skip(s, pat, 1, i - 1);
        }
        assert(forall|j: int| j != i - 1 ==> !is_match_at(s.skip(1), pat, j)) by {
            assert forall|j: int| j != i - 1 && is_match_at(s.skip(1), pat, j) implies false by {
                lemma_match_skip(s, pat, 1, j);
            }
        }
        lemma_remove_single(s.skip(1), pat, i - 1);
        assert(seq![s[0]] + (s.skip(1).take(i - 1) + s.skip(1).skip(i - 1 + pat.len())) =~= s.take(
            i,
        ) + s.skip(i + pat.len()));
    }
}

/// `p` is a prefix of `x`.
pub open spec fn prefix_of(p: Seq<char>, x: Seq<char>) -> bool {
    p.len() <= x.len() && x.subrange(0, p.len() as int) == p
}

/// No character of `a` occurs in `b`.
pub open spec fn chars_disjoint(a: Seq<char>, b: Seq<char>) -> bool {
    forall|i: int, j: int| 0 <= i < a.len() && 0 <= j < b.len() ==> a[i] != b[j]
}

/// If the replaced text starts with a proper suffix of the pattern, the
/// original text did too: replacement whose characters are disjoint from
/// the pattern cannot manufacture that suffix.
proof fn lemma_replace_suffix_prefix(s: Seq<char>, pat: Seq<char>, rep: Seq<char>, j: int)
    requires
        pat.len() >= 1,
        rep.len() >= 1,
        chars_disjoint(rep, pat),
        1 <= j <= pat.len(),
        prefix_of(pat.skip(j), replace_all(s, pat, rep)),
    ensures
        prefix_of(pat.skip(j), s),
    decreases s.len(),
{
    let r = replace_all(s, pat, rep);
    let p = pat.skip(j);
    if j == pat.len() {
        assert(p =~= Seq::<char>::empty());
        assert(s.subrange(0, 0) =~= Seq::<char>::empty());
    } else {
        assert(p.len() >= 1);
        assert(r.subrange(0, p.len() as int)[0] == r[0]);
        assert(p[0] == pat[j]);
        if s.len() < pat.len() {
            // Nothing was replaced.
        } else if is_match_at(s, pat, 0) {
            lemma_replace_step_match(s, pat, rep);
            assert(r[0] == rep[0]);
            assert(false);
        } else {
            lemma_replace_step_miss(s, pat, rep);
            assert(r[0] == s[0]);
            let r1 = replace_all(s.skip(1), pat, rep);
            assert(r.skip(1) =~= r1);
            assert(prefix_of(pat.skip(j + 1), r1)) by {
                assert(r1.subrange(0, pat.skip(j + 1).len() as int) =~= pat.skip(j + 1)) by {
                    assert(forall|k: int|
                        0 <= k < pat.skip(j + 1).len() ==> r1[k] == r[k + 1]
                            && #[trigger] pat.skip(j + 1)[k] == p[k + 1]);
                    assert(forall|k: int|
                        0 <= k < p.len() ==> r.subrange(0, p.len() as int)[k] == r[k]);
                }
            }
            lemma_replace_suffix_prefix(s.skip(1), pat, rep, j + 1);
            assert(s[0] == pat[j]);
            assert(pat.skip(j + 1).len() <= s.skip(1).len());
            assert(p.len() <= s.len());
            assert forall|k: int|
                0 <= k < p.len() implies s.subrange(0, p.len() as int)[k] == p[k] by {
                assert(s.subrange(0, p.len() as int)[k] == s[k]);
                assert(p[k] == pat[j + k]);
                if k >= 1 {
                    assert(s[k] == s.skip(1)[k - 1]);
                    assert(s.skip(1).subrange(0, pat.skip(j + 1).len() as int)[k - 1]
                        == s.skip(1)[k - 1]);
                    assert(pat.skip(j + 1)[k - 1] == pat[j + k]);
                }
            }
            assert(s.subrange(0, p.len() as int) =~= p);
        }
    }
}

/// Replacement closure: replacing a pattern by text whose characters are
/// all foreign to the pattern leaves no occurrence of the pattern behind.
pub proof fn lemma_replace_closure(s: Seq<char>, pat: Seq<char>, rep: Seq<char>)
    requires
        pat.len() >= 1,
        rep.len() >= 1,
        chars_disjoint(rep, pat),
    ensures
        !has_sub(replace_all(s, pat, rep), pat),
    decreases s.len(),
{
    let r = replace_all(s, pat, rep);
    if s.len() < pat.len() {
        assert(!has_sub(r, pat)) by {
            if has_sub(r, pat) {
                let q = choose|q: int| is_match_at(r, pat, q);
            }
        }
    } else if is_match_at(s, pat, 0) {
        lemma_replace_step_match(s, pat, rep);
        lemma_replace_closure(s.skip(pat.len() as int), pat, rep);
        let r1 = replace_all(s.skip(pat.len() as int), pat, rep);
        assert(!has_sub(r, pat)) by {
            if has_sub(r, pat) {
                let q = choose|q: int| is_match_at(r, pat, q);
                assert(r.subrange(q, q + pat.len())[0] == r[q]);
                if q < rep.len() {
                    assert(r[q] == rep[q]);
                    assert(pat[0] == rep[q]);
                } else {
                    assert(r.subrange(q, q + pat.len()) =~= r1.subrange(
                        q - rep.len(),
                        q - rep.len() + pat.len(),
                    ));
                    assert(is_match_at(r1, pat, q - rep.len()));
                }
            }
        }
    } else {
        lemma_replace_step_miss(s, pat, rep);
        lemma_replace_closure(s.skip(1), pat, rep);
        let r1 = replace_all(s.skip(1), pat, rep);
        assert(r.skip(1) =~= r1);
        assert(!has_sub(r, pat)) by {
            if has_sub(r, pat) {
                let q = choose|q: int| is_match_at(r, pat, q);
                if q >= 1 {
                    assert(r.subrange(q, q + pat.len()) =~= r1.subrange(
                        q - 1,
                        q - 1 + pat.len(),
                    ));
                    assert(is_match_at(r1, pat, q - 1));
                } else {
                    // An occurrence at the very front would extend a match
                    // of the pattern back into the unchanged text.
                    assert(r.subrange(0, pat.len() as int)[0] == r[0]);
                    assert(pat[0] == s[0]);
                    assert(prefix_of(pat.skip(1), r1)) by {
                        assert(r1.subrange(0, pat.skip(1).len() as int) =~= pat.skip(1)) by {
                            assert(forall|k: int|
                                0 <= k < pat.skip(1).len() ==> r1[k] == r[k + 1]
                                    && #[trigger] pat.skip(1)[k] == pat[k + 1]);
                            assert(forall|k: int|
                                0 <= k < pat.len() ==> r.subrange(0, pat.len() as int)[k]
                                    == r[k]);
                        }
                    }
                    lemma_replace_suffix_prefix(s.skip(1), pat, rep, 1);
                    assert(pat.skip(1).len() <= s.skip(1).len());
                    assert forall|k: int|
                        0 <= k < pat.len() implies s.subrange(0, pat.len() as int)[k]
                        == pat[k] by {
                        assert(s.subrange(0, pat.len() as int)[k] == s[k]);
                        if k >= 1 {
                            assert(s[k] == s.skip(1)[k - 1]);
                            assert(s.skip(1).subrange(0, pat.skip(1).len() as int)[k - 1]
                                == s.skip(1)[k - 1]);
                            assert(pat.skip(1)[k - 1] == pat[k]);
                        }
                    }
                    assert(s.subrange(0, pat.len() as int) =~= pat);
                    assert(is_match_at(s, pat, 0));
                }
            }
        }
    }
}

/// Replaces every occurrence of `pat` in `s` by `rep`.
pub fn replace_all_vec(s: &Vec<char>, pat: &Vec<char>, rep: &Vec<char>) -> (r: Vec<char>)
    ensures
        r@ == replace_all(s@, pat@, rep@),
{
    let mut out: Vec<char> = Vec::new();
    if pat.len() == 0 {
        let mut k: usize = 0;
        while k < s.len()
            invariant
                out@ == s@.take(k as int),
                k <= s@.len(),
            decreases s@.len() - k,
        {
            out.push(s[k]);
            assert(out@ =~= s@.take(k + 1));
            k += 1;
        }
        assert(out@ =~= s@);
        return out;
    }
    proof {
        assert(s@.skip(0) =~= s@);
        assert(Seq::<char>::empty() + replace_all(s@, pat@, rep@) =~= replace_all(
            s@,
            pat@,
            rep@,
        ));
    }
    let mut i: usize = 0;
    while i < s.len()
        invariant
            i <= s@.len(),
            pat@.len() >= 1,
            replace_all(s@, pat@, rep@) == out@ + replace_all(s@.skip(i as int), pat@, rep@),
        decreases s@.len() - i,
    {
        if match_at(s, pat, i) {
            proof {
                lemma_match_skip(s@, pat@, i as int, 0);
                lemma_replace_step_match(s@.skip(i as int), pat@, rep@);
                assert(s@.skip(i as int).skip(pat@.len() as int) =~= s@.skip(
                    i + pat@.len(),
                ));
            }
            let ghost prev = out@;
            let mut k: usize = 0;
            while k < rep.len()
                invariant
                    out@ == prev + rep@.take(k as int),
                    k <= rep@.len(),
            decreases rep@.len() - k,
            {
                out.push(rep[k]);
                assert(out@ =~= prev + rep@.take(k + 1));
                k += 1;
            }
            assert(out@ =~= prev + rep@);
            i += pat.len();
        } else {
            proof {
                lemma_match_skip(s@, pat@, i as int, 0);
                lemma_replace_step_miss(s@.skip(i as int), pat@, rep@);
                assert(s@.skip(i as int).skip(1) =~= s@.skip(i + 1));
                assert(s@.skip(i as int)[0] == s@[i as int]);
            }
            out.push(s[i]);
            i += 1;
        }
    }
    proof {
        assert(s@.skip(s@.len() as int) =~= Seq::<char>::empty());
    }
    out
}

// ---------------------------------------------------------------------------
// Lines
// ---------------------------------------------------------------------------

/// Index of the first newline in `s`, or `s.len()` if there is none.
pub open spec fn line_break(s: Seq<char>) -> int
    decreases s.len(),
{
    if s.len() == 0 {
        0
    } else if s[0] == '\n' {
        0
    } else {
        1 + line_break(s.skip(1))
    }
}

pub proof fn lemma_line_break(s: Seq<char>)
    ensures
        0 <= line_break(s) <= s.len(),
        line_break(s) < s.len() ==> s[line_break(s)] == '\n',
        forall|k: int| 0 <= k < line_break(s) ==> s[k] != '\n',
    decreases s.len(),
{
    if s.len() == 0 {
    } else if s[0] == '\n' {
    } else {
        lemma_line_break(s.skip(1));
        assert forall|k: int| 1 <= k < line_break(s) implies s[k] != '\n' by {
            assert(s.skip(1)[k - 1] == s[k]);
        }
        if line_break(s) < s.len() {
            assert(s.skip(1)[line_break(s) - 1] == s[line_break(s)]);
        }
    }
}

/// The lines of `s`, split on `'\n'`; the separator belongs to no line.
/// Text without a newline is a single line, so there is always at least
/// one line, and a trailing newline yields a final empty line.
pub open spec fn lines_of(s: Seq<char>) -> Seq<Seq<char>>
    decreases s.len(),
        via lines_of_dec
{
    if line_break(s) >= s.len() {
        seq![s]
    } else {
        seq![s.take(line_break(s))] + lines_of(s.skip(line_break(s) + 1))
    }
}

#[via_fn]
proof fn lines_of_dec(s: Seq<char>) {
    lemma_line_break(s);
}

/// Joins lines with single `'\n'` separators.
pub open spec fn unlines(ls: Seq<Seq<char>>) -> Seq<char>
    decreases ls.len(),
{
    if ls.len() == 0 {
        Seq::empty()
    } else if ls.len() == 1 {
        ls[0]
    } else {
        ls[0] + seq!['\n'] + unlines(ls.skip(1))
    }
}

/// `s` has no newline character.
pub open spec fn no_newline(s: Seq<char>) -> bool {
    forall|k: int| 0 <= k < s.len() ==> s[k] != '\n'
}

pub proof fn lemma_line_break_prefix(c: Seq<char>, r: Seq<char>)
    requires
        no_newline(c),
    ensures
        line_break(c + r) == c.len() + line_break(r),
    decreases c.len(),
{
    if c.len() == 0 {
        assert(c + r =~= r);
    } else {
        assert((c + r)[0] == c[0]);
        assert((c + r).skip(1) =~= c.skip(1) + r);
        assert(no_newline(c.skip(1))) by {
            assert(forall|k: int| 0 <= k < c.skip(1).len() ==> c.skip(1)[k] == c[k + 1]);
        }
        lemma_line_break_prefix(c.skip(1), r);
    }
}

/// Splitting off a first newline-free line.
pub proof fn lemma_lines_of_prefix(c: Seq<char>, r: Seq<char>)
    requires
        no_newline(c),
    ensures
        lines_of(c + seq!['\n'] + r) == seq![c] + lines_of(r),
        lines_of(c) == seq![c],
{
    lemma_line_break(seq!['\n'] + r);
    assert(line_break(seq!['\n'] + r) == 0);
    lemma_line_break_prefix(c, seq!['\n'] + r);
    assert(c + seq!['\n'] + r =~= c + (seq!['\n'] + r));
    let s = c + seq!['\n'] + r;
    assert(line_break(s) == c.len());
    assert(s.take(c.len() as int) =~= c);
    assert(s.skip(c.len() as int + 1) =~= r);
    lemma_line_break_prefix(c, Seq::empty());
    assert(c + Seq::<char>::empty() =~= c);
    assert(line_break(c) == c.len());
}

/// Splitting and joining are mutually inverse.
pub proof fn lemma_unlines_lines(s: Seq<char>)
    ensures
        unlines(lines_of(s)) == s,
    decreases s.len(),
{
    lemma_line_break(s);
    let i = line_break(s);
    if i >= s.len() {
    } else {
        lemma_unlines_lines(s.skip(i + 1));
        let rest = lines_of(s.skip(i + 1));
        assert(rest.len() >= 1);
        let all = seq![s.take(i)] + rest;
        assert(all.len() >= 2);
        assert(all.skip(1) =~= rest);
        assert(s.take(i) + seq!['\n'] + unlines(rest) =~= s);
    }
}

/// `unlines` splits at any interior line boundary.
pub proof fn lemma_unlines_split(ls: Seq<Seq<char>>, i: int)
    requires
        1 <= i < ls.len(),
    ensures
        unlines(ls) == unlines(ls.take(i)) + seq!['\n'] + unlines(ls.skip(i)),
    decreases i,
{
    if i == 1 {
        assert(ls.take(1) =~= seq![ls[0]]);
        assert(unlines(ls.take(1)) == ls[0]);
    } else {
        lemma_unlines_split(ls.skip(1), i - 1);
        assert(ls.skip(1).take(i - 1) =~= ls.take(i).skip(1));
        assert(ls.skip(1).skip(i - 1) =~= ls.skip(i));
        assert(ls.take(i).len() >= 2);
        assert(ls.take(i)[0] == ls[0]);
        assert(ls[0] + seq!['\n'] + (unlines(ls.take(i).skip(1)) + seq!['\n'] + unlines(
            ls.skip(i),
        )) =~= (ls.take(i)[0] + seq!['\n'] + unlines(ls.take(i).skip(1))) + seq!['\n'] + unlines(
            ls.skip(i),
        ));
    }
}

/// Splits `s` into its lines.
pub fn split_lines(s: &Vec<char>) -> (r: Vec<Vec<char>>)
    ensures
        r.deep_view() == lines_of(s@),
{
    let mut out: Vec<Vec<char>> = Vec::new();
    let mut cur: Vec<char> = Vec::new();
    let mut i: usize = 0;
    proof {
        assert(Seq::<char>::empty() + s@.skip(0) =~= s@);
    }
    while i < s.len()
        invariant
            i <= s@.len(),
            no_newline(cur@),
            lines_of(s@) == out.deep_view() + lines_of(cur@ + s@.skip(i as int)),
        decreases s@.len() - i,
    {
        let c = s[i];
        if c == '\n' {
            proof {
                lemma_lines_of_prefix(cur@, s@.skip(i + 1));
                assert(cur@ + s@.skip(i as int) =~= cur@ + seq!['\n'] + s@.skip(i + 1));
            }
            let ghost prev = out.deep_view();
            let ghost curv = cur@;
            out.push(cur);
            proof {
                assert(out.deep_view() =~~= prev.push(curv));
                assert(prev.push(curv) =~= prev + seq![curv]);
            }
            cur = Vec::new();
            proof {
                assert((prev + seq![curv]) + lines_of(cur@ + s@.skip(i + 1)) =~= prev + (
                seq![curv] + lines_of(s@.skip(i + 1))));
                assert(cur@ + s@.skip(i + 1) =~= s@.skip(i + 1));
            }
        } else {
            proof {
                assert(cur@ + s@.skip(i as int) =~= cur@.push(c) + s@.skip(i + 1));
                assert(forall|k: int|
                    0 <= k < cur@.push(c).len() ==> cur@.push(c)[k] != '\n');
            }
            cur.push(c);
        }
        i += 1;
    }
    proof {
        lemma_lines_of_prefix(cur@, Seq::empty());
        assert(cur@ + s@.skip(s@.len() as int) =~= cur@);
    }
    let ghost prev = out.deep_view();
    let ghost curv = cur@;
    out.push(cur);
    proof {
        assert(out.deep_view() =~~= prev.push(curv));
        assert(prev + seq![curv] =~= prev.push(curv));
    }
    out
}

/// Joins lines with `'\n'`.
pub fn join_lines(ls: &Vec<Vec<char>>) -> (r: Vec<char>)
    ensures
        r@ == unlines(ls.deep_view()),
{
    let mut out: Vec<char> = Vec::new();
    let mut i: usize = 0;
    while i < ls.len()
        invariant
            i <= ls@.len(),
            ls.deep_view().len() == ls@.len(),
            i == 0 ==> out@ == Seq::<char>::empty(),
            i >= 1 ==> out@ == unlines(ls.deep_view().take(i as int)),
        decreases ls@.len() - i,
    {
        if i > 0 {
            out.push('\n');
        }
        let ghost prev = out@;
        let line = &ls[i];
        let mut k: usize = 0;
        while k < line.len()
            invariant
                out@ == prev + line@.take(k as int),
                k <= line@.len(),
            decreases line@.len() - k,
        {
            out.push(line[k]);
            assert(out@ =~= prev + line@.take(k + 1));
            k += 1;
        }
        proof {
            let dv = ls.deep_view();
            assert(line@ =~= dv[i as int]);
            assert(out@ =~= prev + dv[i as int]);
            if i == 0 {
                assert(dv.take(1) =~= seq![dv[0]]);
                assert(out@ =~= unlines(dv.take(1)));
            } else {
                lemma_unlines_split(dv.take(i + 1), i as int);
                assert(dv.take(i + 1).take(i as int) =~= dv.take(i as int));
                assert(dv.take(i + 1).skip(i as int) =~= seq![dv[i as int]]);
                assert(out@ =~= unlines(dv.take(i as int)) + seq!['\n'] + dv[i as int]);
            }
        }
        i += 1;
    }
    proof {
        if ls@.len() > 0 {
            assert(ls.deep_view().take(ls@.len() as int) =~= ls.deep_view());
        }
    }
    out
}

// ---------------------------------------------------------------------------
// Conversions between strings and character vectors
// ---------------------------------------------------------------------------

/// The characters of `s`, as a vector.
pub fn str_to_chars(s: &str) -> (r: Vec<char>)
    ensures
        r@ == s@,
{
    let n = s.unicode_len();
    let mut r: Vec<char> = Vec::new();
    let mut i: usize = 0;
    while i < n
        invariant
            n == s@.len(),
            i <= n,
            r@ == s@.take(i as int),
        decreases n - i,
    {
        r.push(s.get_char(i));
        assert(r@ =~= s@.take(i + 1));
        i += 1;
    }
    assert(s@.take(n as int) =~= s@);
    r
}

/// Relies on `String`'s `FromIterator` over `char`: collecting characters
/// yields a string of exactly those characters.
#[verifier::external_body]
pub fn chars_to_string(v: &Vec<char>) -> (r: String)
    ensures
        r@ == v@,
{
    v.iter().collect()
}

/// A copy of `v`.
pub fn copy_chars(v: &Vec<char>) -> (r: Vec<char>)
    ensures
        r@ == v@,
{
    let mut out: Vec<char> = Vec::new();
    let mut k: usize = 0;
    while k < v.len()
        invariant
            k <= v@.len(),
            out@ == v@.take(k as int),
        decreases v@.len() - k,
    {
        out.push(v[k]);
        assert(out@ =~= v@.take(k + 1));
        k += 1;
    }
    assert(v@.take(v@.len() as int) =~= v@);
    out
}

/// The characters of `v` from `a` (inclusive) to `b` (exclusive).
pub fn subrange_chars(v: &Vec<char>, a: usize, b: usize) -> (r: Vec<char>)
    requires
        a <= b <= v@.len(),
    ensures
        r@ == v@.subrange(a as int, b as int),
{
    let mut out: Vec<char> = Vec::new();
    let mut k: usize = a;
    while k < b
        invariant
            a <= k <= b <= v@.len(),
            out@ == v@.subrange(a as int, k as int),
        decreases b - k,
    {
        out.push(v[k]);
        assert(out@ =~= v@.subrange(a as int, k + 1));
        k += 1;
    }
    out
}

/// Character-wise equality of two vectors.
pub fn eq_chars(a: &Vec<char>, b: &Vec<char>) -> (r: bool)
    ensures
        r == (a@ == b@),
{
    if a.len() != b.len() {
        return false;
    }
    let mut k: usize = 0;
    while k < a.len()
        invariant
            a@.len() == b@.len(),
            k <= a@.len(),
            forall|j: int| 0 <= j < k ==> a@[j] == b@[j],
        decreases a@.len() - k,
    {
        if a[k] != b[k] {
            return false;
        }
        k += 1;
    }
    assert(a@ =~= b@);
    true
}

// ---------------------------------------------------------------------------
// Trimming
// ---------------------------------------------------------------------------

/// Horizontal whitespace, the kind that may surround a marker on its line.
pub open spec fn is_space(c: char) -> bool {
    c == ' ' || c == '\t' || c == '\r'
}

pub open spec fn trim_start(s: Seq<char>) -> Seq<char>
    decreases s.len(),
{
    if s.len() > 0 && is_space(s[0]) {
        trim_start(s.skip(1))
    } else {
        s
    }
}

pub open spec fn trim_end(s: Seq<char>) -> Seq<char>
    decreases s.len(),
{
    if s.len() > 0 && is_space(s[s.len() - 1]) {
        trim_end(s.take(s.len() - 1))
    } else {
        s
    }
}

/// `s` without leading and trailing whitespace.
pub open spec fn trim(s: Seq<char>) -> Seq<char> {
    trim_end(trim_start(s))
}

pub proof fn lemma_trim_start_skip(s: Seq<char>, a: int)
    requires
        0 <= a <= s.len(),
        forall|k: int| 0 <= k < a ==> is_space(s[k]),
        a == s.len() || !is_space(s[a]),
    ensures
        trim_start(s) == s.skip(a),
    decreases a,
{
    if a == 0 {
        assert(s.skip(0) =~= s);
    } else {
        assert(is_space(s[0]));
        assert(forall|k: int| 0 <= k < a - 1 ==> s.skip(1)[k] == s[k + 1]);
        if a < s.len() {
            assert(s.skip(1)[a - 1] == s[a]);
        }
        lemma_trim_start_skip(s.skip(1), a - 1);
        assert(s.skip(1).skip(a - 1) =~= s.skip(a));
    }
}

pub proof fn lemma_trim_end_take(s: Seq<char>, b: int)
    requires
        0 <= b <= s.len(),
        forall|k: int| b <= k < s.len() ==> is_space(s[k]),
        b == 0 || !is_space(s[b - 1]),
    ensures
        trim_end(s) == s.take(b),
    decreases s.len(),
{
    if b == s.len() {
        assert(s.take(b) =~= s);
    } else {
        assert(is_space(s[s.len() - 1]));
        let t = s.take(s.len() - 1);
        assert(forall|k: int| b <= k < t.len() ==> t[k] == s[k]);
        if b > 0 {
            assert(t[b - 1] == s[b - 1]);
        }
        lemma_trim_end_take(t, b);
        assert(t.take(b) =~= s.take(b));
    }
}

fn space_char(c: char) -> (r: bool)
    ensures
        r == is_space(c),
{
    c == ' ' || c == '\t' || c == '\r'
}

/// `s` with leading and trailing whitespace removed.
pub fn trim_vec(s: &Vec<char>) -> (r: Vec<char>)
    ensures
        r@ == trim(s@),
{
    let mut a: usize = 0;
    while a < s.len() && space_char(s[a])
        invariant
            a <= s@.len(),
            forall|k: int| 0 <= k < a ==> is_space(s@[k]),
        decreases s@.len() - a,
    {
        a += 1;
    }
    let mut b: usize = s.len();
    while b > a && space_char(s[b - 1])
        invariant
            a <= b <= s@.len(),
            forall|k: int| b <= k < s@.len() ==> is_space(s@[k]),
        decreases b,
    {
        b -= 1;
    }
    proof {
        lemma_trim_start_skip(s@, a as int);
        let t = s@.skip(a as int);
        assert(forall|k: int| b - a <= k < t.len() ==> t[k] == s@[k + a]);
        if b > a {
            assert(t[b - a - 1] == s@[b - 1]);
        }
        lemma_trim_end_take(t, b - a);
    }
    let mut out: Vec<char> = Vec::new();
    let mut k: usize = a;
    while k < b
        invariant
            a <= k <= b <= s@.len(),
            out@ == s@.subrange(a as int, k as int),
        decreases b - k,
    {
        out.push(s[k]);
        assert(out@ =~= s@.subrange(a as int, k + 1));
        k += 1;
    }
    proof {
        assert(s@.subrange(a as int, b as int) =~= s@.skip(a as int).take(b - a));
    }
    out
}

// ---------------------------------------------------------------------------
// Decimal rendering
// ---------------------------------------------------------------------------

pub open spec fn digit_char(d: int) -> char {
    if d == 0 {
        '0'
    } else if d == 1 {
        '1'
    } else if d == 2 {
        '2'
    } else if d == 3 {
        '3'
    } else if d == 4 {
        '4'
    } else if d == 5 {
        '5'
    } else if d == 6 {
        '6'
    } else if d == 7 {
        '7'
    } else if d == 8 {
        '8'
    } else {
        '9'
    }
}

/// The decimal digits of `n`, most significant first, with no sign and no
/// leading zero (except for `n == 0` itself).
pub open spec fn dec_digits(n: int) -> Seq<char>
    decreases n,
{
    if n < 10 {
        seq![digit_char(n)]
    } else {
        dec_digits(n / 10) + seq![digit_char(n % 10)]
    }
}

fn digit_of(d: u32) -> (r: char)
    requires
        d < 10,
    ensures
        r == digit_char(d as int),
{
    if d == 0 {
        '0'
    } else if d == 1 {
        '1'
    } else if d == 2 {
        '2'
    } else if d == 3 {
        '3'
    } else if d == 4 {
        '4'
    } else if d == 5 {
        '5'
    } else if d == 6 {
        '6'
    } else if d == 7 {
        '7'
    } else if d == 8 {
        '8'
    } else {
        '9'
    }
}

/// Renders `n` in decimal.
pub fn u32_to_chars(n: u32) -> (r: Vec<char>)
    ensures
        r@ == dec_digits(n as int),
{
    let mut acc: Vec<char> = Vec::new();
    let mut m: u32 = n;
    acc.push(digit_of(m % 10));
    proof {
        if n < 10 {
            assert(acc@.reverse() =~= seq![digit_char(n as int)]);
        } else {
            assert(acc@.reverse() =~= seq![digit_char(n as int % 10)]);
        }
    }
    m = m / 10;
    while m > 0
        invariant
            m > 0 ==> dec_digits(n as int) == dec_digits(m as int) + acc@.reverse(),
            m == 0 ==> dec_digits(n as int) == acc@.reverse(),
        decreases m,
    {
        let ghost prev = acc@;
        let d = m % 10;
        acc.push(digit_of(d));
        proof {
            assert(acc@.reverse() =~= seq![digit_char(d as int)] + prev.reverse());
        }
        m = m / 10;
    }
    let mut out: Vec<char> = Vec::new();
    let mut k: usize = acc.len();
    while k > 0
        invariant
            k <= acc@.len(),
            out@ == acc@.reverse().take(acc@.len() - k),
        decreases k,
    {
        k -= 1;
        out.push(acc[k]);
        assert(out@ =~= acc@.reverse().take(acc@.len() - k));
    }
    proof {
        assert(acc@.reverse().take(acc@.len() as int) =~= acc@.reverse());
    }
    out
}

} // verus!
