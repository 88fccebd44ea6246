//! Text operations on `str`, each specified over the sequence of chars.
use vstd::prelude::*;

verus! {

/// The part of `s` after the last occurrence of `sep`, or all of `s` when
/// `sep` does not occur (the last item of `s.split(sep)`).
pub open spec fn after_last(s: Seq<char>, sep: char) -> Seq<char>
    decreases s.len(),
{
    if s.len() == 0 {
        s
    } else if s.last() == sep {
        Seq::empty()
    } else {
        after_last(s.drop_last(), sep).push(s.last())
    }
}

/// `s` with every occurrence of `pat` removed, scanning from the left and
/// never letting two removed occurrences overlap (`s.replace(pat, "")`).
pub open spec fn remove_all(s: Seq<char>, pat: Seq<char>) -> Seq<char>
    decreases s.len(),
{
    if pat.len() == 0 || s.len() < pat.len() {
        s
    } else if s.take(pat.len() as int) == pat {
        remove_all(s.skip(pat.len() as int), pat)
    } else {
        seq![s[0]] + remove_all(s.skip(1), pat)
    }
}

/// `c` occurs in `s`.
pub open spec fn has_char(s: Seq<char>, c: char) -> bool {
    exists|i: int| 0 <= i < s.len() && s[i] == c
}

/// The suffix that `after_last` keeps never holds the separator.
pub proof fn lemma_after_last_has_no_sep(s: Seq<char>, sep: char)
    ensures
        !has_char(after_last(s, sep), sep),
        after_last(s, sep).len() <= s.len(),
    decreases s.len(),
{
    if s.len() > 0 && s.last() != sep {
        lemma_after_last_has_no_sep(s.drop_last(), sep);
        let r = after_last(s.drop_last(), sep);
        assert forall|i: int| 0 <= i < r.push(s.last()).len() implies r.push(s.last())[i] != sep by {
            if i < r.len() {
                assert(r.push(s.last())[i] == r[i]);
            }
        }
    }
}

/// Removing a pattern never brings in a char that was not there.
pub proof fn lemma_remove_all_keeps_absent_char(s: Seq<char>, pat: Seq<char>, c: char)
    requires
        !has_char(s, c),
    ensures
        !has_char(remove_all(s, pat), c),
        remove_all(s, pat).len() <= s.len(),
    decreases s.len(),
{
    if pat.len() == 0 || s.len() < pat.len() {
    } else if s.take(pat.len() as int) == pat {
        assert forall|i: int| 0 <= i < s.skip(pat.len() as int).len() implies s.skip(
            pat.len() as int,
        )[i] != c by {
            assert(s.skip(pat.len() as int)[i] == s[i + pat.len()]);
        }
        lemma_remove_all_keeps_absent_char(s.skip(pat.len() as int), pat, c);
    } else {
        assert forall|i: int| 0 <= i < s.skip(1).len() implies s.skip(1)[i] != c by {
            assert(s.skip(1)[i] == s[i + 1]);
        }
        lemma_remove_all_keeps_absent_char(s.skip(1), pat, c);
        let r = remove_all(s.skip(1), pat);
        assert forall|i: int| 0 <= i < (seq![s[0]] + r).len() implies (seq![s[0]] + r)[i]
            != c by {
            if i > 0 {
                assert((seq![s[0]] + r)[i] == r[i - 1]);
            }
        }
    }
}

/// When `pat` does not occur at the front of `s`, the first char stays and
/// the rest is scanned on.
pub proof fn lemma_remove_all_step(s: Seq<char>, pat: Seq<char>)
    requires
        s.len() > 0,
        pat.len() > 0,
        !(s.len() >= pat.len() && s.take(pat.len() as int) == pat),
    ensures
        remove_all(s, pat) == seq![s[0]] + remove_all(s.skip(1), pat),
{
    if s.len() < pat.len() {
        assert(s.skip(1).len() < pat.len());
        assert(seq![s[0]] + s.skip(1) =~= s);
    }
}

/// Whether `pat` occurs in `s` at char position `at`.
fn occurs_at(s: &str, n: usize, pat: &str, m: usize, at: usize) -> (r: bool)
    requires
        n == s@.len(),
        m == pat@.len(),
        at + m <= n,
    ensures
        r == (s@.subrange(at as int, at + m) == pat@),
{
    let mut k: usize = 0;
    while k < m
        invariant
            n == s@.len(),
            m == pat@.len(),
            at + m <= n,
            k <= m,
            forall|j: int| 0 <= j < k ==> s@[at + j] == pat@[j],
        decreases m - k,
    {
        if s.get_char(at + k) != pat.get_char(k) {
            assert(s@.subrange(at as int, at + m)[k as int] != pat@[k as int]);
            return false;
        }
        k = k + 1;
    }
    assert(s@.subrange(at as int, at + m) =~= pat@);
    true
}

/// The part of `s` after its last `sep` (all of `s` when there is none).
pub fn last_segment(s: &str, sep: char) -> (r: &str)
    ensures
        r@ == after_last(s@, sep),
{
    let n = s.unicode_len();
    let mut j: usize = n;
    assert(s@.take(n as int) =~= s@);
    assert(after_last(s@, sep) + s@.subrange(n as int, n as int) =~= after_last(s@, sep));
    while j > 0 && s.get_char(j - 1) != sep
        invariant
            n == s@.len(),
            j <= n,
            after_last(s@, sep) == after_last(s@.take(j as int), sep) + s@.subrange(
                j as int,
                n as int,
            ),
        decreases j,
    {
        let ghost t = s@.take(j as int);
        assert(t.last() == s@[j - 1]);
        assert(t.drop_last() =~= s@.take(j - 1));
        assert(s@.subrange(j - 1, n as int) =~= seq![s@[j - 1]] + s@.subrange(j as int, n as int));
        assert(after_last(t, sep) == after_last(s@.take(j - 1), sep).push(s@[j - 1]));
        assert(after_last(s@.take(j - 1), sep).push(s@[j - 1]) + s@.subrange(j as int, n as int)
            =~= after_last(s@.take(j - 1), sep) + s@.subrange(j - 1, n as int));
        j = j - 1;
    }
    if j > 0 {
        assert(s@.take(j as int).last() == s@[j - 1]);
    } else {
        assert(s@.take(0).len() == 0);
    }
    assert(after_last(s@.take(j as int), sep) =~= Seq::<char>::empty());
    assert(Seq::<char>::empty() + s@.subrange(j as int, n as int) =~= s@.subrange(j as int, n as int));
    s.substring_char(j, n)
}

/// `s` with every occurrence of `pat` removed, leftmost first and without
/// overlaps.
pub fn remove_occurrences(s: &str, pat: &str) -> (r: String)
    ensures
        r@ == remove_all(s@, pat@),
{
    let n = s.unicode_len();
    let m = pat.unicode_len();
    if m == 0 {
        return String::from_str(s);
    }
    let mut out = String::new();
    let mut seg: usize = 0;
    let mut i: usize = 0;
    assert(s@.skip(0) =~= s@);
    while i < n
        invariant
            n == s@.len(),
            m == pat@.len(),
            m > 0,
            seg <= i <= n,
            out@ + s@.subrange(seg as int, i as int) + remove_all(s@.skip(i as int), pat@)
                == remove_all(s@, pat@),
        decreases n - i,
    {
        let ghost rest = s@.skip(i as int);
        if m <= n - i && occurs_at(s, n, pat, m, i) {
            assert(rest.take(m as int) =~= s@.subrange(i as int, i + m));
            assert(rest.skip(m as int) =~= s@.skip(i + m));
            assert(remove_all(rest, pat@) == remove_all(s@.skip(i + m), pat@));
            let piece = s.substring_char(seg, i);
            out.append(piece);
            assert(s@.subrange((i + m) as int, (i + m) as int) =~= Seq::<char>::empty());
            assert(out@ + s@.subrange((i + m) as int, (i + m) as int) =~= out@);
            i = i + m;
            seg = i;
        } else {
            assert(rest.len() > 0);
            assert(rest.len() >= pat@.len() ==> rest.take(m as int) =~= s@.subrange(
                i as int,
                i + m,
            ));
            proof { lemma_remove_all_step(rest, pat@); }
            assert(rest.skip(1) =~= s@.skip(i + 1));
            assert(rest[0] == s@[i as int]);
            assert(s@.subrange(seg as int, i + 1) =~= s@.subrange(seg as int, i as int).push(
                s@[i as int],
            ));
            assert(out@ + s@.subrange(seg as int, i + 1) + remove_all(s@.skip(i + 1), pat@)
                =~= out@ + s@.subrange(seg as int, i as int) + (seq![s@[i as int]] + remove_all(
                s@.skip(i + 1),
                pat@,
            )));
            i = i + 1;
        }
    }
    assert(s@.skip(n as int).len() == 0);
    assert(remove_all(s@.skip(n as int), pat@) =~= Seq::<char>::empty());
    let tail = s.substring_char(seg, n);
    out.append(tail);
    assert(out@ =~= remove_all(s@, pat@));
    out
}

/// `pat` occurs in `s` at position `i`.
pub open spec fn occurs_in_at(s: Seq<char>, pat: Seq<char>, i: int) -> bool {
    0 <= i && i + pat.len() <= s.len() && s.subrange(i, i + pat.len()) == pat
}

/// `after_last` is the last segment: a suffix of `s` without `sep`, which is
/// either all of `s` or comes right after a `sep`.
pub proof fn law_after_last_is_last_segment(s: Seq<char>, sep: char)
    ensures
        ({
            let r = after_last(s, sep);
            &&& r.len() <= s.len()
            &&& s.skip(s.len() - r.len()) == r
            &&& !has_char(r, sep)
            &&& r.len() < s.len() ==> s[s.len() - r.len() - 1] == sep
        }),
    decreases s.len(),
{
    lemma_after_last_has_no_sep(s, sep);
    if s.len() == 0 {
        assert(s.skip(0) =~= s);
    } else if s.last() == sep {
        assert(s.skip(s.len() as int) =~= Seq::<char>::empty());
    } else {
        law_after_last_is_last_segment(s.drop_last(), sep);
        let d = s.drop_last();
        let r = after_last(d, sep);
        assert(s.skip(s.len() - (r.len() + 1)) =~= d.skip(d.len() - r.len()).push(s.last()));
        if r.len() < d.len() {
            assert(s[s.len() - (r.len() + 1) - 1] == d[d.len() - r.len() - 1]);
        }
    }
}

/// Where `pat` is empty or occurs nowhere in `s`, nothing is removed.
pub proof fn law_remove_all_without_occurrence(s: Seq<char>, pat: Seq<char>)
    requires
        pat.len() == 0 || forall|i: int| !occurs_in_at(s, pat, i),
    ensures
        remove_all(s, pat) == s,
    decreases s.len(),
{
    if pat.len() == 0 || s.len() < pat.len() {
    } else {
        assert(!occurs_in_at(s, pat, 0));
        assert(s.subrange(0, pat.len() as int) =~= s.take(pat.len() as int));
        assert forall|i: int| !occurs_in_at(s.skip(1), pat, i) by {
            if occurs_in_at(s.skip(1), pat, i) {
                assert(s.skip(1).subrange(i, i + pat.len()) =~= s.subrange(
                    i + 1,
                    i + 1 + pat.len(),
                ));
                assert(occurs_in_at(s, pat, i + 1));
            }
        }
        law_remove_all_without_occurrence(s.skip(1), pat);
        assert(seq![s[0]] + s.skip(1) =~= s);
    }
}

/// An occurrence of `pat` at the front is removed whole, and the scan goes
/// on after it.
pub proof fn law_remove_all_front_occurrence(pat: Seq<char>, s: Seq<char>)
    requires
        pat.len() > 0,
    ensures
        remove_all(pat + s, pat) == remove_all(s, pat),
{
    assert((pat + s).take(pat.len() as int) =~= pat);
    assert((pat + s).skip(pat.len() as int) =~= s);
}

/// Whatever precedes the last `sep`, `after_last` keeps what follows it.
pub proof fn lemma_after_last_of_tail(x: Seq<char>, sep: char, y: Seq<char>)
    requires
        !has_char(y, sep),
    ensures
        after_last(x + seq![sep] + y, sep) == y,
    decreases y.len(),
{
    let whole = x + seq![sep] + y;
    if y.len() == 0 {
        assert(whole.last() == sep);
    } else {
        assert(whole.last() == y.last());
        assert(y[y.len() - 1] == y.last());
        assert(whole.drop_last() =~= x + seq![sep] + y.drop_last());
        assert forall|i: int| 0 <= i < y.drop_last().len() implies y.drop_last()[i] != sep by {
            assert(y.drop_last()[i] == y[i]);
        }
        lemma_after_last_of_tail(x, sep, y.drop_last());
        assert(y.drop_last().push(y.last()) =~= y);
    }
}

/// A front part of `s` in which `pat` starts nowhere is kept as it is, and
/// the scan goes on after it.
pub proof fn lemma_remove_all_keeps_free_prefix(s: Seq<char>, pat: Seq<char>, k: int)
    requires
        pat.len() > 0,
        0 <= k <= s.len(),
        forall|i: int| 0 <= i < k ==> !occurs_in_at(s, pat, i),
    ensures
        remove_all(s, pat) == s.take(k) + remove_all(s.skip(k), pat),
    decreases k,
{
    if k == 0 {
        assert(s.skip(0) =~= s);
        assert(s.take(0) + remove_all(s, pat) =~= remove_all(s, pat));
    } else {
        assert(!occurs_in_at(s, pat, 0));
        assert(s.len() >= pat.len() ==> s.subrange(0, pat.len() as int) =~= s.take(
            pat.len() as int,
        ));
        lemma_remove_all_step(s, pat);
        let t = s.skip(1);
        assert forall|i: int| 0 <= i < k - 1 implies !occurs_in_at(t, pat, i) by {
            if occurs_in_at(t, pat, i) {
                assert(t.subrange(i, i + pat.len()) =~= s.subrange(i + 1, i + 1 + pat.len()));
                assert(occurs_in_at(s, pat, i + 1));
            }
        }
        lemma_remove_all_keeps_free_prefix(t, pat, k - 1);
        assert(t.skip(k - 1) =~= s.skip(k));
        assert(seq![s[0]] + t.take(k - 1) =~= s.take(k));
        assert(seq![s[0]] + (t.take(k - 1) + remove_all(s.skip(k), pat)) =~= s.take(k)
            + remove_all(s.skip(k), pat));
    }
}

} // verus!
