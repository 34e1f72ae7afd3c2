//! Character-level text operations: searching, replacing and trimming,
//! each stated over the `Seq<char>` view of the strings involved.
use vstd::prelude::*;
use crate::hosts::lemma_replace_absent;

verus! {

/// Appends one character to a `String` (`String::push` of std).
pub assume_specification[ String::push ](s: &mut String, ch: char)
    ensures
        final(s)@ == old(s)@.push(ch),
;

/// `pat` occurs in `s` starting at index `i`.
pub open spec fn occurs_at(s: Seq<char>, pat: Seq<char>, i: int) -> bool {
    0 <= i && i + pat.len() <= s.len() && s.subrange(i, i + pat.len()) == pat
}

/// `pat` occurs somewhere in `s`.
pub open spec fn contains_seq(s: Seq<char>, pat: Seq<char>) -> bool {
    exists|i: int| occurs_at(s, pat, i)
}

/// `s` begins with `pre`.
pub open spec fn starts_with(s: Seq<char>, pre: Seq<char>) -> bool {
    pre.len() <= s.len() && s.take(pre.len() as int) == pre
}

/// Every non-overlapping occurrence of `pat` in `s`, found from left to right,
/// replaced by `rep` (for a non-empty `pat`; an empty one leaves `s` as it is).
pub open spec fn replace_all(s: Seq<char>, pat: Seq<char>, rep: Seq<char>) -> Seq<char>
    decreases s.len(),
{
    if pat.len() == 0 || s.len() < pat.len() {
        s
    } else if s.take(pat.len() as int) == pat {
        rep + replace_all(s.skip(pat.len() as int), pat, rep)
    } else {
        seq![s[0]] + replace_all(s.skip(1), pat, rep)
    }
}

/// Replacing reads from the left: when the first occurrence of `pat` in
/// `x + pat + y` is the one after `x`, `x` is kept, that occurrence becomes
/// `rep`, and replacing goes on in `y`.
pub proof fn lemma_replace_first(x: Seq<char>, pat: Seq<char>, y: Seq<char>, rep: Seq<char>)
    requires
        pat.len() > 0,
        forall|j: int| 0 <= j < x.len() ==> !occurs_at(x + pat + y, pat, j),
    ensures
        replace_all(x + pat + y, pat, rep) == x + rep + replace_all(y, pat, rep),
    decreases x.len(),
{
    let s = x + pat + y;
    let m = pat.len() as int;
    if x.len() == 0 {
        assert(s =~= pat + y);
        assert(s.take(m) =~= pat);
        assert(s.skip(m) =~= y);
        assert(x + rep + replace_all(y, pat, rep) =~= rep + replace_all(y, pat, rep));
    } else {
        assert(s.take(m) != pat) by {
            assert(s.take(m) =~= s.subrange(0, m));
            assert(!occurs_at(s, pat, 0));
        }
        let x1 = x.skip(1);
        assert(s.skip(1) =~= x1 + pat + y);
        assert forall|j: int| 0 <= j < x1.len() implies !occurs_at(x1 + pat + y, pat, j) by {
            if occurs_at(x1 + pat + y, pat, j) {
                assert((x1 + pat + y).subrange(j, j + m) =~= s.subrange(j + 1, j + 1 + m));
                assert(occurs_at(s, pat, j + 1));
            }
        }
        lemma_replace_first(x1, pat, y, rep);
        assert(x =~= seq![x[0]] + x1);
        assert(s[0] == x[0]);
        assert(x + rep + replace_all(y, pat, rep) =~= seq![x[0]] + (x1 + rep + replace_all(
            y,
            pat,
            rep,
        )));
    }
}

/// When `pat` occurs in `x + pat + y` only after `x`, replacing it gives
/// `x + rep + y`.
pub proof fn lemma_replace_only(x: Seq<char>, pat: Seq<char>, y: Seq<char>, rep: Seq<char>)
    requires
        pat.len() > 0,
        forall|j: int| occurs_at(x + pat + y, pat, j) ==> j == x.len(),
    ensures
        replace_all(x + pat + y, pat, rep) == x + rep + y,
{
    let s = x + pat + y;
    let m = pat.len() as int;
    assert forall|j: int| 0 <= j < x.len() implies !occurs_at(s, pat, j) by {}
    lemma_replace_first(x, pat, y, rep);
    assert(!contains_seq(y, pat)) by {
        assert forall|j: int| !occurs_at(y, pat, j) by {
            if occurs_at(y, pat, j) {
                let k = x.len() + m + j;
                assert(s.subrange(k, k + m) =~= y.subrange(j, j + m));
                assert(occurs_at(s, pat, k));
            }
        }
    }
    lemma_replace_absent(y, pat, rep);
}

/// `s` without the run of `c` characters at its end.
pub open spec fn trim_end_char(s: Seq<char>, c: char) -> Seq<char>
    decreases s.len(),
{
    if s.len() > 0 && s.last() == c {
        trim_end_char(s.drop_last(), c)
    } else {
        s
    }
}

/// The characters of `s`, in order.
pub fn chars_of(s: &str) -> (r: Vec<char>)
    ensures
        r@ == s@,
{
    let mut r: Vec<char> = Vec::new();
    for c in it: s.chars()
        invariant
            r@ == it.seq().take(it.index() as int),
            it.seq() == s@,
    {
        r.push(c);
    }
    r
}

/// Appends the characters of `v` from `from` (inclusive) to `to` (exclusive) to `out`.
pub fn push_range(out: &mut String, v: &Vec<char>, from: usize, to: usize)
    requires
        from <= to <= v.len(),
    ensures
        final(out)@ == old(out)@ + v@.subrange(from as int, to as int),
{
    let mut i = from;
    while i < to
        invariant
            from <= i <= to <= v.len(),
            out@ == old(out)@ + v@.subrange(from as int, i as int),
        decreases to - i,
    {
        out.push(v[i]);
        assert(v@.subrange(from as int, i as int).push(v@[i as int]) =~= v@.subrange(
            from as int,
            i + 1,
        ));
        i = i + 1;
    }
}

/// Appends all the characters of `s` to `out`.
pub fn push_str(out: &mut String, s: &str)
    ensures
        final(out)@ == old(out)@ + s@,
{
    let v = chars_of(s);
    push_range(out, &v, 0, v.len());
    assert(v@.subrange(0, v@.len() as int) =~= v@);
}

/// The concatenation of `a` and `b`.
pub fn concat(a: &str, b: &str) -> (r: String)
    ensures
        r@ == a@ + b@,
{
    let mut r = String::new();
    push_str(&mut r, a);
    push_str(&mut r, b);
    assert(Seq::<char>::empty() + a@ + b@ =~= a@ + b@);
    r
}

/// Whether `pat` occurs in `v` at index `i`.
pub fn matches_at(v: &Vec<char>, pat: &Vec<char>, i: usize) -> (r: bool)
    ensures
        r == occurs_at(v@, pat@, i as int),
{
    if i > v.len() || pat.len() > v.len() - i {
        return false;
    }
    let mut k: usize = 0;
    while k < pat.len()
        invariant
            i + pat.len() <= v.len(),
            k <= pat.len(),
            forall|j: int| 0 <= j < k ==> v@[i + j] == pat@[j],
        decreases pat.len() - k,
    {
        if v[i + k] != pat[k] {
            assert(v@.subrange(i as int, i + pat.len())[k as int] != pat@[k as int]);
            return false;
        }
        k = k + 1;
    }
    assert(v@.subrange(i as int, i + pat.len()) =~= pat@);
    true
}

/// The first index at which `pat` occurs in `v`, if it occurs at all.
pub fn find_in(v: &Vec<char>, pat: &Vec<char>) -> (r: Option<usize>)
    ensures
        r matches Some(i) ==> occurs_at(v@, pat@, i as int) && forall|j: int|
            0 <= j < i ==> !occurs_at(v@, pat@, j),
        r is None ==> !contains_seq(v@, pat@),
{
    let n = v.len();
    let mut i: usize = 0;
    loop
        invariant
            i <= n == v.len(),
            forall|j: int| 0 <= j < i ==> !occurs_at(v@, pat@, j),
        decreases n - i,
    {
        if matches_at(v, pat, i) {
            return Some(i);
        }
        if i == n {
            assert forall|j: int| !occurs_at(v@, pat@, j) by {
                if 0 <= j && j + pat@.len() <= v@.len() {
                    assert(j <= i);
                }
            }
            return None;
        }
        i = i + 1;
    }
}

/// The first index at which `pat` occurs in `s`, if it occurs at all (`str::find`).
pub fn find_str(s: &str, pat: &str) -> (r: Option<usize>)
    ensures
        r matches Some(i) ==> occurs_at(s@, pat@, i as int) && forall|j: int|
            0 <= j < i ==> !occurs_at(s@, pat@, j),
        r is None ==> !contains_seq(s@, pat@),
{
    let v = chars_of(s);
    let p = chars_of(pat);
    find_in(&v, &p)
}

/// Whether `pat` occurs in `s` (`str::contains`).
pub fn contains_str(s: &str, pat: &str) -> (r: bool)
    ensures
        r == contains_seq(s@, pat@),
{
    match find_str(s, pat) {
        Some(i) => {
            assert(occurs_at(s@, pat@, i as int));
            true
        },
        None => false,
    }
}

/// `s` with every non-overlapping occurrence of the non-empty `pat`, found from
/// left to right, replaced by `rep` (`str::replace`).
pub fn replace_str(s: &str, pat: &str, rep: &str) -> (r: String)
    requires
        pat@.len() > 0,
    ensures
        r@ == replace_all(s@, pat@, rep@),
{
    let v = chars_of(s);
    let p = chars_of(pat);
    let n = v.len();
    let m = p.len();
    let mut out = String::new();
    let mut i: usize = 0;
    assert(v@.skip(0) =~= v@);
    assert(out@ + v@ =~= v@);
    while i < n
        invariant
            n == v@.len(),
            m == p@.len() > 0,
            i <= n,
            v@ == s@,
            p@ == pat@,
            out@ + replace_all(v@.skip(i as int), p@, rep@) == replace_all(v@, p@, rep@),
        decreases n - i,
    {
        let ghost t = v@.skip(i as int);
        if matches_at(&v, &p, i) {
            assert(t.take(m as int) =~= v@.subrange(i as int, i + m));
            assert(t.skip(m as int) =~= v@.skip(i + m));
            let ghost before = out@;
            push_str(&mut out, rep);
            assert(before + (rep@ + replace_all(t.skip(m as int), p@, rep@)) =~= out@
                + replace_all(t.skip(m as int), p@, rep@));
            i = i + m;
        } else {
            assert(t.skip(1) =~= v@.skip(i + 1));
            proof {
                if t.len() >= m {
                    assert(t.take(m as int) =~= v@.subrange(i as int, i + m));
                } else {
                    assert(t =~= seq![t[0]] + t.skip(1));
                }
            }
            assert(replace_all(t, p@, rep@) == seq![t[0]] + replace_all(t.skip(1), p@, rep@));
            let ghost before = out@;
            out.push(v[i]);
            assert(before + (seq![t[0]] + replace_all(t.skip(1), p@, rep@)) =~= out@
                + replace_all(t.skip(1), p@, rep@));
            i = i + 1;
        }
    }
    assert(v@.skip(n as int) =~= Seq::<char>::empty());
    assert(out@ + Seq::<char>::empty() =~= out@);
    out
}

} // verus!
