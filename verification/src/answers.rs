//! Reading the answers given at the prompts: yes/no confirmations and PHP
//! versions.
use vstd::prelude::*;
use crate::text::chars_of;

verus! {

/// The answer is `c` in either case: what lowercases to that one letter.
pub open spec fn is_answer(input: Seq<char>, lower: char, upper: char) -> bool {
    input == seq![lower] || input == seq![upper]
}

/// Whether `input` is a one-letter answer `lower` or `upper`.
fn answer_is(input: &str, lower: char, upper: char) -> (r: bool)
    ensures
        r == is_answer(input@, lower, upper),
{
    let v = chars_of(input);
    if v.len() == 1 && (v[0] == lower || v[0] == upper) {
        assert(v@ =~= seq![v@[0]]);
        true
    } else {
        false
    }
}

/// Whether the answer lowercases to `y`: it is `y` or `Y`.
pub fn is_yes(input: &str) -> (r: bool)
    ensures
        r == is_answer(input@, 'y', 'Y'),
{
    answer_is(input, 'y', 'Y')
}

/// Whether the answer lowercases to `n`: it is `n` or `N`.
pub fn is_no(input: &str) -> (r: bool)
    ensures
        r == is_answer(input@, 'n', 'N'),
{
    answer_is(input, 'n', 'N')
}

/// Whether the answer to "Install WordPress?" asks for the install: it is `y`
/// or `Y`; anything else, the empty answer too, declines.
pub fn prompt_for_wordpress_install(input: &str) -> (r: bool)
    ensures
        r == is_answer(input@, 'y', 'Y'),
{
    is_yes(input)
}

/// An ASCII decimal digit.
pub open spec fn is_digit(c: char) -> bool {
    '0' <= c && c <= '9'
}

/// Every character of `s` is a decimal digit.
pub open spec fn all_digits(s: Seq<char>) -> bool {
    forall|i: int| 0 <= i < s.len() ==> is_digit(#[trigger] s[i])
}

/// `s` without one leading `+` or `-`.
pub open spec fn unsigned(s: Seq<char>) -> Seq<char> {
    if s.len() > 0 && (s[0] == '+' || s[0] == '-') {
        s.skip(1)
    } else {
        s
    }
}

/// An optional exponent: empty, or `e`/`E`, an optional sign and at least one digit.
pub open spec fn is_exponent(t: Seq<char>) -> bool {
    t.len() == 0 || (t.len() > 0 && (t[0] == 'e' || t[0] == 'E') && unsigned(t.skip(1)).len() > 0
        && all_digits(unsigned(t.skip(1))))
}

/// The body of a decimal number with a point, its sign taken off: digits
/// around a single `.` (at least one digit in all), then an optional exponent.
pub open spec fn is_point_body(b: Seq<char>) -> bool {
    exists|d: int, e: int|
        #![trigger b.subrange(0, d), b.subrange(d + 1, e)]
        0 <= d < e <= b.len() && b[d] == '.' && all_digits(b.subrange(0, d)) && all_digits(
            b.subrange(d + 1, e),
        ) && e >= 2 && is_exponent(b.subrange(e, b.len() as int))
}

/// A decimal number with a point, as `f64` parsing accepts it: an optional sign
/// followed by a point body.
pub open spec fn is_point_number(s: Seq<char>) -> bool {
    is_point_body(unsigned(s))
}

/// An answer without a `.` is never taken as a PHP version, `8` among them.
pub proof fn lemma_version_needs_point(s: Seq<char>)
    requires
        forall|i: int| 0 <= i < s.len() ==> s[i] != '.',
    ensures
        !is_point_number(s),
{
    let b = unsigned(s);
    assert forall|d: int, e: int|
        0 <= d < e <= b.len() && all_digits(#[trigger] b.subrange(0, d)) && all_digits(
            #[trigger] b.subrange(d + 1, e),
        ) implies b[d] != '.' by {
        if s.len() > 0 && (s[0] == '+' || s[0] == '-') {
            assert(b[d] == s[d + 1]);
        }
    }
}

/// Digits, a `.` and digits, with a digit on at least one side (`8.2`, `7.`,
/// `.5`), are taken as a PHP version.
pub proof fn lemma_version_digits_point_digits(a: Seq<char>, c: Seq<char>)
    requires
        all_digits(a),
        all_digits(c),
        a.len() + c.len() >= 1,
    ensures
        is_point_number(a + seq!['.'] + c),
{
    let s = a + seq!['.'] + c;
    if a.len() > 0 {
        assert(s[0] == a[0]);
        assert(is_digit(a[0]));
    }
    assert(unsigned(s) == s);
    let d = a.len() as int;
    let e = d + 1 + c.len();
    assert(s.subrange(0, d) =~= a);
    assert(s.subrange(d + 1, e) =~= c);
    assert(s[d] == '.');
    assert(s.subrange(e, s.len() as int).len() == 0);
    assert(is_exponent(s.subrange(e, s.len() as int)));
}

/// A body whose leading digits are followed by neither a digit nor a point
/// has no point where the grammar needs one.
proof fn lemma_no_point(b: Seq<char>, p: int)
    requires
        0 <= p <= b.len(),
        all_digits(b.subrange(0, p)),
        p == b.len() || (!is_digit(b[p]) && b[p] != '.'),
    ensures
        !is_point_body(b),
{
    assert forall|d: int, e: int|
        0 <= d < e <= b.len() && b[d] == '.' && all_digits(#[trigger] b.subrange(0, d))
            && all_digits(#[trigger] b.subrange(d + 1, e)) implies false by {
        if d < p {
            assert(b.subrange(0, p)[d] == '.');
        } else if d > p {
            assert(b.subrange(0, d)[p] == b[p]);
        }
    }
}

/// Once the point at `d` and the end `e` of the digits after it are found, the
/// body is a point number exactly when the mantissa has a digit and what
/// follows is an exponent.
proof fn lemma_point_fixed(b: Seq<char>, d: int, e: int)
    requires
        0 <= d < e <= b.len(),
        all_digits(b.subrange(0, d)),
        b[d] == '.',
        all_digits(b.subrange(d + 1, e)),
        e == b.len() || !is_digit(b[e]),
    ensures
        is_point_body(b) == (e >= 2 && is_exponent(b.subrange(e, b.len() as int))),
{
    if e >= 2 && is_exponent(b.subrange(e, b.len() as int)) {
        assert(b.subrange(0, d) == b.subrange(0, d) && b.subrange(d + 1, e) == b.subrange(d + 1, e));
    }
    assert forall|d2: int, e2: int|
        0 <= d2 < e2 <= b.len() && b[d2] == '.' && all_digits(#[trigger] b.subrange(0, d2))
            && all_digits(#[trigger] b.subrange(d2 + 1, e2)) && is_exponent(
            b.subrange(e2, b.len() as int),
        ) implies d2 == d && e2 == e by {
        if d2 < d {
            assert(b.subrange(0, d)[d2] == '.');
        } else if d2 > d {
            assert(b.subrange(0, d2)[d] == '.');
        }
        if e2 < e {
            assert(b.subrange(e2, b.len() as int)[0] == b[e2]);
            assert(b.subrange(d + 1, e)[e2 - d - 1] == b[e2]);
        } else if e2 > e {
            assert(b.subrange(d2 + 1, e2)[e - d2 - 1] == b[e]);
        }
    }
}

/// The end of the run of digits in `v` that starts at `from`.
fn scan_digits(v: &Vec<char>, from: usize) -> (r: usize)
    requires
        from <= v.len(),
    ensures
        from <= r <= v.len(),
        all_digits(v@.subrange(from as int, r as int)),
        r == v.len() || !is_digit(v@[r as int]),
{
    let mut i = from;
    while i < v.len() && '0' <= v[i] && v[i] <= '9'
        invariant
            from <= i <= v.len(),
            forall|k: int| from <= k < i ==> is_digit(v@[k]),
        decreases v.len() - i,
    {
        i = i + 1;
    }
    assert(all_digits(v@.subrange(from as int, i as int))) by {
        assert forall|k: int| 0 <= k < i - from implies is_digit(
            #[trigger] v@.subrange(from as int, i as int)[k],
        ) by {
            assert(v@.subrange(from as int, i as int)[k] == v@[from + k]);
        }
    }
    i
}

/// Whether `v` from index `e` on is an exponent.
fn exponent_at(v: &Vec<char>, e: usize) -> (r: bool)
    requires
        e <= v.len(),
    ensures
        r == is_exponent(v@.skip(e as int)),
{
    let n = v.len();
    let ghost t = v@.skip(e as int);
    if e == n {
        return true;
    }
    if !(v[e] == 'e' || v[e] == 'E') {
        return false;
    }
    assert(t.skip(1) =~= v@.skip(e + 1));
    let mut i = e + 1;
    if i < n && (v[i] == '+' || v[i] == '-') {
        i = i + 1;
    }
    let ds = i;
    assert(unsigned(t.skip(1)) =~= v@.skip(ds as int));
    let end = scan_digits(v, ds);
    assert(v@.skip(ds as int) =~= v@.subrange(ds as int, n as int));
    if end == n && end > ds {
        true
    } else {
        if end < n {
            assert(v@.skip(ds as int)[end - ds] == v@[end as int]);
        }
        false
    }
}

/// Whether an answer to the PHP version prompt is taken: it holds a `.` and
/// parses as an `f64`, which together mean it is a decimal number with a point.
pub fn php_version_is_valid(input: &str) -> (r: bool)
    ensures
        r == is_point_number(input@),
{
    let v = chars_of(input);
    let n = v.len();
    let start: usize = if n > 0 && (v[0] == '+' || v[0] == '-') {
        1
    } else {
        0
    };
    let ghost b = unsigned(input@);
    assert(b =~= v@.skip(start as int));
    let p = scan_digits(&v, start);
    assert(b.subrange(0, p - start) =~= v@.subrange(start as int, p as int));
    if p >= n || v[p] != '.' {
        proof {
            if p < n {
                assert(b[p - start] == v@[p as int]);
            }
            lemma_no_point(b, p - start);
        }
        return false;
    }
    let e = scan_digits(&v, p + 1);
    assert(b.subrange(p - start + 1, e - start) =~= v@.subrange(p + 1, e as int));
    assert(b.subrange(e - start, b.len() as int) =~= v@.skip(e as int));
    proof {
        if e < n {
            assert(b[e - start] == v@[e as int]);
        }
        lemma_point_fixed(b, p - start, e - start);
    }
    if e - start < 2 {
        return false;
    }
    exponent_at(&v, e)
}

} // verus!
