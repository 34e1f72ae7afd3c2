//! Installing WordPress into a site: where the archive's files go, and the
//! `wp-config.php` written from WordPress's sample with the site's database.
use vstd::prelude::*;
use crate::hosts::lemma_replace_absent;
use crate::text::{
    chars_of, concat, contains_seq, lemma_replace_only, occurs_at, push_range, push_str,
    replace_all, replace_str, starts_with,
};

verus! {

/// Where WordPress's release archive is downloaded from.
pub const WORDPRESS_ARCHIVE_URL: &'static str = "https://wordpress.org/latest.tar.gz";

/// Where the downloaded archive is kept while it is unpacked.
pub const WORDPRESS_ARCHIVE_PATH: &'static str = "/etc/latest.tar.gz";

/// `wp-config.php` made from WordPress's sample: the database host set to
/// `127.0.0.1`, and the name, user and password placeholders filled in, in
/// that order.
pub open spec fn wp_config_from_sample(
    sample: Seq<char>,
    db_name: Seq<char>,
    db_user: Seq<char>,
    db_pass: Seq<char>,
) -> Seq<char> {
    replace_all(
        replace_all(
            replace_all(
                replace_all(sample, "localhost"@, "127.0.0.1"@),
                "database_name_here"@,
                db_name,
            ),
            "username_here"@,
            db_user,
        ),
        "password_here"@,
        db_pass,
    )
}

/// The site's `wp-config.php`, made from the text of `wp-config-sample.php`.
pub fn wp_config_contents(sample: &str, db_name: &str, db_user: &str, db_pass: &str) -> (r:
    String)
    ensures
        r@ == wp_config_from_sample(sample@, db_name@, db_user@, db_pass@),
{
    proof {
        reveal_strlit("localhost");
        reveal_strlit("database_name_here");
        reveal_strlit("username_here");
        reveal_strlit("password_here");
    }
    let a = replace_str(sample, "localhost", "127.0.0.1");
    let b = replace_str(a.as_str(), "database_name_here", db_name);
    let c = replace_str(b.as_str(), "username_here", db_user);
    replace_str(c.as_str(), "password_here", db_pass)
}

/// The sample's `localhost`, standing once and with no other placeholder
/// in the sample, becomes `127.0.0.1`, and nothing else changes.
pub proof fn lemma_wp_config_host(
    x: Seq<char>,
    y: Seq<char>,
    db_name: Seq<char>,
    db_user: Seq<char>,
    db_pass: Seq<char>,
)
    requires
        !contains_seq(x + "localhost"@ + y, "database_name_here"@),
        !contains_seq(x + "localhost"@ + y, "username_here"@),
        !contains_seq(x + "localhost"@ + y, "password_here"@),
        forall|j: int| occurs_at(x + "localhost"@ + y, "localhost"@, j) ==> j == x.len(),
        !contains_seq(x + "127.0.0.1"@ + y, "database_name_here"@),
        !contains_seq(x + "127.0.0.1"@ + y, "username_here"@),
        !contains_seq(x + "127.0.0.1"@ + y, "password_here"@),
    ensures
        wp_config_from_sample(x + "localhost"@ + y, db_name, db_user, db_pass) == x + "127.0.0.1"@ + y,
{
    reveal_strlit("localhost");
    reveal_strlit("database_name_here");
    reveal_strlit("username_here");
    reveal_strlit("password_here");
    lemma_replace_only(x, "localhost"@, y, "127.0.0.1"@);
    let t = x + "127.0.0.1"@ + y;
    lemma_replace_absent(t, "database_name_here"@, db_name);
    lemma_replace_absent(t, "username_here"@, db_user);
    lemma_replace_absent(t, "password_here"@, db_pass);
}

/// The sample's `database_name_here`, standing once and with no other
/// placeholder in the sample, becomes the database name (when the name brings
/// in no later placeholder), and nothing else changes.
pub proof fn lemma_wp_config_name(
    x: Seq<char>,
    y: Seq<char>,
    db_name: Seq<char>,
    db_user: Seq<char>,
    db_pass: Seq<char>,
)
    requires
        !contains_seq(x + "database_name_here"@ + y, "localhost"@),
        !contains_seq(x + "database_name_here"@ + y, "username_here"@),
        !contains_seq(x + "database_name_here"@ + y, "password_here"@),
        forall|j: int| occurs_at(x + "database_name_here"@ + y, "database_name_here"@, j) ==> j == x.len(),
        !contains_seq(x + db_name + y, "username_here"@),
        !contains_seq(x + db_name + y, "password_here"@),
    ensures
        wp_config_from_sample(x + "database_name_here"@ + y, db_name, db_user, db_pass) == x + db_name + y,
{
    reveal_strlit("localhost");
    reveal_strlit("database_name_here");
    reveal_strlit("username_here");
    reveal_strlit("password_here");
    let s = x + "database_name_here"@ + y;
    lemma_replace_absent(s, "localhost"@, "127.0.0.1"@);
    lemma_replace_only(x, "database_name_here"@, y, db_name);
    let t = x + db_name + y;
    lemma_replace_absent(t, "username_here"@, db_user);
    lemma_replace_absent(t, "password_here"@, db_pass);
}

/// The sample's `username_here`, standing once and with no other placeholder
/// in the sample, becomes the database user (when the user brings in no
/// password placeholder), and nothing else changes.
pub proof fn lemma_wp_config_user(
    x: Seq<char>,
    y: Seq<char>,
    db_name: Seq<char>,
    db_user: Seq<char>,
    db_pass: Seq<char>,
)
    requires
        !contains_seq(x + "username_here"@ + y, "localhost"@),
        !contains_seq(x + "username_here"@ + y, "database_name_here"@),
        !contains_seq(x + "username_here"@ + y, "password_here"@),
        forall|j: int| occurs_at(x + "username_here"@ + y, "username_here"@, j) ==> j == x.len(),
        !contains_seq(x + db_user + y, "password_here"@),
    ensures
        wp_config_from_sample(x + "username_here"@ + y, db_name, db_user, db_pass) == x + db_user + y,
{
    reveal_strlit("localhost");
    reveal_strlit("database_name_here");
    reveal_strlit("username_here");
    reveal_strlit("password_here");
    let s = x + "username_here"@ + y;
    lemma_replace_absent(s, "localhost"@, "127.0.0.1"@);
    lemma_replace_absent(s, "database_name_here"@, db_name);
    lemma_replace_only(x, "username_here"@, y, db_user);
    lemma_replace_absent(x + db_user + y, "password_here"@, db_pass);
}

/// The sample's `password_here`, standing once and with no other placeholder
/// in the sample, becomes the database password, whatever it is (the empty
/// password too), and nothing else changes.
pub proof fn lemma_wp_config_password(
    x: Seq<char>,
    y: Seq<char>,
    db_name: Seq<char>,
    db_user: Seq<char>,
    db_pass: Seq<char>,
)
    requires
        !contains_seq(x + "password_here"@ + y, "localhost"@),
        !contains_seq(x + "password_here"@ + y, "database_name_here"@),
        !contains_seq(x + "password_here"@ + y, "username_here"@),
        forall|j: int| occurs_at(x + "password_here"@ + y, "password_here"@, j) ==> j == x.len(),
    ensures
        wp_config_from_sample(x + "password_here"@ + y, db_name, db_user, db_pass) == x + db_pass + y,
{
    reveal_strlit("localhost");
    reveal_strlit("database_name_here");
    reveal_strlit("username_here");
    reveal_strlit("password_here");
    let s = x + "password_here"@ + y;
    lemma_replace_absent(s, "localhost"@, "127.0.0.1"@);
    lemma_replace_absent(s, "database_name_here"@, db_name);
    lemma_replace_absent(s, "username_here"@, db_user);
    lemma_replace_only(x, "password_here"@, y, db_pass);
}

/// `site_path` followed by `/` and `name`.
pub open spec fn in_site(site_path: Seq<char>, name: Seq<char>) -> Seq<char> {
    site_path + seq!['/'] + name
}

/// `site_path/name`.
fn site_file(site_path: &str, name: &str) -> (r: String)
    ensures
        r@ == in_site(site_path@, name@),
{
    let mut r = concat(site_path, "/");
    proof {
        reveal_strlit("/");
    }
    push_str(&mut r, name);
    r
}

/// Where the site's `.htaccess` is written.
pub fn htaccess_path(site_path: &str) -> (r: String)
    ensures
        r@ == in_site(site_path@, ".htaccess"@),
{
    site_file(site_path, ".htaccess")
}

/// Where WordPress's sample configuration lies once unpacked.
pub fn wp_config_sample_path(site_path: &str) -> (r: String)
    ensures
        r@ == in_site(site_path@, "wp-config-sample.php"@),
{
    site_file(site_path, "wp-config-sample.php")
}

/// Where the site's WordPress configuration is written.
pub fn wp_config_path(site_path: &str) -> (r: String)
    ensures
        r@ == in_site(site_path@, "wp-config.php"@),
{
    site_file(site_path, "wp-config.php")
}

/// The archive's top directory, `wordpress`.
pub open spec fn wordpress_dir() -> Seq<char> {
    seq!['w', 'o', 'r', 'd', 'p', 'r', 'e', 's', 's']
}

/// `s` without the separators and `.` components at its front, as a path's
/// remaining components are read.
pub open spec fn trim_front_segments(s: Seq<char>) -> Seq<char>
    decreases s.len(),
{
    if s.len() > 0 && s[0] == '/' {
        trim_front_segments(s.skip(1))
    } else if s == seq!['.'] {
        Seq::empty()
    } else if s.len() >= 2 && s[0] == '.' && s[1] == '/' {
        trim_front_segments(s.skip(2))
    } else {
        s
    }
}

/// `s` without the separators and `.` components at its end.
pub open spec fn trim_back_segments(s: Seq<char>) -> Seq<char>
    decreases s.len(),
{
    if s.len() > 0 && s.last() == '/' {
        trim_back_segments(s.drop_last())
    } else if s == seq!['.'] {
        Seq::empty()
    } else if s.len() >= 2 && s.last() == '.' && s[s.len() - 2] == '/' {
        trim_back_segments(s.drop_last())
    } else {
        s
    }
}

/// The length of the first component of `s`: the characters before its first
/// separator (all of `s` when it has none).
pub open spec fn first_sep(s: Seq<char>) -> nat
    decreases s.len(),
{
    if s.len() == 0 || s[0] == '/' {
        0
    } else {
        1 + first_sep(s.skip(1))
    }
}

/// The depth after one component, from `depth`: `..` climbs one level, an
/// empty component or `.` stays, any other name descends one level.
pub open spec fn depth_after(seg: Seq<char>, depth: int) -> int {
    if seg == seq!['.', '.'] {
        depth - 1
    } else if seg.len() == 0 || seg == seq!['.'] {
        depth
    } else {
        depth + 1
    }
}

/// Walking the components of the relative path `s` from `depth` levels below
/// the start, no `..` ever climbs above the start.
pub open spec fn stays_within(s: Seq<char>, depth: int) -> bool
    decreases s.len(),
{
    if s.len() == 0 {
        true
    } else {
        let k = first_sep(s);
        let next = depth_after(s.take(k as int), depth);
        next >= 0 && (k >= s.len() || stays_within(s.skip(k + 1int), next))
    }
}

/// `s` is an absolute path.
pub open spec fn is_absolute(s: Seq<char>) -> bool {
    s.len() > 0 && s[0] == '/'
}

/// The entry is the archive's `wordpress` directory or lies under it.
pub open spec fn under_wordpress(entry: Seq<char>) -> bool {
    entry == wordpress_dir() || starts_with(entry, wordpress_dir().push('/'))
}

/// Where an archive entry is unpacked in the site: an entry under `wordpress`
/// goes to the same place under the site path, the `wordpress` directory
/// itself is skipped (`None`), and any other entry goes under the site path as
/// it is. An absolute entry, or one whose `..` components climb above the
/// site path, would land outside it, and is skipped.
pub open spec fn archive_entry_target_of(site_path: Seq<char>, entry: Seq<char>) -> Option<
    Seq<char>,
> {
    if is_absolute(entry) {
        None
    } else if under_wordpress(entry) {
        let rest = trim_back_segments(trim_front_segments(entry.skip(9)));
        if rest.len() == 0 || !stays_within(rest, 0) {
            None
        } else {
            Some(in_site(site_path, rest))
        }
    } else if !stays_within(entry, 0) {
        None
    } else {
        Some(in_site(site_path, entry))
    }
}

/// The first component of a piece of `v` ends at the first separator found.
proof fn lemma_first_sep(s: Seq<char>, m: int)
    requires
        0 <= m <= s.len(),
        forall|j: int| 0 <= j < m ==> s[j] != '/',
        m == s.len() || s[m] == '/',
    ensures
        first_sep(s) == m,
    decreases m,
{
    if m > 0 {
        lemma_first_sep(s.skip(1), m - 1);
    }
}

/// Whether walking the components of `v` from `lo` to `hi` stays within the
/// start.
fn stays_within_range(v: &Vec<char>, lo: usize, hi: usize) -> (r: bool)
    requires
        lo <= hi <= v.len(),
    ensures
        r == stays_within(v@.subrange(lo as int, hi as int), 0),
{
    let ghost whole = v@.subrange(lo as int, hi as int);
    let mut pos = lo;
    let mut depth: usize = 0;
    while pos < hi
        invariant
            lo <= pos <= hi <= v.len(),
            whole == v@.subrange(lo as int, hi as int),
            depth <= pos - lo,
            stays_within(whole, 0) == stays_within(v@.subrange(pos as int, hi as int), depth as int),
        decreases hi - pos,
    {
        let ghost s = v@.subrange(pos as int, hi as int);
        let mut j = pos;
        while j < hi && v[j] != '/'
            invariant
                pos <= j <= hi <= v.len(),
                forall|k: int| pos <= k < j ==> v@[k] != '/',
            decreases hi - j,
        {
            j = j + 1;
        }
        let k = j - pos;
        proof {
            lemma_first_sep(s, k as int);
        }
        let seg = Ghost(s.take(k as int));
        let is_parent = k == 2 && v[pos] == '.' && v[pos + 1] == '.';
        let is_same = k == 0 || (k == 1 && v[pos] == '.');
        proof {
            assert(seg@.len() == k);
            if k >= 1 {
                assert(seg@[0] == v@[pos as int]);
            }
            if k >= 2 {
                assert(seg@[1] == v@[pos + 1]);
            }
            assert(is_parent == (seg@ == seq!['.', '.'])) by {
                if k == 2 {
                    assert(seg@[0] == v@[pos as int] && seg@[1] == v@[pos + 1]);
                    if v@[pos as int] == '.' && v@[pos + 1] == '.' {
                        assert(seg@ =~= seq!['.', '.']);
                    }
                }
            }
            assert(is_same == (seg@.len() == 0 || seg@ == seq!['.'])) by {
                if k == 1 {
                    assert(seg@[0] == v@[pos as int]);
                    if v@[pos as int] == '.' {
                        assert(seg@ =~= seq!['.']);
                    }
                }
            }
        }
        let ghost d0 = depth as int;
        assert(first_sep(s) == k);
        assert(stays_within(s, d0) == (depth_after(seg@, d0) >= 0 && (k >= s.len()
            || stays_within(s.skip(k + 1int), depth_after(seg@, d0)))));
        if is_parent {
            if depth == 0 {
                return false;
            }
            depth = depth - 1;
        } else if !is_same {
            depth = depth + 1;
        }
        if j == hi {
            return true;
        }
        assert(s.skip(k + 1) =~= v@.subrange(j + 1, hi as int));
        pos = j + 1;
    }
    true
}

/// `site_path/` followed by `v` from `lo` to `hi`.
fn in_site_range(site_path: &str, v: &Vec<char>, lo: usize, hi: usize) -> (r: String)
    requires
        lo <= hi <= v.len(),
    ensures
        r@ == in_site(site_path@, v@.subrange(lo as int, hi as int)),
{
    let mut r = concat(site_path, "/");
    proof {
        reveal_strlit("/");
    }
    push_range(&mut r, v, lo, hi);
    r
}

/// Where an archive entry at `entry_path` is unpacked in the site at
/// `site_path`, or `None` when it is skipped: the top `wordpress` directory,
/// and any absolute entry or entry with a `..` component. Whatever is unpacked
/// lands under the site path.
pub fn archive_entry_target(site_path: &str, entry_path: &str) -> (r: Option<String>)
    ensures
        match r {
            Some(t) => archive_entry_target_of(site_path@, entry_path@) == Some(t@),
            None => archive_entry_target_of(site_path@, entry_path@) is None,
        },
        is_absolute(entry_path@) ==> r is None,
        r matches Some(t) ==> exists|rest: Seq<char>|
            t@ == in_site(site_path@, rest) && !is_absolute(rest) && stays_within(rest, 0),
{
    let v = chars_of(entry_path);
    let n = v.len();
    if n > 0 && v[0] == '/' {
        return None;
    }
    let wp = chars_of("wordpress");
    proof {
        reveal_strlit("wordpress");
    }
    assert(wp@ =~= wordpress_dir());
    let under_wp = n >= 9 && crate::text::matches_at(&v, &wp, 0) && (n == 9 || v[9] == '/');
    proof {
        let e = entry_path@;
        let w = wordpress_dir();
        if under_wp {
            assert(v@.subrange(0, 9) =~= w);
            if n == 9 {
                assert(e =~= w);
            } else {
                assert(e.take(10) =~= w.push('/'));
            }
        } else {
            if e == w {
                assert(v@.subrange(0, 9) =~= e);
                assert(crate::text::occurs_at(v@, wp@, 0));
            }
            if starts_with(e, w.push('/')) {
                assert(v@.subrange(0, 9) =~= e.take(10).take(9));
                assert(w.push('/').take(9) =~= w);
                assert(e[9] == e.take(10)[9]);
                assert(crate::text::occurs_at(v@, wp@, 0));
            }
        }
    }
    if !under_wp {
        assert(v@.subrange(0, n as int) =~= v@);
        if !stays_within_range(&v, 0, n) {
            return None;
        }
        return Some(in_site_range(site_path, &v, 0, n));
    }
    let mut lo: usize = 9;
    let ghost front = trim_front_segments(v@.skip(9));
    assert(v@.skip(9) =~= v@.subrange(9, n as int));
    while lo < n
        invariant
            9 <= lo <= n == v@.len(),
            front == trim_front_segments(v@.subrange(lo as int, n as int)),
            lo == 9 || lo == n || v@[lo - 1] == '/',
            n == 9 || v@[9] == '/',
        ensures
            front == v@.subrange(lo as int, n as int),
            lo == 9 || lo == n || v@[lo - 1] == '/',
            lo < n ==> v@[lo as int] != '/',
            lo < n ==> !(v@[lo as int] == '.' && (lo + 1 == n || v@[lo + 1] == '/')),
        decreases n - lo,
    {
        let ghost s = v@.subrange(lo as int, n as int);
        if v[lo] == '/' {
            assert(s.skip(1) =~= v@.subrange(lo + 1, n as int));
            lo = lo + 1;
        } else if v[lo] == '.' && lo + 1 == n {
            assert(s =~= seq!['.']);
            assert(v@.subrange(n as int, n as int) =~= Seq::<char>::empty());
            lo = n;
        } else if v[lo] == '.' && v[lo + 1] == '/' {
            assert(s.skip(2) =~= v@.subrange(lo + 2, n as int));
            lo = lo + 2;
        } else {
            assert(s != seq!['.']) by {
                if s == seq!['.'] {
                    assert(s.len() == 1);
                }
            }
            proof {
                assert(s[0] == v@[lo as int]);
                if s.len() >= 2 {
                    assert(s[1] == v@[lo + 1]);
                }
            }
            break;
        }
    }
    if lo == n {
        assert(front.len() == 0);
        assert(trim_back_segments(front) =~= Seq::<char>::empty());
        return None;
    }
    // The first character left is neither a separator nor the start of a
    // `.` component, and the entry's tenth character is a separator.
    assert(lo > 9);
    let mut hi: usize = n;
    let ghost rest = trim_back_segments(front);
    while lo < hi
        invariant
            9 < lo <= hi <= n == v@.len(),
            v@[lo - 1] == '/',
            v@[lo as int] != '/',
            !(v@[lo as int] == '.' && (lo + 1 == n || v@[lo + 1] == '/')),
            rest == trim_back_segments(v@.subrange(lo as int, hi as int)),
            hi == n || v@[hi as int] == '/',
        ensures
            rest == v@.subrange(lo as int, hi as int),
            hi == n || v@[hi as int] == '/',
        decreases hi - lo,
    {
        let ghost s = v@.subrange(lo as int, hi as int);
        if v[hi - 1] == '/' {
            assert(s.drop_last() =~= v@.subrange(lo as int, hi - 1));
            hi = hi - 1;
        } else if hi - lo >= 2 && v[hi - 1] == '.' && v[hi - 2] == '/' {
            assert(s.drop_last() =~= v@.subrange(lo as int, hi - 1));
            assert(s.drop_last().last() == '/');
            assert(s.drop_last().drop_last() =~= v@.subrange(lo as int, hi - 2));
            assert(s != seq!['.']);
            assert(trim_back_segments(s) == trim_back_segments(s.drop_last()));
            assert(trim_back_segments(s.drop_last()) == trim_back_segments(
                s.drop_last().drop_last(),
            ));
            hi = hi - 2;
        } else {
            assert(s != seq!['.']) by {
                if s == seq!['.'] {
                    assert(s.len() == 1);
                    assert(v@[lo as int] == '.');
                }
            }
            proof {
                assert(s.last() == v@[hi - 1]);
                if s.len() >= 2 {
                    assert(s[s.len() - 2] == v@[hi - 2]);
                }
            }
            break;
        }
    }
    if lo == hi || !stays_within_range(&v, lo, hi) {
        return None;
    }
    proof {
        let piece = v@.subrange(lo as int, hi as int);
        assert(!is_absolute(piece)) by {
            assert(piece[0] == v@[lo as int]);
        }
    }
    Some(in_site_range(site_path, &v, lo, hi))
}

/// `rest` is a plain relative path: not empty, not starting with a separator
/// or a `.` component, not ending with a separator or a `.` component, and
/// never climbing above where it starts.
pub open spec fn is_plain_relative(rest: Seq<char>) -> bool {
    &&& rest.len() > 0
    &&& rest[0] != '/'
    &&& rest != seq!['.']
    &&& !(rest.len() >= 2 && rest[0] == '.' && rest[1] == '/')
    &&& rest.last() != '/'
    &&& !(rest.len() >= 2 && rest.last() == '.' && rest[rest.len() - 2] == '/')
    &&& stays_within(rest, 0)
}

/// An archive entry `wordpress/<rest>` is unpacked at `<site_path>/<rest>`.
pub proof fn lemma_archive_entry_under_site(site_path: Seq<char>, rest: Seq<char>)
    requires
        is_plain_relative(rest),
    ensures
        archive_entry_target_of(site_path, wordpress_dir().push('/') + rest) == Some(
            in_site(site_path, rest),
        ),
{
    let entry = wordpress_dir().push('/') + rest;
    assert(entry.take(10) =~= wordpress_dir().push('/'));
    assert(entry.skip(9) =~= seq!['/'] + rest);
    let s = seq!['/'] + rest;
    assert(s.skip(1) =~= rest);
    assert(trim_front_segments(s) == trim_front_segments(rest));
    assert(trim_front_segments(rest) == rest);
    assert(trim_back_segments(rest) == rest);
    assert(!is_absolute(entry));
}

/// `s` has a `..` component starting at index `i`.
pub open spec fn parent_at(s: Seq<char>, i: int) -> bool {
    &&& 0 <= i
    &&& i + 2 <= s.len()
    &&& s[i] == '.'
    &&& s[i + 1] == '.'
    &&& (i == 0 || s[i - 1] == '/')
    &&& (i + 2 == s.len() || s[i + 2] == '/')
}

/// `s` has a `..` component.
pub open spec fn has_parent_component(s: Seq<char>) -> bool {
    exists|i: int| parent_at(s, i)
}

/// A relative path without `..` components never climbs above where it starts.
pub proof fn lemma_no_parent_stays_within(s: Seq<char>, depth: int)
    requires
        depth >= 0,
        !has_parent_component(s),
    ensures
        stays_within(s, depth),
    decreases s.len(),
{
    if s.len() > 0 {
        let k = first_sep(s);
        lemma_first_sep_bounds(s);
        let seg = s.take(k as int);
        assert(seg != seq!['.', '.']) by {
            if seg == seq!['.', '.'] {
                assert(seg.len() == k);
                assert(seg[0] == s[0] && seg[1] == s[1]);
                assert(parent_at(s, 0));
            }
        }
        if k < s.len() {
            let t = s.skip(k + 1int);
            assert(!has_parent_component(t)) by {
                if has_parent_component(t) {
                    let i = choose|i: int| parent_at(t, i);
                    assert(t[i] == s[i + k + 1] && t[i + 1] == s[i + k + 2]);
                    if i == 0 {
                        assert(s[k as int] == '/');
                    } else {
                        assert(t[i - 1] == s[i + k]);
                    }
                    if i + 2 < t.len() {
                        assert(t[i + 2] == s[i + k + 3]);
                    }
                    assert(parent_at(s, i + k + 1));
                }
            }
            lemma_no_parent_stays_within(t, depth_after(seg, depth));
        }
    }
}

/// The first component of `s` ends at a separator or at the end of `s`, and
/// holds no separator.
proof fn lemma_first_sep_bounds(s: Seq<char>)
    ensures
        0 <= first_sep(s) <= s.len(),
        first_sep(s) == s.len() || s[first_sep(s) as int] == '/',
        forall|j: int| 0 <= j < first_sep(s) ==> s[j] != '/',
        first_sep(s) == 2 ==> s.take(2) =~= seq![s[0], s[1]],
    decreases s.len(),
{
    if s.len() > 0 && s[0] != '/' {
        lemma_first_sep_bounds(s.skip(1));
        assert forall|j: int| 0 <= j < first_sep(s) implies s[j] != '/' by {
            if j > 0 {
                assert(s[j] == s.skip(1)[j - 1]);
            }
        }
    }
}

} // verus!
