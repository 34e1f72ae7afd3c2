//! The `/etc/hosts` line that maps a site's domain to the local machine:
//! when it is added, how it is removed, and what the two do together.
use vstd::prelude::*;
use crate::text::{
    concat, contains_seq, contains_str, lemma_replace_only, occurs_at, replace_all, replace_str,
};

verus! {

/// The address every site is mapped to, followed by the separating space.
pub open spec fn loopback_prefix() -> Seq<char> {
    seq!['1', '2', '7', '.', '0', '.', '0', '.', '1', ' ']
}

/// The hosts-file entry for `domain`: `127.0.0.1 <domain>`.
pub open spec fn hosts_entry(domain: Seq<char>) -> Seq<char> {
    loopback_prefix() + domain
}

/// The hosts file after a site is set up: unchanged when it already holds the
/// entry anywhere, otherwise the entry appended (with no line break added).
pub open spec fn hosts_after_adding(content: Seq<char>, domain: Seq<char>) -> Seq<char> {
    if contains_seq(content, hosts_entry(domain)) {
        content
    } else {
        content + hosts_entry(domain)
    }
}

/// The hosts file after a site is removed: every occurrence of its entry deleted.
pub open spec fn hosts_after_removing(content: Seq<char>, domain: Seq<char>) -> Seq<char> {
    replace_all(content, hosts_entry(domain), Seq::empty())
}

/// `s` holds no line break.
pub open spec fn no_line_break(s: Seq<char>) -> bool {
    forall|i: int| 0 <= i < s.len() ==> s[i] != '\n'
}

/// The hosts-file entry for `domain`.
pub fn dns_entry(domain: &str) -> (r: String)
    ensures
        r@ == hosts_entry(domain@),
{
    let prefix = "127.0.0.1 ";
    proof {
        reveal_strlit("127.0.0.1 ");
    }
    assert(prefix@ =~= loopback_prefix());
    concat(prefix, domain)
}

/// What setting up `domain` appends to a hosts file holding `content`:
/// nothing when the entry is already there, otherwise the entry itself.
pub fn hosts_entry_to_append(content: &str, domain: &str) -> (r: Option<String>)
    ensures
        r is None <==> contains_seq(content@, hosts_entry(domain@)),
        r matches Some(e) ==> e@ == hosts_entry(domain@),
        match r {
            Some(e) => content@ + e@,
            None => content@,
        } == hosts_after_adding(content@, domain@),
{
    let entry = dns_entry(domain);
    if contains_str(content, entry.as_str()) {
        None
    } else {
        Some(entry)
    }
}

/// The hosts file holding `content` with every entry for `domain` deleted.
pub fn hosts_without_entry(content: &str, domain: &str) -> (r: String)
    ensures
        r@ == hosts_after_removing(content@, domain@),
{
    let entry = dns_entry(domain);
    let nothing = "";
    proof {
        reveal_strlit("");
    }
    assert(nothing@ =~= Seq::<char>::empty());
    replace_str(content, entry.as_str(), nothing)
}

/// Replacing a pattern that does not occur changes nothing.
pub proof fn lemma_replace_absent(s: Seq<char>, pat: Seq<char>, rep: Seq<char>)
    requires
        !contains_seq(s, pat),
    ensures
        replace_all(s, pat, rep) == s,
    decreases s.len(),
{
    if pat.len() == 0 || s.len() < pat.len() {
    } else {
        assert(s.take(pat.len() as int) =~= s.subrange(0, pat.len() as int));
        assert(!occurs_at(s, pat, 0));
        assert(!contains_seq(s.skip(1), pat)) by {
            assert forall|j: int| !occurs_at(s.skip(1), pat, j) by {
                if occurs_at(s.skip(1), pat, j) {
                    assert(s.skip(1).subrange(j, j + pat.len()) =~= s.subrange(
                        j + 1,
                        j + 1 + pat.len(),
                    ));
                    assert(occurs_at(s, pat, j + 1));
                }
            }
        }
        lemma_replace_absent(s.skip(1), pat, rep);
        assert(s =~= seq![s[0]] + s.skip(1));
    }
}

/// Deleting `e` from `c + e` gives back `c` when `c` does not hold `e` and
/// ends with a line break (or is empty), and `e` holds no line break.
proof fn lemma_delete_appended(c: Seq<char>, e: Seq<char>)
    requires
        e.len() > 0,
        no_line_break(e),
        !contains_seq(c, e),
        c.len() == 0 || c.last() == '\n',
    ensures
        replace_all(c + e, e, Seq::empty()) == c,
    decreases c.len(),
{
    let s = c + e;
    let m = e.len() as int;
    if c.len() == 0 {
        assert(s =~= e);
        assert(s.take(m) =~= e);
        assert(s.skip(m) =~= Seq::<char>::empty());
        assert(replace_all(Seq::<char>::empty(), e, Seq::empty()) == Seq::<char>::empty());
        assert(replace_all(s, e, Seq::empty()) == Seq::<char>::empty() + replace_all(
            s.skip(m),
            e,
            Seq::empty(),
        ));
        assert(Seq::<char>::empty() + Seq::<char>::empty() =~= Seq::<char>::empty());
    } else {
        assert(s.take(m) != e) by {
            if c.len() >= m {
                assert(s.take(m) =~= c.subrange(0, m));
                assert(!occurs_at(c, e, 0));
            } else {
                assert(s.take(m)[c.len() - 1] == '\n');
                assert(e[c.len() - 1] != '\n');
            }
        }
        let c1 = c.skip(1);
        assert(!contains_seq(c1, e)) by {
            assert forall|j: int| !occurs_at(c1, e, j) by {
                if occurs_at(c1, e, j) {
                    assert(c1.subrange(j, j + m) =~= c.subrange(j + 1, j + 1 + m));
                    assert(occurs_at(c, e, j + 1));
                }
            }
        }
        assert(c1.len() == 0 || c1.last() == '\n');
        lemma_delete_appended(c1, e);
        assert(s.skip(1) =~= c1 + e);
        assert(s[0] == c[0]);
        assert(replace_all(s, e, Seq::empty()) == seq![s[0]] + replace_all(
            s.skip(1),
            e,
            Seq::empty(),
        ));
        assert(c =~= seq![c[0]] + c1);
    }
}

/// Adding a site's entry to a hosts file leaves the entry in it.
pub proof fn lemma_added_entry_present(content: Seq<char>, domain: Seq<char>)
    ensures
        contains_seq(hosts_after_adding(content, domain), hosts_entry(domain)),
{
    let e = hosts_entry(domain);
    if !contains_seq(content, e) {
        let s = content + e;
        assert(s.subrange(content.len() as int, (content.len() + e.len()) as int) =~= e);
        assert(occurs_at(s, e, content.len() as int));
    }
}

/// Adding a site's entry twice leaves the hosts file as adding it once.
pub proof fn lemma_adding_twice(content: Seq<char>, domain: Seq<char>)
    ensures
        hosts_after_adding(hosts_after_adding(content, domain), domain) == hosts_after_adding(
            content,
            domain,
        ),
{
    lemma_added_entry_present(content, domain);
}

/// Removing a site undoes adding it to a hosts file that ends with a line
/// break (or is empty), for a domain without line breaks.
pub proof fn lemma_remove_undoes_add(content: Seq<char>, domain: Seq<char>)
    requires
        content.len() == 0 || content.last() == '\n',
        no_line_break(domain),
    ensures
        hosts_after_removing(hosts_after_adding(content, domain), domain) == hosts_after_removing(
            content,
            domain,
        ),
{
    let e = hosts_entry(domain);
    if !contains_seq(content, e) {
        assert(no_line_break(e)) by {
            assert forall|i: int| 0 <= i < e.len() implies e[i] != '\n' by {
                if i >= loopback_prefix().len() {
                    assert(e[i] == domain[i - loopback_prefix().len()]);
                }
            }
        }
        lemma_delete_appended(content, e);
        lemma_replace_absent(content, e, Seq::empty());
    }
}

/// Removing a site from a hosts file that holds its entry once deletes just
/// that entry, keeping what stood before and after it.
pub proof fn lemma_remove_single_entry(x: Seq<char>, y: Seq<char>, domain: Seq<char>)
    requires
        forall|j: int| occurs_at(x + hosts_entry(domain) + y, hosts_entry(domain), j) ==> j == x.len(),
    ensures
        hosts_after_removing(x + hosts_entry(domain) + y, domain) == x + y,
{
    lemma_replace_only(x, hosts_entry(domain), y, Seq::empty());
    assert(x + Seq::<char>::empty() + y =~= x + y);
}

} // verus!
