//! The decisions behind setting up, removing and restarting a site: names and
//! paths derived from the domain, answers to prompts, and the PHP-FPM service
//! named in a site's configuration.
use vstd::prelude::*;
use crate::text::{
    chars_of, concat, contains_seq, find_str, occurs_at, push_str, starts_with, trim_end_char,
};
use crate::pattern::{
    is_slug_char, php_fpm_pattern, regex_find, regex_first_match, regex_new,
    regex_replace_all, slug_pattern,
};

verus! {

/// `s` with every character outside `[a-zA-Z0-9_]` replaced by `_`.
pub open spec fn slug_of(s: Seq<char>) -> Seq<char> {
    s.map_values(
        |c: char|
            if is_slug_char(c) {
                c
            } else {
                '_'
            },
    )
}

/// The database name for a domain: every character outside `[a-zA-Z0-9_]`
/// replaced with an underscore, by the regex `[^a-zA-Z0-9_]`.
pub fn slugify(s: &str) -> (r: String)
    ensures
        r@ == slug_of(s@),
{
    let pattern = "[^a-zA-Z0-9_]";
    let underscore = "_";
    proof {
        reveal_strlit("[^a-zA-Z0-9_]");
        reveal_strlit("_");
    }
    assert(pattern@ =~= slug_pattern());
    assert(underscore@ =~= seq!['_']);
    match regex_new(pattern) {
        Ok(re) => regex_replace_all(&re, s, underscore),
        Err(_) => s.to_owned(),
    }
}

/// A slug keeps the length of its text and holds only `[a-zA-Z0-9_]` characters.
pub proof fn lemma_slug_shape(s: Seq<char>)
    ensures
        slug_of(s).len() == s.len(),
        forall|i: int| 0 <= i < s.len() ==> is_slug_char(#[trigger] slug_of(s)[i]),
{
}

/// Slugifying a slug changes nothing.
pub proof fn lemma_slug_idempotent(s: Seq<char>)
    ensures
        slug_of(slug_of(s)) == slug_of(s),
{
    assert(slug_of(slug_of(s)) =~= slug_of(s));
}

/// Text made only of `[a-zA-Z0-9_]` characters is its own slug.
pub proof fn lemma_slug_fixes_word_text(s: Seq<char>)
    requires
        forall|i: int| 0 <= i < s.len() ==> is_slug_char(#[trigger] s[i]),
    ensures
        slug_of(s) == s,
{
    assert(slug_of(s) =~= s);
}

/// The first PHP-FPM service name that the pattern `php\d+(?:\.\d+)*-fpm` finds
/// in `lines`, taken line by line.
pub open spec fn first_php_fpm(lines: Seq<Seq<char>>) -> Option<Seq<char>> {
    first_found(lines.map_values(|l: Seq<char>| regex_first_match(php_fpm_pattern(), l)))
}

/// The first of `found` that holds a value.
pub open spec fn first_found(found: Seq<Option<Seq<char>>>) -> Option<Seq<char>>
    decreases found.len(),
{
    if found.len() == 0 {
        None
    } else {
        match found[0] {
            Some(m) => Some(m),
            None => first_found(found.drop_first()),
        }
    }
}

/// The service found is the one on the earliest line that holds one: when
/// line `k` holds `m` and no line before it holds anything, `m` is found; when
/// no line holds anything, nothing is.
pub proof fn lemma_first_found_earliest(found: Seq<Option<Seq<char>>>, k: int)
    requires
        0 <= k <= found.len(),
        forall|j: int| 0 <= j < k ==> found[j] is None,
    ensures
        k < found.len() ==> (found[k] matches Some(m) ==> first_found(found) == Some(m)),
        k == found.len() ==> first_found(found) is None,
    decreases k,
{
    if k > 0 {
        let rest = found.drop_first();
        assert forall|j: int| 0 <= j < k - 1 implies rest[j] is None by {
            assert(rest[j] == found[j + 1]);
        }
        lemma_first_found_earliest(rest, k - 1);
        if k < found.len() {
            assert(rest[k - 1] == found[k]);
        }
    }
}

/// The views of a list of strings.
pub open spec fn views(v: Seq<String>) -> Seq<Seq<char>> {
    v.map_values(|s: String| s@)
}

/// The views of a list of optional strings.
pub open spec fn opt_views(v: Seq<Option<String>>) -> Seq<Option<Seq<char>>> {
    v.map_values(
        |o: Option<String>|
            match o {
                Some(s) => Some(s@),
                None => None,
            },
    )
}

/// What the search of a site configuration for its PHP-FPM service found.
pub enum PhpFpmLookup {
    /// The service name found on the earliest line that holds one.
    Found(String),
    /// The whole file was read and no line names a service.
    NotFound,
    /// Reading stopped at an unreadable line before any service name was found.
    Unreadable,
}

/// The outcome of a search from what was found on each line read: the first
/// service name found, otherwise `NotFound` when the lines are the whole file
/// (`complete`) and `Unreadable` when reading stopped after them.
pub fn php_fpm_lookup_outcome(found: Vec<Option<String>>, complete: bool) -> (r: PhpFpmLookup)
    ensures
        match first_found(opt_views(found@)) {
            Some(m) => r matches PhpFpmLookup::Found(s) && s@ == m,
            None => if complete {
                r is NotFound
            } else {
                r is Unreadable
            },
        },
{
    let ghost all = opt_views(found@);
    let mut i: usize = 0;
    let n = found.len();
    assert(all.skip(0) =~= all);
    while i < n
        invariant
            n == found.len() == all.len(),
            i <= n,
            all == opt_views(found@),
            first_found(all) == first_found(all.skip(i as int)),
        decreases n - i,
    {
        let ghost tail = all.skip(i as int);
        assert(tail[0] == all[i as int]);
        assert(tail.drop_first() =~= all.skip(i + 1));
        match &found[i] {
            Some(m) => {
                assert(all[i as int] == Some(m@));
                assert(first_found(tail) == Some(m@));
                return PhpFpmLookup::Found(m.clone());
            },
            None => {},
        }
        i = i + 1;
    }
    assert(all.skip(i as int).len() == 0);
    if complete {
        PhpFpmLookup::NotFound
    } else {
        PhpFpmLookup::Unreadable
    }
}

/// Searches the lines read from a site's configuration for the PHP-FPM service
/// it uses, with the pattern `php\d+(?:\.\d+)*-fpm`. `complete` tells whether
/// the lines are the whole file, or reading stopped at an unreadable line after
/// them.
pub fn find_site_php_version(lines: &Vec<String>, complete: bool) -> (r: PhpFpmLookup)
    ensures
        match first_php_fpm(views(lines@)) {
            Some(m) => r matches PhpFpmLookup::Found(s) && s@ == m,
            None => if complete {
                r is NotFound
            } else {
                r is Unreadable
            },
        },
{
    let pattern = "php\\d+(?:\\.\\d+)*-fpm";
    proof {
        reveal_strlit("php\\d+(?:\\.\\d+)*-fpm");
    }
    assert(pattern@ =~= php_fpm_pattern());
    let re = match regex_new(pattern) {
        Ok(re) => re,
        Err(_) => return vstd::pervasive::unreached(),
    };
    let ghost want = views(lines@).map_values(
        |l: Seq<char>| regex_first_match(php_fpm_pattern(), l),
    );
    let mut found: Vec<Option<String>> = Vec::new();
    let mut i: usize = 0;
    while i < lines.len()
        invariant
            i <= lines.len(),
            re.source() == php_fpm_pattern(),
            want == views(lines@).map_values(
                |l: Seq<char>| regex_first_match(php_fpm_pattern(), l),
            ),
            opt_views(found@) == want.take(i as int),
        decreases lines.len() - i,
    {
        let m = regex_find(&re, lines[i].as_str());
        let ghost before = found@;
        found.push(m);
        assert(opt_views(found@) =~= opt_views(before).push(
            match m {
                Some(s) => Some(s@),
                None => None,
            },
        ));
        assert(want.take(i + 1) =~= want.take(i as int).push(want[i as int]));
        i = i + 1;
    }
    assert(want.take(lines.len() as int) =~= want);
    php_fpm_lookup_outcome(found, complete)
}

/// `path` with every trailing `/` trimmed.
pub fn normalize_path(path: &str) -> (r: &str)
    ensures
        r@ == trim_end_char(path@, '/'),
        r@.len() == 0 || r@.last() != '/',
        path@ == r@ + Seq::new((path@.len() - r@.len()) as nat, |i: int| '/'),
{
    let v = chars_of(path);
    let mut k = v.len();
    assert(v@.take(k as int) =~= v@);
    while k > 0 && v[k - 1] == '/'
        invariant
            k <= v.len(),
            v@ == path@,
            trim_end_char(v@, '/') == trim_end_char(v@.take(k as int), '/'),
            forall|j: int| k <= j < v.len() ==> v@[j] == '/',
        decreases k,
    {
        assert(v@.take(k as int).drop_last() =~= v@.take(k - 1));
        k = k - 1;
    }
    assert(v@.take(k as int).len() == 0 || v@.take(k as int).last() != '/');
    let r = path.substring_char(0, k);
    assert(r@ =~= v@.take(k as int));
    assert(path@ =~= r@ + Seq::new((path@.len() - r@.len()) as nat, |i: int| '/'));
    r
}

/// Trimming trailing slashes twice trims no more than once.
pub proof fn lemma_normalize_idempotent(path: Seq<char>)
    ensures
        trim_end_char(trim_end_char(path, '/'), '/') == trim_end_char(path, '/'),
    decreases path.len(),
{
    if path.len() > 0 && path.last() == '/' {
        lemma_normalize_idempotent(path.drop_last());
    }
}

/// The path a directory answer names: itself when absolute, otherwise taken
/// relative to `base` (the working directory for the site path, the site path
/// for the document root).
pub open spec fn directory_candidate(input: Seq<char>, base: Seq<char>) -> Seq<char> {
    if starts_with(input, seq!['/']) {
        input
    } else {
        base + seq!['/'] + input
    }
}

/// With an absolute base, a directory answer always names an absolute path,
/// and so does the accepted path unless nothing but slashes remains to trim
/// (the root `/` itself is accepted as the empty path).
pub proof fn lemma_directory_answer_absolute(input: Seq<char>, base: Seq<char>)
    requires
        starts_with(base, seq!['/']),
    ensures
        starts_with(directory_candidate(input, base), seq!['/']),
        trim_end_char(directory_candidate(input, base), '/').len() > 0 ==> starts_with(
            trim_end_char(directory_candidate(input, base), '/'),
            seq!['/'],
        ),
{
    let c = directory_candidate(input, base);
    assert(c.take(1) =~= seq!['/']) by {
        if !starts_with(input, seq!['/']) {
            assert(c[0] == base[0]);
            assert(base.take(1)[0] == base[0]);
        } else {
            assert(input.take(1)[0] == input[0]);
        }
    }
    lemma_trim_keeps_first(c, '/');
}

/// Trimming a character from the end keeps what comes first.
proof fn lemma_trim_keeps_first(s: Seq<char>, c: char)
    ensures
        trim_end_char(s, c).len() <= s.len(),
        trim_end_char(s, c).len() > 0 ==> trim_end_char(s, c)[0] == s[0] && trim_end_char(
            s,
            c,
        ).take(1) =~= s.take(1),
    decreases s.len(),
{
    if s.len() > 0 && s.last() == c {
        lemma_trim_keeps_first(s.drop_last(), c);
    }
}

/// What to do with one answer to a directory prompt.
pub enum DirectoryInput {
    /// Take this path.
    Accept(String),
    /// Take this path, trailing slashes trimmed, if it exists; ask again otherwise.
    CheckExists(String),
}

/// The step of a directory prompt answered against `base`: an empty answer
/// takes `base` itself (when it is a directory), any other answer names a path
/// to check.
pub fn directory_input_step(input: &str, base: &str, base_is_dir: bool) -> (r: DirectoryInput)
    ensures
        input@.len() == 0 && base_is_dir ==> (r matches DirectoryInput::Accept(p) && p@
            == trim_end_char(base@, '/')),
        !(input@.len() == 0 && base_is_dir) ==> (r matches DirectoryInput::CheckExists(p) && p@
            == directory_candidate(input@, base@)),
{
    if input.is_empty() && base_is_dir {
        return DirectoryInput::Accept(normalize_path(base).to_owned());
    }
    let v = chars_of(input);
    let absolute = v.len() > 0 && v[0] == '/';
    assert(absolute == starts_with(input@, seq!['/'])) by {
        if v.len() > 0 {
            assert(input@.take(1) =~= seq![v@[0]]);
            if starts_with(input@, seq!['/']) {
                assert(input@.take(1)[0] == '/');
            }
        }
    }
    let slash = "/";
    proof {
        reveal_strlit("/");
    }
    assert(slash@ =~= seq!['/']);
    if absolute {
        DirectoryInput::CheckExists(input.to_owned())
    } else {
        let mut p = concat(base, slash);
        push_str(&mut p, input);
        DirectoryInput::CheckExists(p)
    }
}

/// The directory a checked path yields: the path with trailing slashes trimmed
/// when it exists, nothing when it does not.
pub fn accept_existing_directory(candidate: &str, exists: bool) -> (r: Option<String>)
    ensures
        exists ==> (r matches Some(p) && p@ == trim_end_char(candidate@, '/')),
        !exists ==> r is None,
{
    if exists {
        Some(normalize_path(candidate).to_owned())
    } else {
        None
    }
}

/// The index of the first occurrence of `pat` in `s` (meaningful when it occurs).
pub open spec fn first_occurrence(s: Seq<char>, pat: Seq<char>) -> int {
    choose|i: int| occurs_at(s, pat, i) && forall|j: int| 0 <= j < i ==> !occurs_at(s, pat, j)
}

/// The document root the web server is pointed at: the domain followed by
/// whatever of `doc_root` comes after the first occurrence of `site_path`.
pub open spec fn link_doc_root_of(domain: Seq<char>, site_path: Seq<char>, doc_root: Seq<char>) -> Seq<
    char,
> {
    if contains_seq(doc_root, site_path) {
        domain + doc_root.skip(first_occurrence(doc_root, site_path) + site_path.len())
    } else {
        domain
    }
}

/// The document root to serve from the web root link: the domain followed by
/// whatever of `doc_root` comes after the first occurrence of `site_path`.
pub fn link_doc_root(domain: &str, site_path: &str, doc_root: &str) -> (r: String)
    ensures
        r@ == link_doc_root_of(domain@, site_path@, doc_root@),
{
    let mut r = domain.to_owned();
    match find_str(doc_root, site_path) {
        Some(i) => {
            let v = chars_of(doc_root);
            let m = site_path.unicode_len();
            assert(occurs_at(doc_root@, site_path@, i as int));
            assert(i + m <= v.len());
            crate::text::push_range(&mut r, &v, i + m, v.len());
            assert(v@.subrange(i + m, v@.len() as int) =~= doc_root@.skip(i + m));
            let ghost k = first_occurrence(doc_root@, site_path@);
            assert(k == i) by {
                assert(occurs_at(doc_root@, site_path@, k) && forall|j: int|
                    0 <= j < k ==> !occurs_at(doc_root@, site_path@, j));
                if k < i {
                } else if k > i {
                    assert(!occurs_at(doc_root@, site_path@, i as int));
                }
            }
        },
        None => {},
    }
    r
}

/// Trimming the end of `a + b` trims only `b` when `b` is not all trimmed away.
proof fn lemma_trim_concat(a: Seq<char>, b: Seq<char>, c: char)
    requires
        trim_end_char(b, c).len() > 0,
    ensures
        trim_end_char(a + b, c) == a + trim_end_char(b, c),
    decreases b.len(),
{
    if b.len() > 0 && b.last() == c {
        assert((a + b).drop_last() =~= a + b.drop_last());
        lemma_trim_concat(a, b.drop_last(), c);
    } else {
        if b.len() > 0 {
            assert((a + b).last() == b.last());
        }
    }
}

/// A relative document-root answer `r` is taken under the site path, so the
/// virtual host serves `<domain>/<r>`, trailing slashes of `r` trimmed.
pub proof fn lemma_doc_root_relative_to_site(
    domain: Seq<char>,
    site_path: Seq<char>,
    r: Seq<char>,
)
    requires
        !starts_with(r, seq!['/']),
        trim_end_char(r, '/').len() > 0,
    ensures
        trim_end_char(directory_candidate(r, site_path), '/') == site_path + seq!['/']
            + trim_end_char(r, '/'),
        link_doc_root_of(
            domain,
            site_path,
            trim_end_char(directory_candidate(r, site_path), '/'),
        ) == domain + seq!['/'] + trim_end_char(r, '/'),
{
    let t = trim_end_char(r, '/');
    lemma_trim_concat(site_path + seq!['/'], r, '/');
    let doc = site_path + seq!['/'] + t;
    assert(doc.subrange(0, site_path.len() as int) =~= site_path);
    assert(occurs_at(doc, site_path, 0));
    let k = first_occurrence(doc, site_path);
    assert(k == 0) by {
        assert(occurs_at(doc, site_path, k) && forall|j: int|
            0 <= j < k ==> !occurs_at(doc, site_path, j));
        if k > 0 {
            assert(!occurs_at(doc, site_path, 0));
        }
    }
    assert(doc.skip(site_path.len() as int) =~= seq!['/'] + t);
    assert(domain + (seq!['/'] + t) =~= domain + seq!['/'] + t);
}

/// Where a site's Apache configuration is written.
pub open spec fn available_conf_path(domain: Seq<char>) -> Seq<char> {
    "/etc/apache2/sites-available/"@ + domain + ".conf"@
}

/// Where the link that enables a site's Apache configuration is made.
pub open spec fn enabled_conf_path(domain: Seq<char>) -> Seq<char> {
    "/etc/apache2/sites-enabled/"@ + domain + ".conf"@
}

/// Where the link from the web root to a site's files is made.
pub open spec fn www_path(domain: Seq<char>) -> Seq<char> {
    "/var/www/html/"@ + domain
}

/// The paths that setting up a site creates.
pub struct SitePaths {
    /// The site's Apache configuration.
    pub conf_path: String,
    /// The link that enables the configuration.
    pub enabled_conf_path: String,
    /// The link from the web root to the site's files.
    pub www_path: String,
}

/// The paths that setting up `domain` creates.
pub fn site_paths(domain: &str) -> (r: SitePaths)
    ensures
        r.conf_path@ == available_conf_path(domain@),
        r.enabled_conf_path@ == enabled_conf_path(domain@),
        r.www_path@ == www_path(domain@),
{
    let mut conf_path = concat("/etc/apache2/sites-available/", domain);
    push_str(&mut conf_path, ".conf");
    let mut enabled = concat("/etc/apache2/sites-enabled/", domain);
    push_str(&mut enabled, ".conf");
    let www = concat("/var/www/html/", domain);
    SitePaths { conf_path, enabled_conf_path: enabled, www_path: www }
}

/// The files removing a site deletes, in order: the web root link, the enabling
/// link and the configuration.
pub open spec fn removal_targets_of(domain: Seq<char>) -> Seq<Seq<char>> {
    seq![www_path(domain), enabled_conf_path(domain), available_conf_path(domain)]
}

/// The files that removing `domain` deletes, in the order it deletes them.
pub fn removal_targets(domain: &str) -> (r: Vec<String>)
    ensures
        views(r@) == removal_targets_of(domain@),
{
    let paths = site_paths(domain);
    let mut r: Vec<String> = Vec::new();
    r.push(paths.www_path);
    r.push(paths.enabled_conf_path);
    r.push(paths.conf_path);
    assert(views(r@) =~= removal_targets_of(domain@));
    r
}

/// Removing a site deletes exactly the files that setting it up creates.
pub proof fn lemma_removal_matches_setup(domain: Seq<char>)
    ensures
        removal_targets_of(domain).to_set() == set![
            available_conf_path(domain),
            enabled_conf_path(domain),
            www_path(domain),
        ],
{
    let s = removal_targets_of(domain);
    assert(s.to_set() =~= set![
        available_conf_path(domain),
        enabled_conf_path(domain),
        www_path(domain),
    ]) by {
        assert(s[0] == www_path(domain));
        assert(s[1] == enabled_conf_path(domain));
        assert(s[2] == available_conf_path(domain));
        assert forall|x: Seq<char>| s.to_set().contains(x) implies x == www_path(domain) || x
            == enabled_conf_path(domain) || x == available_conf_path(domain) by {
            let k = choose|k: int| 0 <= k < s.len() && s[k] == x;
        }
    }
}

/// How much a command reports: messages at or below this level are shown.
pub struct Verbosity {
    pub level: u8,
}

impl Verbosity {
    /// Whether a message at `threshold` is shown.
    pub fn allows(&self, threshold: u8) -> (r: bool)
        ensures
            r == (self.level >= threshold),
    {
        self.level >= threshold
    }
}

/// The reporting of a command run at verbosity `level`.
pub fn get_verbose_conditional_print(level: u8) -> (r: Verbosity)
    ensures
        r.level == level,
{
    Verbosity { level }
}

/// A service command line: the program and its arguments.
pub struct ServiceCommand {
    pub program: String,
    pub args: Vec<String>,
}

/// The command that restarts `service`: `service <service> restart`.
pub fn restart_service(service: &str) -> (r: ServiceCommand)
    ensures
        r.program@ == "service"@,
        views(r.args@) == seq![service@, "restart"@],
{
    let mut args: Vec<String> = Vec::new();
    args.push(service.to_owned());
    args.push("restart".to_owned());
    assert(views(args@) =~= seq![service@, "restart"@]);
    ServiceCommand { program: "service".to_owned(), args }
}

/// The command that restarts Apache: `service apache2 restart`.
pub fn restart_apache() -> (r: ServiceCommand)
    ensures
        r.program@ == "service"@,
        views(r.args@) == seq!["apache2"@, "restart"@],
{
    restart_service("apache2")
}

/// The outcome of a restart from the command's exit: success, or the error
/// `Failed to restart service: <status>`.
pub fn restart_outcome(success: bool, status: &str) -> (r: Result<(), String>)
    ensures
        success <==> r is Ok,
        r matches Err(m) ==> m@ == "Failed to restart service: "@ + status@,
{
    if success {
        Ok(())
    } else {
        Err(concat("Failed to restart service: ", status))
    }
}

/// Everything setting up a site writes, derived from the domain and the
/// answers given.
pub struct NewSitePlan {
    /// The database created for the site.
    pub db_name: String,
    /// The document root the virtual host serves, under the web root.
    pub link_doc_root: String,
    /// The configuration and the links made.
    pub paths: SitePaths,
    /// The virtual host written to the configuration path.
    pub apache_conf: String,
    /// The hosts-file entry mapping the domain to this machine.
    pub dns_entry: String,
}

/// What setting up `domain` writes, for the site at `site_path` served from
/// `doc_root` with PHP `php_version`.
pub fn plan_new_site(domain: &str, site_path: &str, doc_root: &str, php_version: &str) -> (r:
    NewSitePlan)
    ensures
        r.db_name@ == slug_of(domain@),
        r.link_doc_root@ == link_doc_root_of(domain@, site_path@, doc_root@),
        r.paths.conf_path@ == available_conf_path(domain@),
        r.paths.enabled_conf_path@ == enabled_conf_path(domain@),
        r.paths.www_path@ == www_path(domain@),
        r.apache_conf@ == crate::template::render(
            crate::template::APACHE_CONF_TEMPLATE@,
            domain@,
            r.link_doc_root@,
            php_version@,
        ),
        r.apache_conf@ == crate::template::apache_conf(domain@, r.link_doc_root@, php_version@),
        r.dns_entry@ == crate::hosts::hosts_entry(domain@),
{
    let db_name = slugify(domain);
    let link = link_doc_root(domain, site_path, doc_root);
    let paths = site_paths(domain);
    let apache_conf = crate::template::get_apache_config_template(
        domain,
        link.as_str(),
        php_version,
    );
    let dns_entry = crate::hosts::dns_entry(domain);
    NewSitePlan { db_name, link_doc_root: link, paths, apache_conf, dns_entry }
}

/// Everything removing a site deletes, derived from its domain.
pub struct RemoveSitePlan {
    /// The files deleted, in order: web root link, enabling link, configuration.
    pub targets: Vec<String>,
    /// The database dropped.
    pub db_name: String,
}

/// What removing `domain` deletes.
pub fn plan_remove_site(domain: &str) -> (r: RemoveSitePlan)
    ensures
        views(r.targets@) == removal_targets_of(domain@),
        r.db_name@ == slug_of(domain@),
{
    RemoveSitePlan { targets: removal_targets(domain), db_name: slugify(domain) }
}

} // verus!
