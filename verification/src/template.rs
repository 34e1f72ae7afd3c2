//! The files written for a site: its Apache virtual host, rendered from a
//! template with `format!`-style named placeholders, and WordPress's `.htaccess`.
use vstd::prelude::*;
use crate::text::{chars_of, matches_at, occurs_at, push_str, starts_with};

verus! {

/// The Apache virtual host of a site. `{domain}`, `{doc_root}` and
/// `{php_version}` stand for the site's values; `{{` and `}}` for braces.
pub const APACHE_CONF_TEMPLATE: &'static str = "<VirtualHost *:80>
    ServerName {domain}
    ServerAlias www.{domain}
    DocumentRoot /var/www/html/{doc_root}

    <Directory /var/www/html/{doc_root}>
        Options Indexes FollowSymLinks
        AllowOverride All
        Require all granted
    </Directory>

    <FilesMatch \\.php$>
        SetHandler \"proxy:unix:/run/php/php{php_version}-fpm.sock|fcgi://localhost\"
    </FilesMatch>

    ErrorLog ${{APACHE_LOG_DIR}}/{domain}-error.log
    CustomLog ${{APACHE_LOG_DIR}}/{domain}-access.log combined
</VirtualHost>
";

/// The `.htaccess` that WordPress's permalinks need.
pub const WP_HTACCESS_TEMPLATE: &'static str = "# BEGIN WordPress
<IfModule mod_rewrite.c>
RewriteEngine On
RewriteRule .* - [E=HTTP_AUTHORIZATION:%{HTTP:Authorization}]
RewriteBase /
RewriteRule ^index\\.php$ - [L]
RewriteCond %{REQUEST_FILENAME} !-f
RewriteCond %{REQUEST_FILENAME} !-d
RewriteRule . /index.php [L]
</IfModule>
# END WordPress
";

/// `{{`, which renders as `{`.
pub open spec fn open_escape() -> Seq<char> {
    seq!['{', '{']
}

/// `}}`, which renders as `}`.
pub open spec fn close_escape() -> Seq<char> {
    seq!['}', '}']
}

/// The placeholder `{domain}`.
pub open spec fn domain_placeholder() -> Seq<char> {
    seq!['{', 'd', 'o', 'm', 'a', 'i', 'n', '}']
}

/// The placeholder `{doc_root}`.
pub open spec fn doc_root_placeholder() -> Seq<char> {
    seq!['{', 'd', 'o', 'c', '_', 'r', 'o', 'o', 't', '}']
}

/// The placeholder `{php_version}`.
pub open spec fn php_version_placeholder() -> Seq<char> {
    seq!['{', 'p', 'h', 'p', '_', 'v', 'e', 'r', 's', 'i', 'o', 'n', '}']
}

/// The template `t` rendered, read from left to right: `{{` and `}}` become
/// single braces, each placeholder becomes its value, every other character
/// stays.
pub open spec fn render(
    t: Seq<char>,
    domain: Seq<char>,
    doc_root: Seq<char>,
    php_version: Seq<char>,
) -> Seq<char>
    decreases t.len(),
{
    if t.len() == 0 {
        Seq::empty()
    } else if starts_with(t, open_escape()) {
        seq!['{'] + render(t.skip(2), domain, doc_root, php_version)
    } else if starts_with(t, close_escape()) {
        seq!['}'] + render(t.skip(2), domain, doc_root, php_version)
    } else if starts_with(t, domain_placeholder()) {
        domain + render(t.skip(8), domain, doc_root, php_version)
    } else if starts_with(t, doc_root_placeholder()) {
        doc_root + render(t.skip(10), domain, doc_root, php_version)
    } else if starts_with(t, php_version_placeholder()) {
        php_version + render(t.skip(13), domain, doc_root, php_version)
    } else {
        seq![t[0]] + render(t.skip(1), domain, doc_root, php_version)
    }
}

/// `pat` occurs in `v` at `i` exactly when the rest of `v` from `i` starts with it.
proof fn lemma_occurs_starts(v: Seq<char>, pat: Seq<char>, i: int)
    requires
        0 <= i <= v.len(),
    ensures
        occurs_at(v, pat, i) == starts_with(v.skip(i), pat),
{
    if i + pat.len() <= v.len() {
        assert(v.skip(i).take(pat.len() as int) =~= v.subrange(i, i + pat.len()));
    }
}

/// Renders `template` with the three values.
pub fn render_template(template: &str, domain: &str, doc_root: &str, php_version: &str) -> (r:
    String)
    ensures
        r@ == render(template@, domain@, doc_root@, php_version@),
{
    let open = "{{";
    let close = "}}";
    let dom = "{domain}";
    let doc = "{doc_root}";
    let php = "{php_version}";
    proof {
        reveal_strlit("{{");
        reveal_strlit("}}");
        reveal_strlit("{domain}");
        reveal_strlit("{doc_root}");
        reveal_strlit("{php_version}");
    }
    let open_v = chars_of(open);
    let close_v = chars_of(close);
    let dom_v = chars_of(dom);
    let doc_v = chars_of(doc);
    let php_v = chars_of(php);
    assert(open_v@ =~= open_escape());
    assert(close_v@ =~= close_escape());
    assert(dom_v@ =~= domain_placeholder());
    assert(doc_v@ =~= doc_root_placeholder());
    assert(php_v@ =~= php_version_placeholder());
    let v = chars_of(template);
    let n = v.len();
    let mut out = String::new();
    let mut i: usize = 0;
    let ghost full = render(v@, domain@, doc_root@, php_version@);
    assert(v@.skip(0) =~= v@);
    assert(out@ + full =~= full);
    while i < n
        invariant
            n == v@.len(),
            i <= n,
            v@ == template@,
            open_v@ == open_escape(),
            close_v@ == close_escape(),
            dom_v@ == domain_placeholder(),
            doc_v@ == doc_root_placeholder(),
            php_v@ == php_version_placeholder(),
            full == render(v@, domain@, doc_root@, php_version@),
            out@ + render(v@.skip(i as int), domain@, doc_root@, php_version@) == full,
        decreases n - i,
    {
        let ghost t = v@.skip(i as int);
        let ghost before = out@;
        let step: usize;
        let ghost piece: Seq<char>;
        proof {
            lemma_occurs_starts(v@, open_escape(), i as int);
            lemma_occurs_starts(v@, close_escape(), i as int);
            lemma_occurs_starts(v@, domain_placeholder(), i as int);
            lemma_occurs_starts(v@, doc_root_placeholder(), i as int);
            lemma_occurs_starts(v@, php_version_placeholder(), i as int);
        }
        if matches_at(&v, &open_v, i) {
            out.push('{');
            step = 2;
            proof {
                piece = seq!['{'];
            }
        } else if matches_at(&v, &close_v, i) {
            out.push('}');
            step = 2;
            proof {
                piece = seq!['}'];
            }
        } else if matches_at(&v, &dom_v, i) {
            push_str(&mut out, domain);
            step = 8;
            proof {
                piece = domain@;
            }
        } else if matches_at(&v, &doc_v, i) {
            push_str(&mut out, doc_root);
            step = 10;
            proof {
                piece = doc_root@;
            }
        } else if matches_at(&v, &php_v, i) {
            push_str(&mut out, php_version);
            step = 13;
            proof {
                piece = php_version@;
            }
        } else {
            out.push(v[i]);
            step = 1;
            proof {
                piece = seq![t[0]];
            }
        }
        assert(render(t, domain@, doc_root@, php_version@) == piece + render(
            t.skip(step as int),
            domain@,
            doc_root@,
            php_version@,
        ));
        assert(t.skip(step as int) =~= v@.skip(i + step));
        assert(out@ == before + piece);
        assert(before + (piece + render(t.skip(step as int), domain@, doc_root@, php_version@))
            =~= out@ + render(t.skip(step as int), domain@, doc_root@, php_version@));
        i = i + step;
    }
    assert(v@.skip(n as int) =~= Seq::<char>::empty());
    assert(out@ + Seq::<char>::empty() =~= out@);
    out
}

/// The Apache configuration of a site: the virtual host template rendered with
/// the site's domain, document root and PHP version.
pub fn get_apache_config_template(domain: &str, doc_root: &str, php_version: &str) -> (r: String)
    ensures
        r@ == render(APACHE_CONF_TEMPLATE@, domain@, doc_root@, php_version@),
        r@ == apache_conf(domain@, doc_root@, php_version@),
{
    proof {
        lemma_apache_conf_rendered(domain@, doc_root@, php_version@);
    }
    render_template(APACHE_CONF_TEMPLATE, domain, doc_root, php_version)
}

/// The `.htaccess` written to a WordPress site.
pub fn get_wp_htaccess_template() -> (r: String)
    ensures
        r@ == WP_HTACCESS_TEMPLATE@,
{
    WP_HTACCESS_TEMPLATE.to_owned()
}

/// `t` holds no brace.
pub open spec fn brace_free(t: Seq<char>) -> bool {
    forall|i: int| 0 <= i < t.len() ==> t[i] != '{' && t[i] != '}'
}

/// A template without braces renders as itself, whatever the values.
pub proof fn lemma_render_brace_free(
    t: Seq<char>,
    domain: Seq<char>,
    doc_root: Seq<char>,
    php_version: Seq<char>,
)
    requires
        brace_free(t),
    ensures
        render(t, domain, doc_root, php_version) == t,
    decreases t.len(),
{
    if t.len() > 0 {
        assert(!starts_with(t, open_escape())) by {
            if starts_with(t, open_escape()) {
                assert(t.take(2)[0] == t[0]);
            }
        }
        assert(!starts_with(t, close_escape())) by {
            if starts_with(t, close_escape()) {
                assert(t.take(2)[0] == t[0]);
            }
        }
        assert(!starts_with(t, domain_placeholder())) by {
            if starts_with(t, domain_placeholder()) {
                assert(t.take(8)[0] == t[0]);
            }
        }
        assert(!starts_with(t, doc_root_placeholder())) by {
            if starts_with(t, doc_root_placeholder()) {
                assert(t.take(10)[0] == t[0]);
            }
        }
        assert(!starts_with(t, php_version_placeholder())) by {
            if starts_with(t, php_version_placeholder()) {
                assert(t.take(13)[0] == t[0]);
            }
        }
        lemma_render_brace_free(t.skip(1), domain, doc_root, php_version);
        assert(t =~= seq![t[0]] + t.skip(1));
    }
}


/// Text without braces stays as it is, whatever follows it.
pub proof fn lemma_render_text_kept(
    p: Seq<char>,
    q: Seq<char>,
    domain: Seq<char>,
    doc_root: Seq<char>,
    php_version: Seq<char>,
)
    requires
        brace_free(p),
    ensures
        render(p + q, domain, doc_root, php_version) == p + render(q, domain, doc_root, php_version),
    decreases p.len(),
{
    if p.len() == 0 {
        assert(p + q =~= q);
        assert(p + render(q, domain, doc_root, php_version) =~= render(
            q,
            domain,
            doc_root,
            php_version,
        ));
    } else {
        let t = p + q;
        assert(t[0] == p[0]);
        assert(!starts_with(t, open_escape())) by {
            if starts_with(t, open_escape()) {
                assert(t.take(2)[0] == t[0]);
            }
        }
        assert(!starts_with(t, close_escape())) by {
            if starts_with(t, close_escape()) {
                assert(t.take(2)[0] == t[0]);
            }
        }
        assert(!starts_with(t, domain_placeholder())) by {
            if starts_with(t, domain_placeholder()) {
                assert(t.take(8)[0] == t[0]);
            }
        }
        assert(!starts_with(t, doc_root_placeholder())) by {
            if starts_with(t, doc_root_placeholder()) {
                assert(t.take(10)[0] == t[0]);
            }
        }
        assert(!starts_with(t, php_version_placeholder())) by {
            if starts_with(t, php_version_placeholder()) {
                assert(t.take(13)[0] == t[0]);
            }
        }
        let p1 = p.skip(1);
        assert(t.skip(1) =~= p1 + q);
        lemma_render_text_kept(p1, q, domain, doc_root, php_version);
        assert(p =~= seq![p[0]] + p1);
        assert(p + render(q, domain, doc_root, php_version) =~= seq![p[0]] + (p1 + render(
            q,
            domain,
            doc_root,
            php_version,
        )));
    }
}

/// Each placeholder renders as its value and each escaped brace as a brace,
/// whatever follows it.
proof fn lemma_render_token(
    q: Seq<char>,
    domain: Seq<char>,
    doc_root: Seq<char>,
    php_version: Seq<char>,
)
    ensures
        render(open_escape() + q, domain, doc_root, php_version) == seq!['{'] + render(
            q,
            domain,
            doc_root,
            php_version,
        ),
        render(close_escape() + q, domain, doc_root, php_version) == seq!['}'] + render(
            q,
            domain,
            doc_root,
            php_version,
        ),
        render(domain_placeholder() + q, domain, doc_root, php_version) == domain + render(
            q,
            domain,
            doc_root,
            php_version,
        ),
        render(doc_root_placeholder() + q, domain, doc_root, php_version) == doc_root + render(
            q,
            domain,
            doc_root,
            php_version,
        ),
        render(php_version_placeholder() + q, domain, doc_root, php_version) == php_version
            + render(q, domain, doc_root, php_version),
{
    let t1 = open_escape() + q;
    assert(t1.take(2) =~= open_escape());
    assert(t1.skip(2) =~= q);
    let t2 = close_escape() + q;
    assert(t2.take(2) != open_escape()) by {
        assert(t2.take(2)[0] == '}');
    }
    assert(t2.take(2) =~= close_escape());
    assert(t2.skip(2) =~= q);
    let t3 = domain_placeholder() + q;
    assert(t3.take(2) != open_escape()) by {
        assert(t3.take(2)[1] == 'd');
    }
    assert(t3.take(2) != close_escape()) by {
        assert(t3.take(2)[0] == '{');
    }
    assert(t3.take(8) =~= domain_placeholder());
    assert(t3.skip(8) =~= q);
    let t4 = doc_root_placeholder() + q;
    assert(t4.take(2) != open_escape()) by {
        assert(t4.take(2)[1] == 'd');
    }
    assert(t4.take(2) != close_escape()) by {
        assert(t4.take(2)[0] == '{');
    }
    assert(t4.take(8) != domain_placeholder()) by {
        assert(t4.take(8)[3] == 'c');
    }
    assert(t4.take(10) =~= doc_root_placeholder());
    assert(t4.skip(10) =~= q);
    let t5 = php_version_placeholder() + q;
    assert(t5.take(2) != open_escape()) by {
        assert(t5.take(2)[1] == 'p');
    }
    assert(t5.take(2) != close_escape()) by {
        assert(t5.take(2)[0] == '{');
    }
    assert(t5.take(8) != domain_placeholder()) by {
        assert(t5.take(8)[1] == 'p');
    }
    assert(t5.take(10) != doc_root_placeholder()) by {
        assert(t5.take(10)[1] == 'p');
    }
    assert(t5.take(13) =~= php_version_placeholder());
    assert(t5.skip(13) =~= q);
}

/// After text without braces, each placeholder renders as its value and each
/// escaped brace as a brace, whatever follows: `p{doc_root}q` renders as `p`,
/// the document root, then `q` rendered.
pub proof fn lemma_render_placeholder(
    p: Seq<char>,
    q: Seq<char>,
    domain: Seq<char>,
    doc_root: Seq<char>,
    php_version: Seq<char>,
)
    requires
        brace_free(p),
    ensures
        render(p + open_escape() + q, domain, doc_root, php_version) == p + seq!['{'] + render(
            q,
            domain,
            doc_root,
            php_version,
        ),
        render(p + close_escape() + q, domain, doc_root, php_version) == p + seq!['}'] + render(
            q,
            domain,
            doc_root,
            php_version,
        ),
        render(p + domain_placeholder() + q, domain, doc_root, php_version) == p + domain
            + render(q, domain, doc_root, php_version),
        render(p + doc_root_placeholder() + q, domain, doc_root, php_version) == p + doc_root
            + render(q, domain, doc_root, php_version),
        render(p + php_version_placeholder() + q, domain, doc_root, php_version) == p
            + php_version + render(q, domain, doc_root, php_version),
{
    lemma_render_token(q, domain, doc_root, php_version);
    let rq = render(q, domain, doc_root, php_version);
    lemma_render_text_kept(p, open_escape() + q, domain, doc_root, php_version);
    assert(p + open_escape() + q =~= p + (open_escape() + q));
    assert(p + (seq!['{'] + rq) =~= p + seq!['{'] + rq);
    lemma_render_text_kept(p, close_escape() + q, domain, doc_root, php_version);
    assert(p + close_escape() + q =~= p + (close_escape() + q));
    assert(p + (seq!['}'] + rq) =~= p + seq!['}'] + rq);
    lemma_render_text_kept(p, domain_placeholder() + q, domain, doc_root, php_version);
    assert(p + domain_placeholder() + q =~= p + (domain_placeholder() + q));
    assert(p + (domain + rq) =~= p + domain + rq);
    lemma_render_text_kept(p, doc_root_placeholder() + q, domain, doc_root, php_version);
    assert(p + doc_root_placeholder() + q =~= p + (doc_root_placeholder() + q));
    assert(p + (doc_root + rq) =~= p + doc_root + rq);
    lemma_render_text_kept(p, php_version_placeholder() + q, domain, doc_root, php_version);
    assert(p + php_version_placeholder() + q =~= p + (php_version_placeholder() + q));
    assert(p + (php_version + rq) =~= p + php_version + rq);
}



/// The Apache virtual host of a site, with its values put in: the domain as
/// server name and alias and in the log names, the document root under
/// `/var/www/html/` as document root and `<Directory>`, and the PHP-FPM socket
/// of the PHP version.
pub open spec fn apache_conf(domain: Seq<char>, doc_root: Seq<char>, php_version: Seq<char>) -> Seq<
    char,
> {
    "<VirtualHost *:80>\n    ServerName "@ + domain + "\n    ServerAlias www."@ + domain
        + "\n    DocumentRoot /var/www/html/"@ + doc_root + "\n\n    <Directory /var/www/html/"@
        + doc_root + ">\n        Options Indexes FollowSymLinks\n        AllowOverride All\n        Require all granted\n    </Directory>\n\n    <FilesMatch \\.php$>\n        SetHandler \"proxy:unix:/run/php/php"@
        + php_version + "-fpm.sock|fcgi://localhost\"\n    </FilesMatch>\n\n    ErrorLog ${APACHE_LOG_DIR}/"@
        + domain + "-error.log\n    CustomLog ${APACHE_LOG_DIR}/"@ + domain
        + "-access.log combined\n</VirtualHost>\n"@
}

/// The virtual host template, cut at its placeholders and escaped braces.
proof fn lemma_apache_template_pieces()
    ensures
        APACHE_CONF_TEMPLATE@ == "<VirtualHost *:80>\n    ServerName "@ + domain_placeholder() + ("\n    ServerAlias www."@ + domain_placeholder() + ("\n    DocumentRoot /var/www/html/"@ + doc_root_placeholder() + ("\n\n    <Directory /var/www/html/"@ + doc_root_placeholder() + (">\n        Options Indexes FollowSymLinks\n        AllowOverride All\n        Require all granted\n    </Directory>\n\n    <FilesMatch \\.php$>\n        SetHandler \"proxy:unix:/run/php/php"@ + php_version_placeholder() + ("-fpm.sock|fcgi://localhost\"\n    </FilesMatch>\n\n    ErrorLog $"@ + open_escape() + ("APACHE_LOG_DIR"@ + close_escape() + ("/"@ + domain_placeholder() + ("-error.log\n    CustomLog $"@ + open_escape() + ("APACHE_LOG_DIR"@ + close_escape() + ("/"@ + domain_placeholder() + ("-access.log combined\n</VirtualHost>\n"@))))))))))),
{
    reveal_strlit("<VirtualHost *:80>
    ServerName {domain}
    ServerAlias www.{domain}
    DocumentRoot /var/www/html/{doc_root}

    <Directory /var/www/html/{doc_root}>
        Options Indexes FollowSymLinks
        AllowOverride All
        Require all granted
    </Directory>

    <FilesMatch \\.php$>
        SetHandler \"proxy:unix:/run/php/php{php_version}-fpm.sock|fcgi://localhost\"
    </FilesMatch>

    ErrorLog ${{APACHE_LOG_DIR}}/{domain}-error.log
    CustomLog ${{APACHE_LOG_DIR}}/{domain}-access.log combined
</VirtualHost>
");
    reveal_strlit("-access.log combined\n</VirtualHost>\n");
    reveal_strlit("-error.log\n    CustomLog $");
    reveal_strlit("-fpm.sock|fcgi://localhost\"\n    </FilesMatch>\n\n    ErrorLog $");
    reveal_strlit("/");
    reveal_strlit("<VirtualHost *:80>\n    ServerName ");
    reveal_strlit(">\n        Options Indexes FollowSymLinks\n        AllowOverride All\n        Require all granted\n    </Directory>\n\n    <FilesMatch \\.php$>\n        SetHandler \"proxy:unix:/run/php/php");
    reveal_strlit("APACHE_LOG_DIR");
    reveal_strlit("\n    DocumentRoot /var/www/html/");
    reveal_strlit("\n    ServerAlias www.");
    reveal_strlit("\n\n    <Directory /var/www/html/");
    assert(APACHE_CONF_TEMPLATE@ =~= "<VirtualHost *:80>\n    ServerName "@ + domain_placeholder() + ("\n    ServerAlias www."@ + domain_placeholder() + ("\n    DocumentRoot /var/www/html/"@ + doc_root_placeholder() + ("\n\n    <Directory /var/www/html/"@ + doc_root_placeholder() + (">\n        Options Indexes FollowSymLinks\n        AllowOverride All\n        Require all granted\n    </Directory>\n\n    <FilesMatch \\.php$>\n        SetHandler \"proxy:unix:/run/php/php"@ + php_version_placeholder() + ("-fpm.sock|fcgi://localhost\"\n    </FilesMatch>\n\n    ErrorLog $"@ + open_escape() + ("APACHE_LOG_DIR"@ + close_escape() + ("/"@ + domain_placeholder() + ("-error.log\n    CustomLog $"@ + open_escape() + ("APACHE_LOG_DIR"@ + close_escape() + ("/"@ + domain_placeholder() + ("-access.log combined\n</VirtualHost>\n"@))))))))))));
}

/// The pieces of the virtual host template between its placeholders hold no
/// brace.
proof fn lemma_apache_pieces_brace_free()
    ensures
        brace_free("<VirtualHost *:80>\n    ServerName "@),
        brace_free("\n    ServerAlias www."@),
        brace_free("\n    DocumentRoot /var/www/html/"@),
        brace_free("\n\n    <Directory /var/www/html/"@),
        brace_free(">\n        Options Indexes FollowSymLinks\n        AllowOverride All\n        Require all granted\n    </Directory>\n\n    <FilesMatch \\.php$>\n        SetHandler \"proxy:unix:/run/php/php"@),
        brace_free("-fpm.sock|fcgi://localhost\"\n    </FilesMatch>\n\n    ErrorLog $"@),
        brace_free("APACHE_LOG_DIR"@),
        brace_free("/"@),
        brace_free("-error.log\n    CustomLog $"@),
        brace_free("-access.log combined\n</VirtualHost>\n"@),
{
    reveal_strlit("-access.log combined\n</VirtualHost>\n");
    reveal_strlit("-error.log\n    CustomLog $");
    reveal_strlit("-fpm.sock|fcgi://localhost\"\n    </FilesMatch>\n\n    ErrorLog $");
    reveal_strlit("/");
    reveal_strlit("<VirtualHost *:80>\n    ServerName ");
    reveal_strlit(">\n        Options Indexes FollowSymLinks\n        AllowOverride All\n        Require all granted\n    </Directory>\n\n    <FilesMatch \\.php$>\n        SetHandler \"proxy:unix:/run/php/php");
    reveal_strlit("APACHE_LOG_DIR");
    reveal_strlit("\n    DocumentRoot /var/www/html/");
    reveal_strlit("\n    ServerAlias www.");
    reveal_strlit("\n\n    <Directory /var/www/html/");
}

/// The log lines of the virtual host, cut at their braces.
proof fn lemma_apache_log_pieces()
    ensures
        "-fpm.sock|fcgi://localhost\"\n    </FilesMatch>\n\n    ErrorLog ${APACHE_LOG_DIR}/"@ == "-fpm.sock|fcgi://localhost\"\n    </FilesMatch>\n\n    ErrorLog $"@ + seq!['{'] + "APACHE_LOG_DIR"@ + seq!['}'] + "/"@,
        "-error.log\n    CustomLog ${APACHE_LOG_DIR}/"@ == "-error.log\n    CustomLog $"@ + seq!['{'] + "APACHE_LOG_DIR"@ + seq!['}'] + "/"@,
{
    reveal_strlit("-error.log\n    CustomLog $");
    reveal_strlit("-error.log\n    CustomLog ${APACHE_LOG_DIR}/");
    reveal_strlit("-fpm.sock|fcgi://localhost\"\n    </FilesMatch>\n\n    ErrorLog $");
    reveal_strlit("-fpm.sock|fcgi://localhost\"\n    </FilesMatch>\n\n    ErrorLog ${APACHE_LOG_DIR}/");
    reveal_strlit("/");
    reveal_strlit("APACHE_LOG_DIR");
    assert("-fpm.sock|fcgi://localhost\"\n    </FilesMatch>\n\n    ErrorLog ${APACHE_LOG_DIR}/"@ =~= "-fpm.sock|fcgi://localhost\"\n    </FilesMatch>\n\n    ErrorLog $"@ + seq!['{'] + "APACHE_LOG_DIR"@ + seq!['}'] + "/"@);
    assert("-error.log\n    CustomLog ${APACHE_LOG_DIR}/"@ =~= "-error.log\n    CustomLog $"@ + seq!['{'] + "APACHE_LOG_DIR"@ + seq!['}'] + "/"@);
}

/// The site's virtual host, cut where its values go in.
proof fn lemma_apache_conf_pieces(domain: Seq<char>, doc_root: Seq<char>, php_version: Seq<char>)
    ensures
        apache_conf(domain, doc_root, php_version) == "<VirtualHost *:80>\n    ServerName "@ + domain + ("\n    ServerAlias www."@ + domain + ("\n    DocumentRoot /var/www/html/"@ + doc_root + ("\n\n    <Directory /var/www/html/"@ + doc_root + (">\n        Options Indexes FollowSymLinks\n        AllowOverride All\n        Require all granted\n    </Directory>\n\n    <FilesMatch \\.php$>\n        SetHandler \"proxy:unix:/run/php/php"@ + php_version + ("-fpm.sock|fcgi://localhost\"\n    </FilesMatch>\n\n    ErrorLog $"@ + seq!['{'] + ("APACHE_LOG_DIR"@ + seq!['}'] + ("/"@ + domain + ("-error.log\n    CustomLog $"@ + seq!['{'] + ("APACHE_LOG_DIR"@ + seq!['}'] + ("/"@ + domain + ("-access.log combined\n</VirtualHost>\n"@))))))))))),
{
    lemma_apache_log_pieces();
    assert(apache_conf(domain, doc_root, php_version) =~= "<VirtualHost *:80>\n    ServerName "@ + domain + ("\n    ServerAlias www."@ + domain + ("\n    DocumentRoot /var/www/html/"@ + doc_root + ("\n\n    <Directory /var/www/html/"@ + doc_root + (">\n        Options Indexes FollowSymLinks\n        AllowOverride All\n        Require all granted\n    </Directory>\n\n    <FilesMatch \\.php$>\n        SetHandler \"proxy:unix:/run/php/php"@ + php_version + ("-fpm.sock|fcgi://localhost\"\n    </FilesMatch>\n\n    ErrorLog $"@ + seq!['{'] + ("APACHE_LOG_DIR"@ + seq!['}'] + ("/"@ + domain + ("-error.log\n    CustomLog $"@ + seq!['{'] + ("APACHE_LOG_DIR"@ + seq!['}'] + ("/"@ + domain + ("-access.log combined\n</VirtualHost>\n"@))))))))))));
}

/// The virtual host template renders as the site's virtual host: each
/// `{doc_root}` as the document root, each `{domain}` as the domain, the
/// `{php_version}` as the PHP version, and `{{`, `}}` as braces.
pub proof fn lemma_apache_conf_rendered(
    domain: Seq<char>,
    doc_root: Seq<char>,
    php_version: Seq<char>,
)
    ensures
        render(APACHE_CONF_TEMPLATE@, domain, doc_root, php_version) == apache_conf(
            domain,
            doc_root,
            php_version,
        ),
{
    lemma_apache_template_pieces();
    let q11: Seq<char> = "-access.log combined\n</VirtualHost>\n"@;
    let q10: Seq<char> = "/"@ + domain_placeholder() + q11;
    let q9: Seq<char> = "APACHE_LOG_DIR"@ + close_escape() + q10;
    let q8: Seq<char> = "-error.log\n    CustomLog $"@ + open_escape() + q9;
    let q7: Seq<char> = "/"@ + domain_placeholder() + q8;
    let q6: Seq<char> = "APACHE_LOG_DIR"@ + close_escape() + q7;
    let q5: Seq<char> = "-fpm.sock|fcgi://localhost\"\n    </FilesMatch>\n\n    ErrorLog $"@ + open_escape() + q6;
    let q4: Seq<char> = ">\n        Options Indexes FollowSymLinks\n        AllowOverride All\n        Require all granted\n    </Directory>\n\n    <FilesMatch \\.php$>\n        SetHandler \"proxy:unix:/run/php/php"@ + php_version_placeholder() + q5;
    let q3: Seq<char> = "\n\n    <Directory /var/www/html/"@ + doc_root_placeholder() + q4;
    let q2: Seq<char> = "\n    DocumentRoot /var/www/html/"@ + doc_root_placeholder() + q3;
    let q1: Seq<char> = "\n    ServerAlias www."@ + domain_placeholder() + q2;
    let q0: Seq<char> = "<VirtualHost *:80>\n    ServerName "@ + domain_placeholder() + q1;
    let r11: Seq<char> = "-access.log combined\n</VirtualHost>\n"@;
    assert(render(q11, domain, doc_root, php_version) == r11) by {
        lemma_apache_pieces_brace_free();
        lemma_render_brace_free(r11, domain, doc_root, php_version);
    }
    let r10: Seq<char> = "/"@ + domain + r11;
    assert(render(q10, domain, doc_root, php_version) == r10) by {
        lemma_apache_pieces_brace_free();
        lemma_render_placeholder("/"@, q11, domain, doc_root, php_version);
    }
    let r9: Seq<char> = "APACHE_LOG_DIR"@ + seq!['}'] + r10;
    assert(render(q9, domain, doc_root, php_version) == r9) by {
        lemma_apache_pieces_brace_free();
        lemma_render_placeholder("APACHE_LOG_DIR"@, q10, domain, doc_root, php_version);
    }
    let r8: Seq<char> = "-error.log\n    CustomLog $"@ + seq!['{'] + r9;
    assert(render(q8, domain, doc_root, php_version) == r8) by {
        lemma_apache_pieces_brace_free();
        lemma_render_placeholder("-error.log\n    CustomLog $"@, q9, domain, doc_root, php_version);
    }
    let r7: Seq<char> = "/"@ + domain + r8;
    assert(render(q7, domain, doc_root, php_version) == r7) by {
        lemma_apache_pieces_brace_free();
        lemma_render_placeholder("/"@, q8, domain, doc_root, php_version);
    }
    let r6: Seq<char> = "APACHE_LOG_DIR"@ + seq!['}'] + r7;
    assert(render(q6, domain, doc_root, php_version) == r6) by {
        lemma_apache_pieces_brace_free();
        lemma_render_placeholder("APACHE_LOG_DIR"@, q7, domain, doc_root, php_version);
    }
    let r5: Seq<char> = "-fpm.sock|fcgi://localhost\"\n    </FilesMatch>\n\n    ErrorLog $"@ + seq!['{'] + r6;
    assert(render(q5, domain, doc_root, php_version) == r5) by {
        lemma_apache_pieces_brace_free();
        lemma_render_placeholder("-fpm.sock|fcgi://localhost\"\n    </FilesMatch>\n\n    ErrorLog $"@, q6, domain, doc_root, php_version);
    }
    let r4: Seq<char> = ">\n        Options Indexes FollowSymLinks\n        AllowOverride All\n        Require all granted\n    </Directory>\n\n    <FilesMatch \\.php$>\n        SetHandler \"proxy:unix:/run/php/php"@ + php_version + r5;
    assert(render(q4, domain, doc_root, php_version) == r4) by {
        lemma_apache_pieces_brace_free();
        lemma_render_placeholder(">\n        Options Indexes FollowSymLinks\n        AllowOverride All\n        Require all granted\n    </Directory>\n\n    <FilesMatch \\.php$>\n        SetHandler \"proxy:unix:/run/php/php"@, q5, domain, doc_root, php_version);
    }
    let r3: Seq<char> = "\n\n    <Directory /var/www/html/"@ + doc_root + r4;
    assert(render(q3, domain, doc_root, php_version) == r3) by {
        lemma_apache_pieces_brace_free();
        lemma_render_placeholder("\n\n    <Directory /var/www/html/"@, q4, domain, doc_root, php_version);
    }
    let r2: Seq<char> = "\n    DocumentRoot /var/www/html/"@ + doc_root + r3;
    assert(render(q2, domain, doc_root, php_version) == r2) by {
        lemma_apache_pieces_brace_free();
        lemma_render_placeholder("\n    DocumentRoot /var/www/html/"@, q3, domain, doc_root, php_version);
    }
    let r1: Seq<char> = "\n    ServerAlias www."@ + domain + r2;
    assert(render(q1, domain, doc_root, php_version) == r1) by {
        lemma_apache_pieces_brace_free();
        lemma_render_placeholder("\n    ServerAlias www."@, q2, domain, doc_root, php_version);
    }
    let r0: Seq<char> = "<VirtualHost *:80>\n    ServerName "@ + domain + r1;
    assert(render(q0, domain, doc_root, php_version) == r0) by {
        lemma_apache_pieces_brace_free();
        lemma_render_placeholder("<VirtualHost *:80>\n    ServerName "@, q1, domain, doc_root, php_version);
    }
    lemma_apache_conf_pieces(domain, doc_root, php_version);
}

} // verus!
