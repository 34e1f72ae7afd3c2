use devman::commands::{
    find_site_php_version, php_fpm_lookup_outcome, plan_new_site, plan_remove_site, removal_targets, restart_apache,
    restart_outcome, restart_service, site_paths, slugify, PhpFpmLookup,
};
use devman::db::{
    create_database_statement, dsn, drop_database_statement, get_default_config, DbDriver,
};
use devman::template::{get_apache_config_template, get_wp_htaccess_template, render_template};
use devman::user::get_user;

#[test]
fn slugify_replaces_non_word_characters() {
    assert_eq!(slugify("my-site.local"), "my_site_local");
    assert_eq!(slugify("already_fine_09"), "already_fine_09");
    assert_eq!(slugify("café.dev"), "caf__dev");
    assert_eq!(slugify(""), "");
}

#[test]
fn slugify_is_idempotent() {
    for s in ["a.b-c", "x", "ü.ö", ""] {
        let once = slugify(s);
        assert_eq!(slugify(&once), once);
        assert_eq!(once.chars().count(), s.chars().count());
    }
}

#[test]
fn site_paths_follow_apache_layout() {
    let p = site_paths("site.local");
    assert_eq!(p.conf_path, "/etc/apache2/sites-available/site.local.conf");
    assert_eq!(p.enabled_conf_path, "/etc/apache2/sites-enabled/site.local.conf");
    assert_eq!(p.www_path, "/var/www/html/site.local");
}

#[test]
fn removal_deletes_what_setup_creates() {
    let p = site_paths("site.local");
    let targets = removal_targets("site.local");
    assert_eq!(targets, vec![p.www_path.clone(), p.enabled_conf_path.clone(), p.conf_path.clone()]);
    let plan = plan_remove_site("site.local");
    assert_eq!(plan.targets, targets);
    let new_plan = plan_new_site("site.local", "/srv/site", "/srv/site/public", "8.2");
    assert_eq!(plan.db_name, new_plan.db_name);
}

#[test]
fn new_site_plan_derives_everything_from_answers() {
    let plan = plan_new_site("site.local", "/srv/site", "/srv/site/public", "8.2");
    assert_eq!(plan.db_name, "site_local");
    assert_eq!(plan.link_doc_root, "site.local/public");
    assert_eq!(plan.dns_entry, "127.0.0.1 site.local");
    assert_eq!(plan.paths.conf_path, "/etc/apache2/sites-available/site.local.conf");
    assert_eq!(
        plan.apache_conf,
        get_apache_config_template("site.local", "site.local/public", "8.2")
    );
}

#[test]
fn template_placeholders_and_escapes() {
    assert_eq!(
        render_template("{domain}|{doc_root}|{php_version}", "d", "r", "8.1"),
        "d|r|8.1"
    );
    assert_eq!(render_template("{{x}} ${{A}}", "d", "r", "p"), "{x} ${A}");
    assert_eq!(render_template("{other} {domain", "d", "r", "p"), "{other} {domain");
    assert_eq!(render_template("plain text", "d", "r", "p"), "plain text");
    assert_eq!(render_template("", "d", "r", "p"), "");
}

#[test]
fn template_matches_format_semantics() {
    let t = "a{{b}}c{domain}{doc_root}{php_version}";
    let expected = format!(
        "a{{b}}c{domain}{doc_root}{php_version}",
        domain = "D",
        doc_root = "R",
        php_version = "P"
    );
    assert_eq!(render_template(t, "D", "R", "P"), expected);
}

#[test]
fn apache_config_names_the_site() {
    let conf = get_apache_config_template("site.local", "site.local/public", "8.2");
    assert!(conf.contains("ServerName site.local\n"));
    assert!(conf.contains("DocumentRoot /var/www/html/site.local/public\n"));
    assert!(conf.contains("php8.2-fpm"));
    assert!(conf.contains("${APACHE_LOG_DIR}/site.local-error.log"));
    assert!(!conf.contains("{domain}"));
}

#[test]
fn configured_php_version_is_found_again() {
    let conf = get_apache_config_template("site.local", "site.local", "8.3");
    let lines: Vec<String> = conf.lines().map(|l| l.to_string()).collect();
    match find_site_php_version(&lines, true) {
        PhpFpmLookup::Found(s) => assert_eq!(s, "php8.3-fpm"),
        _ => panic!("expected the PHP-FPM service"),
    }
}

#[test]
fn php_fpm_lookup_outcomes() {
    let lines = vec!["<VirtualHost *:80>".to_string(), "ServerName x".to_string()];
    assert!(matches!(find_site_php_version(&lines, true), PhpFpmLookup::NotFound));
    assert!(matches!(find_site_php_version(&lines, false), PhpFpmLookup::Unreadable));
    let lines = vec![
        "no service".to_string(),
        "SetHandler proxy:unix:/run/php/php7.4.33-fpm.sock".to_string(),
        "php8.1-fpm".to_string(),
    ];
    match find_site_php_version(&lines, false) {
        PhpFpmLookup::Found(s) => assert_eq!(s, "php7.4.33-fpm"),
        _ => panic!("expected the first service"),
    }
    assert!(matches!(find_site_php_version(&Vec::new(), true), PhpFpmLookup::NotFound));
}

#[test]
fn htaccess_is_wordpress_rewrite_block() {
    let h = get_wp_htaccess_template();
    assert!(h.starts_with("# BEGIN WordPress\n"));
    assert!(h.contains("RewriteRule . /index.php [L]\n"));
    assert!(h.ends_with("# END WordPress\n"));
}

#[test]
fn default_database_is_local_mysql_as_root() {
    let c = get_default_config("secret");
    assert!(matches!(c.driver, DbDriver::Mysql));
    assert_eq!(c.host, "127.0.0.1");
    assert_eq!(c.port, 3306);
    assert_eq!(c.user, "root");
    assert_eq!(c.pass, "secret");
    assert_eq!(dsn(&c), "root:secret@tcp(127.0.0.1:3306)/");
}

#[test]
fn dsn_prints_any_port_in_decimal() {
    for port in [0u16, 7, 10, 99, 100, 5432, 65535] {
        let mut c = get_default_config("p");
        c.port = port;
        assert_eq!(dsn(&c), format!("root:p@tcp(127.0.0.1:{})/", port));
    }
}

#[test]
fn database_statements() {
    assert_eq!(create_database_statement("site_local"), "CREATE DATABASE site_local");
    assert_eq!(drop_database_statement("site_local"), "DROP DATABASE site_local");
}

#[test]
fn restart_commands() {
    let c = restart_service("php8.2-fpm");
    assert_eq!(c.program, "service");
    assert_eq!(c.args, vec!["php8.2-fpm".to_string(), "restart".to_string()]);
    let a = restart_apache();
    assert_eq!(a.program, "service");
    assert_eq!(a.args, vec!["apache2".to_string(), "restart".to_string()]);
}

#[test]
fn restart_outcome_reports_failed_status() {
    assert_eq!(restart_outcome(true, "exit status: 0"), Ok(()));
    assert_eq!(
        restart_outcome(false, "exit status: 1"),
        Err("Failed to restart service: exit status: 1".to_string())
    );
}

#[test]
fn user_holds_its_ids() {
    let u = get_user("alice".to_string(), 1000, 100);
    assert_eq!(u.name, "alice");
    assert_eq!(u.uid, 1000);
    assert_eq!(u.gid, 100);
}

#[test]
fn php_fpm_outcome_takes_first_line_found() {
    let found = vec![None, Some("php8.1-fpm".to_string()), Some("php7.4-fpm".to_string())];
    match php_fpm_lookup_outcome(found, false) {
        PhpFpmLookup::Found(s) => assert_eq!(s, "php8.1-fpm"),
        _ => panic!("expected the first service found"),
    }
    assert!(matches!(php_fpm_lookup_outcome(vec![None, None], true), PhpFpmLookup::NotFound));
    assert!(matches!(php_fpm_lookup_outcome(vec![None], false), PhpFpmLookup::Unreadable));
    assert!(matches!(php_fpm_lookup_outcome(Vec::new(), true), PhpFpmLookup::NotFound));
}
