use devman::wordpress::{
    archive_entry_target, htaccess_path, wp_config_contents, wp_config_path,
    wp_config_sample_path, WORDPRESS_ARCHIVE_PATH, WORDPRESS_ARCHIVE_URL,
};
use std::path::{Component, Path};

#[test]
fn wp_config_fills_in_database() {
    let sample = "define('DB_NAME', 'database_name_here');\n\
                  define('DB_USER', 'username_here');\n\
                  define('DB_PASSWORD', 'password_here');\n\
                  define('DB_HOST', 'localhost');\n";
    let expected = "define('DB_NAME', 'site_local');\n\
                    define('DB_USER', 'admin');\n\
                    define('DB_PASSWORD', 'pw');\n\
                    define('DB_HOST', '127.0.0.1');\n";
    assert_eq!(wp_config_contents(sample, "site_local", "admin", "pw"), expected);
}

#[test]
fn wp_config_replacements_apply_in_order() {
    // A user name that spells a later placeholder is filled in by it too.
    assert_eq!(wp_config_contents("username_here", "d", "password_here", "p"), "p");
    // An earlier value is not touched by an earlier step.
    assert_eq!(wp_config_contents("database_name_here", "localhost", "u", "p"), "localhost");
}

#[test]
fn site_file_paths() {
    assert_eq!(htaccess_path("/srv/site"), "/srv/site/.htaccess");
    assert_eq!(wp_config_sample_path("/srv/site"), "/srv/site/wp-config-sample.php");
    assert_eq!(wp_config_path("/srv/site"), "/srv/site/wp-config.php");
    assert_eq!(WORDPRESS_ARCHIVE_URL, "https://wordpress.org/latest.tar.gz");
    assert_eq!(WORDPRESS_ARCHIVE_PATH, "/etc/latest.tar.gz");
}

#[test]
fn archive_entries_move_under_the_site() {
    assert_eq!(archive_entry_target("/srv/site", "wordpress/"), None);
    assert_eq!(archive_entry_target("/srv/site", "wordpress"), None);
    assert_eq!(
        archive_entry_target("/srv/site", "wordpress/wp-admin/index.php"),
        Some("/srv/site/wp-admin/index.php".to_string())
    );
    assert_eq!(
        archive_entry_target("/srv/site", "other/file"),
        Some("/srv/site/other/file".to_string())
    );
    // A site path at the root keeps its separator.
    assert_eq!(archive_entry_target("", "wordpress/a"), Some("/a".to_string()));
}

#[test]
fn archive_entries_never_leave_the_site() {
    for e in [
        "/abs/file", "/etc/cron.d/x", "wordpress/../../x", "wordpress/..", "wordpress/a/../..",
        "../x", "a/../../b", "wordpress/./..", "..", "wordpress/a/./../../b",
    ] {
        assert_eq!(archive_entry_target("/srv/site", e), None, "{:?}", e);
    }
}

#[test]
fn archive_entries_with_parent_components_inside_the_site_are_kept() {
    assert_eq!(
        archive_entry_target("/srv/site", "wordpress/a/../b"),
        Some("/srv/site/a/../b".to_string())
    );
    assert_eq!(archive_entry_target("/srv/site", "x/../y"), Some("/srv/site/x/../y".to_string()));
    assert_eq!(archive_entry_target("/srv/site", "wordpress/a/.."), Some("/srv/site/a/..".to_string()));
    // `..` only counts as a whole component.
    assert_eq!(
        archive_entry_target("/srv/site", "wordpress/a..b/..c"),
        Some("/srv/site/a..b/..c".to_string())
    );
}

/// Whether the part of `entry` placed under the site path climbs above it.
fn climbs_above_site(entry: &str) -> bool {
    let path = Path::new(entry);
    let placed = path.strip_prefix(Path::new("wordpress")).unwrap_or(path);
    let mut depth: i32 = 0;
    for c in placed.components() {
        match c {
            Component::ParentDir => depth -= 1,
            Component::Normal(_) => depth += 1,
            _ => {}
        }
        if depth < 0 {
            return true;
        }
    }
    false
}

/// The destination as `std::path` computes it.
fn std_target(site: &str, entry: &str) -> Option<String> {
    let path = Path::new(entry);
    let stripped = match path.strip_prefix(Path::new("wordpress")) {
        Ok(p) => {
            if p.as_os_str().is_empty() {
                return None;
            }
            p
        }
        Err(_) => path,
    };
    Some(Path::new(site).join(stripped).to_str().unwrap().to_string())
}

#[test]
fn archive_entries_inside_the_site_agree_with_std_paths() {
    let entries = [
        "wordpress", "wordpress/", "wordpress//", "wordpress/.", "wordpress/./", "wordpress/a",
        "wordpress/a/", "wordpress//a//b", "wordpress/./a", "wordpress/a/.", "wordpress/a/./",
        "wordpress/a/../b", "wordpress/a/b/../../c", "x/../y", "x/../../y", "wordpress/a/..",
        "wordpress/a/b/c.php", "wordpress/..", "wordpress/../x", "wordpressx/a", "./wordpress/a",
        "/wordpress/a", "other", "a/wordpress/b", "wordpress/.htaccess", "wordpress/a/..",
        ".", "", "x/", "wordpress/.hidden/", "wordpress/...", "wordpress/..x",
    ];
    for site in ["/srv/site", "rel"] {
        for e in entries {
            let leaves = e.starts_with('/') || climbs_above_site(e);
            let expected = if leaves { None } else { std_target(site, e) };
            assert_eq!(archive_entry_target(site, e), expected, "{:?} {:?}", site, e);
            if let Some(t) = archive_entry_target(site, e) {
                assert!(t.starts_with(&format!("{}/", site)));
            }
        }
    }
}
