use devman::commands::{
    accept_existing_directory, directory_input_step, link_doc_root, normalize_path, DirectoryInput,
};
use devman::hosts::{dns_entry, hosts_entry_to_append, hosts_without_entry};

#[test]
fn normalize_path_trims_trailing_slashes() {
    assert_eq!(normalize_path("/var/www/site///"), "/var/www/site");
    assert_eq!(normalize_path("/var/www/site"), "/var/www/site");
    assert_eq!(normalize_path("/"), "");
    assert_eq!(normalize_path(""), "");
    assert_eq!(normalize_path("a/b/"), "a/b");
}

#[test]
fn normalize_path_is_idempotent() {
    for p in ["/x//", "/", "", "a/b/c/", "//"] {
        let once = normalize_path(p);
        assert_eq!(normalize_path(once), once);
    }
}

#[test]
fn empty_directory_answer_takes_working_directory() {
    match directory_input_step("", "/home/me/site/", true) {
        DirectoryInput::Accept(p) => assert_eq!(p, "/home/me/site"),
        DirectoryInput::CheckExists(_) => panic!("expected the working directory"),
    }
}

#[test]
fn empty_answer_outside_a_directory_is_checked() {
    match directory_input_step("", "/gone", false) {
        DirectoryInput::CheckExists(p) => assert_eq!(p, "/gone/"),
        DirectoryInput::Accept(_) => panic!("expected a path to check"),
    }
}

#[test]
fn relative_directory_answer_joins_working_directory() {
    match directory_input_step("public", "/home/me/site", true) {
        DirectoryInput::CheckExists(p) => assert_eq!(p, "/home/me/site/public"),
        DirectoryInput::Accept(_) => panic!("expected a path to check"),
    }
}

#[test]
fn absolute_directory_answer_is_kept() {
    match directory_input_step("/srv/site/", "/home/me", true) {
        DirectoryInput::CheckExists(p) => assert_eq!(p, "/srv/site/"),
        DirectoryInput::Accept(_) => panic!("expected a path to check"),
    }
}

#[test]
fn existing_directory_is_accepted_trimmed() {
    assert_eq!(accept_existing_directory("/srv/site/", true), Some("/srv/site".to_string()));
    assert_eq!(accept_existing_directory("/srv/site/", false), None);
}

#[test]
fn link_doc_root_keeps_path_after_site() {
    assert_eq!(
        link_doc_root("site.local", "/path/to/site", "/path/to/site/public"),
        "site.local/public"
    );
    assert_eq!(link_doc_root("site.local", "/path/to/site", "/path/to/site"), "site.local");
    assert_eq!(link_doc_root("site.local", "/elsewhere", "/path/to/site/public"), "site.local");
    // The first occurrence decides.
    assert_eq!(link_doc_root("s", "/a", "/a/b/a/c"), "s/b/a/c");
}

#[test]
fn link_doc_root_with_empty_site_path_keeps_whole_doc_root() {
    assert_eq!(link_doc_root("s", "", "/x/y"), "s/x/y");
}

#[test]
fn dns_entry_maps_domain_to_loopback() {
    assert_eq!(dns_entry("site.local"), "127.0.0.1 site.local");
}

#[test]
fn hosts_entry_is_appended_only_when_missing() {
    let content = "127.0.0.1 localhost\n";
    assert_eq!(
        hosts_entry_to_append(content, "site.local"),
        Some("127.0.0.1 site.local".to_string())
    );
    let with_entry = "127.0.0.1 localhost\n127.0.0.1 site.local\n";
    assert_eq!(hosts_entry_to_append(with_entry, "site.local"), None);
    // A longer domain holding the entry as a prefix counts as present.
    assert_eq!(hosts_entry_to_append("127.0.0.1 site.localhost", "site.local"), None);
}

#[test]
fn hosts_entry_removal_deletes_every_occurrence() {
    let content = "127.0.0.1 localhost\n127.0.0.1 site.local\n::1 x\n127.0.0.1 site.local";
    assert_eq!(hosts_without_entry(content, "site.local"), "127.0.0.1 localhost\n\n::1 x\n");
    assert_eq!(hosts_without_entry("nothing here\n", "site.local"), "nothing here\n");
}

#[test]
fn removing_undoes_adding_a_hosts_entry() {
    for content in ["", "127.0.0.1 localhost\n", "# hosts\n127.0.0.1 other.local\n"] {
        let mut added = content.to_string();
        if let Some(e) = hosts_entry_to_append(content, "site1") {
            added.push_str(&e);
        }
        assert!(added.contains("127.0.0.1 site1"));
        assert_eq!(hosts_without_entry(&added, "site1"), hosts_without_entry(content, "site1"));
        // Adding again changes nothing.
        assert_eq!(hosts_entry_to_append(&added, "site1"), None);
    }
}

#[test]
fn removal_after_adding_without_final_line_break_can_differ() {
    // The file does not end with a line break and ends with a prefix of the entry.
    let content = "127.0.0.1 site";
    let mut added = content.to_string();
    added.push_str(&hosts_entry_to_append(content, "site1").unwrap());
    assert_eq!(added, "127.0.0.1 site127.0.0.1 site1");
    assert_ne!(hosts_without_entry(&added, "site1"), content);
}

#[test]
fn directory_answers_are_absolute_under_an_absolute_cwd() {
    for (input, cwd) in [("", "/home/me"), ("sub/dir/", "/home/me"), ("/srv/x//", "/home")] {
        let candidate = match directory_input_step(input, cwd, false) {
            DirectoryInput::CheckExists(p) => p,
            DirectoryInput::Accept(p) => p,
        };
        assert!(candidate.starts_with('/'));
        let accepted = accept_existing_directory(&candidate, true).unwrap();
        assert!(accepted.starts_with('/'));
    }
    // The root directory itself is accepted as the empty path.
    match directory_input_step("", "/", true) {
        DirectoryInput::Accept(p) => assert_eq!(p, ""),
        DirectoryInput::CheckExists(_) => panic!("expected the working directory"),
    }
}
