use devman::answers::{is_no, is_yes, php_version_is_valid, prompt_for_wordpress_install};
use devman::cli::{plan_actions, plan_cli, validate_site_domain, verbosity_from_count, CliAction};
use devman::commands::get_verbose_conditional_print;

#[test]
fn yes_and_no_answers_ignore_case() {
    assert!(is_yes("y"));
    assert!(is_yes("Y"));
    assert!(!is_yes("yes"));
    assert!(!is_yes(""));
    assert!(is_no("n"));
    assert!(is_no("N"));
    assert!(!is_no("no"));
    assert!(!is_no("y"));
}

#[test]
fn answers_match_lowercase_comparison() {
    for a in ["y", "Y", "n", "N", "", "yy", "ÿ", "Ý", "no", " y"] {
        assert_eq!(is_yes(a), a.to_lowercase() == "y");
        assert_eq!(is_no(a), a.to_lowercase() == "n");
    }
}

#[test]
fn wordpress_install_defaults_to_no() {
    assert!(prompt_for_wordpress_install("Y"));
    assert!(!prompt_for_wordpress_install(""));
    assert!(!prompt_for_wordpress_install("n"));
}

#[test]
fn php_versions_need_a_point() {
    assert!(php_version_is_valid("8.2"));
    assert!(php_version_is_valid("7.4"));
    assert!(!php_version_is_valid("8"));
    assert!(!php_version_is_valid(""));
    assert!(!php_version_is_valid("."));
    assert!(!php_version_is_valid("8.x"));
    assert!(!php_version_is_valid("8.2.1"));
    assert!(!php_version_is_valid(" 8.2"));
}

#[test]
fn php_version_check_agrees_with_float_parsing() {
    let cases = [
        "8.2", "8", ".5", "5.", "+8.1", "-8.1", "8.1e3", "8.1E+3", "8.1e-3", "8.1e", "8.1e+",
        "e8.1", "inf", "inf.", "NaN", "1.2.3", "..", "+.", "+.5", "1_000.0", "٣.٤", "8.2 ",
        "0.0", "00.00e00", "-", "+", "1e5", "1.e5", ".e5", "8,2",
    ];
    for c in cases {
        let expected = c.contains('.') && c.parse::<f64>().is_ok();
        assert_eq!(php_version_is_valid(c), expected, "for {:?}", c);
    }
}

#[test]
fn verbosity_is_capped_at_two() {
    assert_eq!(verbosity_from_count(0), 0);
    assert_eq!(verbosity_from_count(1), 1);
    assert_eq!(verbosity_from_count(2), 2);
    assert_eq!(verbosity_from_count(3), 2);
    assert_eq!(verbosity_from_count(255), 2);
}

#[test]
fn messages_show_up_to_the_verbosity() {
    let v = get_verbose_conditional_print(1);
    assert!(v.allows(0));
    assert!(v.allows(1));
    assert!(!v.allows(2));
}

#[test]
fn valid_domains_are_accepted() {
    assert_eq!(validate_site_domain("example.com"), Ok(()));
    assert_eq!(validate_site_domain("www.example.co.uk"), Ok(()));
}

#[test]
fn invalid_domains_are_refused_with_the_reason() {
    assert_eq!(
        validate_site_domain("bad domain"),
        Err("'bad domain' contains an illegal character".to_string())
    );
    assert_eq!(
        validate_site_domain("a..com"),
        Err("'a..com' contains an empty label".to_string())
    );
    assert!(validate_site_domain("").is_err());
    assert!(validate_site_domain("-x.com").is_err());
}

fn kinds(plan: &[CliAction]) -> Vec<(u8, String)> {
    plan.iter()
        .map(|a| match a {
            CliAction::NewSite(d) => (0, d.clone()),
            CliAction::RejectDomain(m) => (1, m.clone()),
            CliAction::RemoveSite(d) => (2, d.clone()),
            CliAction::RestartSite(d) => (3, d.clone()),
        })
        .collect()
}

#[test]
fn commands_run_new_then_remove_then_restart() {
    let plan = plan_cli(
        Some("new.com".to_string()),
        Some("old.com".to_string()),
        Some("other.com".to_string()),
    );
    assert_eq!(
        kinds(&plan),
        vec![
            (0, "new.com".to_string()),
            (2, "old.com".to_string()),
            (3, "other.com".to_string())
        ]
    );
    assert!(kinds(&plan_cli(None, None, None)).is_empty());
    assert_eq!(
        kinds(&plan_cli(None, None, Some("x.com".to_string()))),
        vec![(3, "x.com".to_string())]
    );
}

#[test]
fn refused_new_domain_stops_everything() {
    let plan = plan_cli(Some("bad domain".to_string()), Some("old.com".to_string()), None);
    assert_eq!(
        kinds(&plan),
        vec![(1, "'bad domain' contains an illegal character".to_string())]
    );
}

#[test]
fn only_y_and_n_lowercase_to_single_letters() {
    for code in 0..=0x10FFFFu32 {
        if let Some(c) = char::from_u32(code) {
            let lower: String = c.to_lowercase().collect();
            let s = c.to_string();
            assert_eq!(is_yes(&s), lower == "y", "{:?}", c);
            assert_eq!(is_no(&s), lower == "n", "{:?}", c);
        }
    }
}

#[test]
fn plan_from_a_domain_check_result() {
    let s = |x: &str| Some(x.to_string());
    assert_eq!(
        kinds(&plan_actions(s("a.com"), s("bad"), s("b.com"), s("c.com"))),
        vec![(1, "bad".to_string())]
    );
    assert_eq!(
        kinds(&plan_actions(s("a.com"), None, s("b.com"), s("c.com"))),
        vec![(0, "a.com".to_string()), (2, "b.com".to_string()), (3, "c.com".to_string())]
    );
    // Without a new site, a refusal has nothing to refuse.
    assert_eq!(
        kinds(&plan_actions(None, s("ignored"), s("b.com"), None)),
        vec![(2, "b.com".to_string())]
    );
}
