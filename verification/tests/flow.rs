use devman::commands::{accept_existing_directory, directory_input_step, link_doc_root, DirectoryInput};
use devman::flow::{
    directory_base, new_site_start, new_site_step, remove_site_start, remove_site_step,
    restart_site_start, restart_site_step, NewSite, NewSiteStage, RemoveSiteStage,
    RestartSiteStage, StepEvent,
};

fn answer(s: &str) -> StepEvent {
    StepEvent::Answer(s.to_string())
}

fn answered(mut s: NewSite, answers: &[&str]) -> NewSite {
    for a in answers {
        s = new_site_step(s, answer(a));
    }
    s
}

fn run_to_end(mut s: NewSite) -> Vec<NewSiteStage> {
    let mut stages = vec![s.stage];
    while s.stage != NewSiteStage::Complete && s.stage != NewSiteStage::Aborted {
        s = new_site_step(s, StepEvent::Done);
        stages.push(s.stage);
    }
    stages
}

#[test]
fn new_site_without_wordpress_asks_doc_root_against_site_path() {
    let s = answered(new_site_start(), &["/srv/site", "n"]);
    assert_eq!(s.stage, NewSiteStage::DocRoot);
    assert_eq!(directory_base(&s), Some("/srv/site".to_string()));
    assert_eq!(s.doc_root, "/srv/site");
    let s = answered(s, &["/srv/site/public", "root", "pw", "8.2"]);
    assert_eq!(s.stage, NewSiteStage::Confirm);
    assert_eq!(s.doc_root, "/srv/site/public");
    assert_eq!(s.db_user, "root");
    assert_eq!(s.db_pass, "pw");
    assert_eq!(s.php_version, "8.2");
    let s = new_site_step(s, answer(""));
    assert_eq!(
        run_to_end(s),
        vec![
            NewSiteStage::CreateDatabase,
            NewSiteStage::WriteConfig,
            NewSiteStage::LinkConfig,
            NewSiteStage::LinkWebRoot,
            NewSiteStage::MapDns,
            NewSiteStage::RestartApache,
            NewSiteStage::Complete,
        ]
    );
}

#[test]
fn site_path_is_asked_against_the_working_directory() {
    let s = new_site_start();
    assert_eq!(s.stage, NewSiteStage::SitePath);
    assert_eq!(directory_base(&s), None);
}

#[test]
fn new_site_with_wordpress_skips_doc_root_and_installs_it() {
    let s = answered(new_site_start(), &["/srv/site", "Y", "root", "pw", "8.2", "y"]);
    assert!(s.is_wp);
    assert_eq!(s.doc_root, "/srv/site");
    assert_eq!(
        run_to_end(s),
        vec![
            NewSiteStage::CreateDatabase,
            NewSiteStage::SetupWordPress,
            NewSiteStage::WriteConfig,
            NewSiteStage::LinkConfig,
            NewSiteStage::LinkWebRoot,
            NewSiteStage::MapDns,
            NewSiteStage::RestartApache,
            NewSiteStage::Complete,
        ]
    );
}

#[test]
fn new_site_declined_does_nothing() {
    let s = answered(new_site_start(), &["/srv/site", "y", "root", "pw", "8.2", "N"]);
    assert_eq!(s.stage, NewSiteStage::Aborted);
    let s = new_site_step(s, StepEvent::Done);
    assert_eq!(s.stage, NewSiteStage::Aborted);
}

#[test]
fn events_that_do_not_fit_change_nothing() {
    let s = new_site_step(new_site_start(), StepEvent::Done);
    assert_eq!(s.stage, NewSiteStage::SitePath);
    let s = answered(new_site_start(), &["/srv/site", "y", "u", "p", "8.2", ""]);
    assert_eq!(s.stage, NewSiteStage::CreateDatabase);
    let s = new_site_step(s, answer("ignored"));
    assert_eq!(s.stage, NewSiteStage::CreateDatabase);
}

#[test]
fn relative_doc_root_is_served_under_the_domain() {
    let site = "/srv/site";
    let candidate = match directory_input_step("public/", site, true) {
        DirectoryInput::CheckExists(p) => p,
        DirectoryInput::Accept(_) => panic!("expected a path to check"),
    };
    assert_eq!(candidate, "/srv/site/public/");
    let doc_root = accept_existing_directory(&candidate, true).unwrap();
    assert_eq!(doc_root, "/srv/site/public");
    assert_eq!(link_doc_root("site.local", site, &doc_root), "site.local/public");
}

#[test]
fn remove_site_runs_every_step_when_confirmed() {
    let mut s = remove_site_start();
    let mut stages = vec![s.stage];
    let events = [answer("Y"), StepEvent::Done, StepEvent::Done, answer("y"), answer("secret"), StepEvent::Done, StepEvent::Done];
    for e in events {
        s = remove_site_step(s, e);
        stages.push(s.stage);
    }
    assert_eq!(
        stages,
        vec![
            RemoveSiteStage::Confirm,
            RemoveSiteStage::UpdateHosts,
            RemoveSiteStage::RemoveFiles,
            RemoveSiteStage::ConfirmDatabase,
            RemoveSiteStage::DbPass,
            RemoveSiteStage::DropDatabase,
            RemoveSiteStage::RestartApache,
            RemoveSiteStage::Finished,
        ]
    );
    assert_eq!(s.db_pass, "secret");
}

#[test]
fn remove_site_declines() {
    let s = remove_site_step(remove_site_start(), answer(""));
    assert_eq!(s.stage, RemoveSiteStage::Finished);
    let mut s = remove_site_step(remove_site_start(), answer("y"));
    s = remove_site_step(s, StepEvent::Done);
    s = remove_site_step(s, StepEvent::Done);
    s = remove_site_step(s, answer("n"));
    // Keeping the database ends the removal without restarting Apache.
    assert_eq!(s.stage, RemoveSiteStage::Finished);
}

#[test]
fn restart_site_restarts_php_then_apache() {
    let s = restart_site_step(restart_site_start(), answer("php8.2-fpm"));
    assert_eq!(s.stage, RestartSiteStage::RestartPhp);
    assert_eq!(s.php_service, "php8.2-fpm");
    let s = restart_site_step(s, StepEvent::Done);
    assert_eq!(s.stage, RestartSiteStage::RestartApache);
    let s = restart_site_step(s, StepEvent::Done);
    assert_eq!(s.stage, RestartSiteStage::Finished);
}

#[test]
fn restart_site_without_php_still_restarts_apache() {
    let s = restart_site_step(restart_site_start(), StepEvent::Done);
    assert_eq!(s.stage, RestartSiteStage::RestartApache);
}
