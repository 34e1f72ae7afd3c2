//! The order of the steps of setting up, removing and restarting a site: each
//! command is a state machine whose step takes the outcome of what the
//! current stage asked for (an answer, or the end of a side effect) and gives
//! the next state, whose stage says what to do next.
use vstd::prelude::*;
use crate::answers::{is_answer, is_no, is_yes, prompt_for_wordpress_install};

verus! {

/// What happened at the current stage: the answer to what it asked, or the end
/// of the side effect it called for (whose failures are reported, not acted on).
pub enum StepEvent {
    Answer(String),
    Done,
}

/// The answer an event carries, if it carries one.
pub open spec fn event_view(e: StepEvent) -> Option<Seq<char>> {
    match e {
        StepEvent::Answer(a) => Some(a@),
        StepEvent::Done => None,
    }
}

/// The stages of setting up a site, in the order they are reached.
#[derive(Clone, Copy, PartialEq, Eq, Structural, Debug)]
pub enum NewSiteStage {
    /// Ask for the site path, relative to the working directory.
    SitePath,
    /// Ask whether to install WordPress.
    InstallWordPress,
    /// Ask for the document root, relative to the site path.
    DocRoot,
    /// Ask for the database user.
    DbUser,
    /// Ask for the database password.
    DbPass,
    /// Ask for the PHP version.
    PhpVersion,
    /// Show what will be done and ask for confirmation.
    Confirm,
    /// Create the database.
    CreateDatabase,
    /// Install WordPress into the site path.
    SetupWordPress,
    /// Write the virtual host, unless it exists.
    WriteConfig,
    /// Link the virtual host into the enabled sites, unless the link exists.
    LinkConfig,
    /// Link the site path into the web root, unless the link exists.
    LinkWebRoot,
    /// Map the domain in the hosts file, unless it is mapped.
    MapDns,
    /// Restart Apache.
    RestartApache,
    /// The site is set up.
    Complete,
    /// Setting up was declined at the confirmation; nothing was done.
    Aborted,
}

/// Setting up a site: the stage reached and the answers given so far.
pub struct NewSite {
    pub stage: NewSiteStage,
    pub site_path: String,
    pub is_wp: bool,
    pub doc_root: String,
    pub db_user: String,
    pub db_pass: String,
    pub php_version: String,
}

/// The view of a site being set up.
pub ghost struct NewSiteView {
    pub stage: NewSiteStage,
    pub site_path: Seq<char>,
    pub is_wp: bool,
    pub doc_root: Seq<char>,
    pub db_user: Seq<char>,
    pub db_pass: Seq<char>,
    pub php_version: Seq<char>,
}

impl View for NewSite {
    type V = NewSiteView;

    open spec fn view(&self) -> NewSiteView {
        NewSiteView {
            stage: self.stage,
            site_path: self.site_path@,
            is_wp: self.is_wp,
            doc_root: self.doc_root@,
            db_user: self.db_user@,
            db_pass: self.db_pass@,
            php_version: self.php_version@,
        }
    }
}

/// `s` at stage `stage`.
pub open spec fn at_stage(s: NewSiteView, stage: NewSiteStage) -> NewSiteView {
    NewSiteView { stage, ..s }
}

/// The next state of setting up a site. An event that does not fit the stage
/// (an answer where a side effect was called for, or the reverse) changes
/// nothing, and so does any event once the command is over.
pub open spec fn new_site_next(s: NewSiteView, e: Option<Seq<char>>) -> NewSiteView {
    match (s.stage, e) {
        (NewSiteStage::SitePath, Some(a)) => NewSiteView {
            stage: NewSiteStage::InstallWordPress,
            site_path: a,
            ..s
        },
        (NewSiteStage::InstallWordPress, Some(a)) => {
            let wp = is_answer(a, 'y', 'Y');
            NewSiteView {
                stage: if wp {
                    NewSiteStage::DbUser
                } else {
                    NewSiteStage::DocRoot
                },
                is_wp: wp,
                doc_root: s.site_path,
                ..s
            }
        },
        (NewSiteStage::DocRoot, Some(a)) => NewSiteView {
            stage: NewSiteStage::DbUser,
            doc_root: a,
            ..s
        },
        (NewSiteStage::DbUser, Some(a)) => NewSiteView {
            stage: NewSiteStage::DbPass,
            db_user: a,
            ..s
        },
        (NewSiteStage::DbPass, Some(a)) => NewSiteView {
            stage: NewSiteStage::PhpVersion,
            db_pass: a,
            ..s
        },
        (NewSiteStage::PhpVersion, Some(a)) => NewSiteView {
            stage: NewSiteStage::Confirm,
            php_version: a,
            ..s
        },
        (NewSiteStage::Confirm, Some(a)) => at_stage(
            s,
            if is_answer(a, 'n', 'N') {
                NewSiteStage::Aborted
            } else {
                NewSiteStage::CreateDatabase
            },
        ),
        (NewSiteStage::CreateDatabase, None) => at_stage(
            s,
            if s.is_wp {
                NewSiteStage::SetupWordPress
            } else {
                NewSiteStage::WriteConfig
            },
        ),
        (NewSiteStage::SetupWordPress, None) => at_stage(s, NewSiteStage::WriteConfig),
        (NewSiteStage::WriteConfig, None) => at_stage(s, NewSiteStage::LinkConfig),
        (NewSiteStage::LinkConfig, None) => at_stage(s, NewSiteStage::LinkWebRoot),
        (NewSiteStage::LinkWebRoot, None) => at_stage(s, NewSiteStage::MapDns),
        (NewSiteStage::MapDns, None) => at_stage(s, NewSiteStage::RestartApache),
        (NewSiteStage::RestartApache, None) => at_stage(s, NewSiteStage::Complete),
        _ => s,
    }
}

/// Setting up a site, before anything is asked.
pub fn new_site_start() -> (r: NewSite)
    ensures
        r.stage == NewSiteStage::SitePath,
        r@.site_path.len() == 0 && r@.doc_root.len() == 0 && r@.db_user.len() == 0,
        r@.db_pass.len() == 0 && r@.php_version.len() == 0 && !r.is_wp,
{
    NewSite {
        stage: NewSiteStage::SitePath,
        site_path: String::new(),
        is_wp: false,
        doc_root: String::new(),
        db_user: String::new(),
        db_pass: String::new(),
        php_version: String::new(),
    }
}

/// The path a directory answer at this stage is resolved against: the working
/// directory (`None`) for the site path, the site path for the document root.
pub fn directory_base(s: &NewSite) -> (r: Option<String>)
    ensures
        s.stage == NewSiteStage::DocRoot ==> (r matches Some(b) && b@ == s.site_path@),
        s.stage != NewSiteStage::DocRoot ==> r is None,
{
    match s.stage {
        NewSiteStage::DocRoot => Some(s.site_path.clone()),
        _ => None,
    }
}

/// One step of setting up a site.
pub fn new_site_step(s: NewSite, e: StepEvent) -> (r: NewSite)
    ensures
        r@ == new_site_next(s@, event_view(e)),
{
    let mut s = s;
    match (s.stage, e) {
        (NewSiteStage::SitePath, StepEvent::Answer(a)) => {
            s.site_path = a;
            s.stage = NewSiteStage::InstallWordPress;
        },
        (NewSiteStage::InstallWordPress, StepEvent::Answer(a)) => {
            let wp = prompt_for_wordpress_install(a.as_str());
            s.is_wp = wp;
            s.doc_root = s.site_path.clone();
            s.stage = if wp {
                NewSiteStage::DbUser
            } else {
                NewSiteStage::DocRoot
            };
        },
        (NewSiteStage::DocRoot, StepEvent::Answer(a)) => {
            s.doc_root = a;
            s.stage = NewSiteStage::DbUser;
        },
        (NewSiteStage::DbUser, StepEvent::Answer(a)) => {
            s.db_user = a;
            s.stage = NewSiteStage::DbPass;
        },
        (NewSiteStage::DbPass, StepEvent::Answer(a)) => {
            s.db_pass = a;
            s.stage = NewSiteStage::PhpVersion;
        },
        (NewSiteStage::PhpVersion, StepEvent::Answer(a)) => {
            s.php_version = a;
            s.stage = NewSiteStage::Confirm;
        },
        (NewSiteStage::Confirm, StepEvent::Answer(a)) => {
            s.stage = if is_no(a.as_str()) {
                NewSiteStage::Aborted
            } else {
                NewSiteStage::CreateDatabase
            };
        },
        (NewSiteStage::CreateDatabase, StepEvent::Done) => {
            s.stage = if s.is_wp {
                NewSiteStage::SetupWordPress
            } else {
                NewSiteStage::WriteConfig
            };
        },
        (NewSiteStage::SetupWordPress, StepEvent::Done) => {
            s.stage = NewSiteStage::WriteConfig;
        },
        (NewSiteStage::WriteConfig, StepEvent::Done) => {
            s.stage = NewSiteStage::LinkConfig;
        },
        (NewSiteStage::LinkConfig, StepEvent::Done) => {
            s.stage = NewSiteStage::LinkWebRoot;
        },
        (NewSiteStage::LinkWebRoot, StepEvent::Done) => {
            s.stage = NewSiteStage::MapDns;
        },
        (NewSiteStage::MapDns, StepEvent::Done) => {
            s.stage = NewSiteStage::RestartApache;
        },
        (NewSiteStage::RestartApache, StepEvent::Done) => {
            s.stage = NewSiteStage::Complete;
        },
        _ => {},
    }
    s
}

/// Once setting up is declined, nothing more happens.
pub proof fn lemma_new_site_abort_is_final(s: NewSiteView, e: Option<Seq<char>>)
    requires
        s.stage == NewSiteStage::Aborted,
    ensures
        new_site_next(s, e) == s,
{
}

/// Declining at the confirmation (`n` or `N`) ends setting up with nothing done.
pub proof fn lemma_new_site_declined(s: NewSiteView, a: Seq<char>)
    requires
        s.stage == NewSiteStage::Confirm,
        is_answer(a, 'n', 'N'),
    ensures
        new_site_next(s, Some(a)).stage == NewSiteStage::Aborted,
{
}

/// Any answer at the confirmation but `n` or `N` (`y`, `Y` and the empty
/// answer among them) goes on to create the database, with every answer given
/// so far kept.
pub proof fn lemma_new_site_confirmed(s: NewSiteView, a: Seq<char>)
    requires
        s.stage == NewSiteStage::Confirm,
        a != seq!['n'],
        a != seq!['N'],
    ensures
        new_site_next(s, Some(a)) == (NewSiteView { stage: NewSiteStage::CreateDatabase, ..s }),
{
}

/// Each question records its answer and moves on to the next question: the
/// site path, then whether to install WordPress (which, when asked for, makes
/// the site path the document root and skips that question), the document
/// root, the database user, its password and the PHP version, after which
/// what will be done is shown for confirmation.
pub proof fn lemma_new_site_answers_recorded(s: NewSiteView, a: Seq<char>)
    ensures
        s.stage == NewSiteStage::SitePath ==> new_site_next(s, Some(a)) == (NewSiteView {
            stage: NewSiteStage::InstallWordPress,
            site_path: a,
            ..s
        }),
        s.stage == NewSiteStage::InstallWordPress && (a == seq!['y'] || a == seq!['Y'])
            ==> new_site_next(s, Some(a)) == (NewSiteView {
            stage: NewSiteStage::DbUser,
            is_wp: true,
            doc_root: s.site_path,
            ..s
        }),
        s.stage == NewSiteStage::InstallWordPress && a != seq!['y'] && a != seq!['Y']
            ==> new_site_next(s, Some(a)) == (NewSiteView {
            stage: NewSiteStage::DocRoot,
            is_wp: false,
            doc_root: s.site_path,
            ..s
        }),
        s.stage == NewSiteStage::DocRoot ==> new_site_next(s, Some(a)) == (NewSiteView {
            stage: NewSiteStage::DbUser,
            doc_root: a,
            ..s
        }),
        s.stage == NewSiteStage::DbUser ==> new_site_next(s, Some(a)) == (NewSiteView {
            stage: NewSiteStage::DbPass,
            db_user: a,
            ..s
        }),
        s.stage == NewSiteStage::DbPass ==> new_site_next(s, Some(a)) == (NewSiteView {
            stage: NewSiteStage::PhpVersion,
            db_pass: a,
            ..s
        }),
        s.stage == NewSiteStage::PhpVersion ==> new_site_next(s, Some(a)) == (NewSiteView {
            stage: NewSiteStage::Confirm,
            php_version: a,
            ..s
        }),
{
}

/// Once confirmed, each finished side effect leads to the next, in this order:
/// create the database, install WordPress (only when asked for), write the
/// virtual host, link it, link the web root, map the domain, restart Apache;
/// no answer given so far changes.
pub proof fn lemma_new_site_effects_in_order(s: NewSiteView)
    ensures
        s.stage == NewSiteStage::CreateDatabase && s.is_wp ==> new_site_next(s, None) == (
        NewSiteView { stage: NewSiteStage::SetupWordPress, ..s }),
        s.stage == NewSiteStage::CreateDatabase && !s.is_wp ==> new_site_next(s, None) == (
        NewSiteView { stage: NewSiteStage::WriteConfig, ..s }),
        s.stage == NewSiteStage::SetupWordPress ==> new_site_next(s, None) == (NewSiteView {
            stage: NewSiteStage::WriteConfig,
            ..s
        }),
        s.stage == NewSiteStage::WriteConfig ==> new_site_next(s, None) == (NewSiteView {
            stage: NewSiteStage::LinkConfig,
            ..s
        }),
        s.stage == NewSiteStage::LinkConfig ==> new_site_next(s, None) == (NewSiteView {
            stage: NewSiteStage::LinkWebRoot,
            ..s
        }),
        s.stage == NewSiteStage::LinkWebRoot ==> new_site_next(s, None) == (NewSiteView {
            stage: NewSiteStage::MapDns,
            ..s
        }),
        s.stage == NewSiteStage::MapDns ==> new_site_next(s, None) == (NewSiteView {
            stage: NewSiteStage::RestartApache,
            ..s
        }),
        s.stage == NewSiteStage::RestartApache ==> new_site_next(s, None) == (NewSiteView {
            stage: NewSiteStage::Complete,
            ..s
        }),
{
}

/// WordPress is installed only when it was asked for, and right after the
/// database is created.
pub proof fn lemma_wordpress_only_when_asked(s: NewSiteView, e: Option<Seq<char>>)
    requires
        s.stage != NewSiteStage::SetupWordPress,
        new_site_next(s, e).stage == NewSiteStage::SetupWordPress,
    ensures
        s.stage == NewSiteStage::CreateDatabase,
        s.is_wp,
{
}

/// Setting up is complete only right after Apache is restarted.
pub proof fn lemma_new_site_apache_last(s: NewSiteView, e: Option<Seq<char>>)
    requires
        s.stage != NewSiteStage::Complete,
        new_site_next(s, e).stage == NewSiteStage::Complete,
    ensures
        s.stage == NewSiteStage::RestartApache,
{
}

/// The stages of removing a site, in the order they are reached.
#[derive(Clone, Copy, PartialEq, Eq, Structural, Debug)]
pub enum RemoveSiteStage {
    /// Ask whether to remove the site.
    Confirm,
    /// Delete the site's hosts entry.
    UpdateHosts,
    /// Delete the web root link, the enabling link and the configuration.
    RemoveFiles,
    /// Ask whether to remove the database too.
    ConfirmDatabase,
    /// Ask for the database password.
    DbPass,
    /// Drop the database.
    DropDatabase,
    /// Restart Apache.
    RestartApache,
    /// The command is over.
    Finished,
}

/// Removing a site: the stage reached and the database password given.
pub struct RemoveSite {
    pub stage: RemoveSiteStage,
    pub db_pass: String,
}

/// The next stage of removing a site, and the password it then holds. An
/// event that does not fit the stage changes nothing.
pub open spec fn remove_site_next(stage: RemoveSiteStage, pass: Seq<char>, e: Option<Seq<char>>) -> (
    RemoveSiteStage,
    Seq<char>,
) {
    match (stage, e) {
        (RemoveSiteStage::Confirm, Some(a)) => (
            if is_answer(a, 'y', 'Y') {
                RemoveSiteStage::UpdateHosts
            } else {
                RemoveSiteStage::Finished
            },
            pass,
        ),
        (RemoveSiteStage::UpdateHosts, None) => (RemoveSiteStage::RemoveFiles, pass),
        (RemoveSiteStage::RemoveFiles, None) => (RemoveSiteStage::ConfirmDatabase, pass),
        (RemoveSiteStage::ConfirmDatabase, Some(a)) => (
            if is_answer(a, 'y', 'Y') {
                RemoveSiteStage::DbPass
            } else {
                RemoveSiteStage::Finished
            },
            pass,
        ),
        (RemoveSiteStage::DbPass, Some(a)) => (RemoveSiteStage::DropDatabase, a),
        (RemoveSiteStage::DropDatabase, None) => (RemoveSiteStage::RestartApache, pass),
        (RemoveSiteStage::RestartApache, None) => (RemoveSiteStage::Finished, pass),
        _ => (stage, pass),
    }
}

/// Removing a site, before anything is asked.
pub fn remove_site_start() -> (r: RemoveSite)
    ensures
        r.stage == RemoveSiteStage::Confirm,
        r.db_pass@.len() == 0,
{
    RemoveSite { stage: RemoveSiteStage::Confirm, db_pass: String::new() }
}

/// One step of removing a site.
pub fn remove_site_step(s: RemoveSite, e: StepEvent) -> (r: RemoveSite)
    ensures
        (r.stage, r.db_pass@) == remove_site_next(s.stage, s.db_pass@, event_view(e)),
{
    let mut s = s;
    match (s.stage, e) {
        (RemoveSiteStage::Confirm, StepEvent::Answer(a)) => {
            s.stage = if is_yes(a.as_str()) {
                RemoveSiteStage::UpdateHosts
            } else {
                RemoveSiteStage::Finished
            };
        },
        (RemoveSiteStage::UpdateHosts, StepEvent::Done) => {
            s.stage = RemoveSiteStage::RemoveFiles;
        },
        (RemoveSiteStage::RemoveFiles, StepEvent::Done) => {
            s.stage = RemoveSiteStage::ConfirmDatabase;
        },
        (RemoveSiteStage::ConfirmDatabase, StepEvent::Answer(a)) => {
            s.stage = if is_yes(a.as_str()) {
                RemoveSiteStage::DbPass
            } else {
                RemoveSiteStage::Finished
            };
        },
        (RemoveSiteStage::DbPass, StepEvent::Answer(a)) => {
            s.db_pass = a;
            s.stage = RemoveSiteStage::DropDatabase;
        },
        (RemoveSiteStage::DropDatabase, StepEvent::Done) => {
            s.stage = RemoveSiteStage::RestartApache;
        },
        (RemoveSiteStage::RestartApache, StepEvent::Done) => {
            s.stage = RemoveSiteStage::Finished;
        },
        _ => {},
    }
    s
}

/// Anything but `y` or `Y` at the first question ends removal with nothing
/// done; at the database question it ends removal with the database kept and
/// Apache not restarted.
pub proof fn lemma_remove_site_declined(stage: RemoveSiteStage, pass: Seq<char>, a: Seq<char>)
    requires
        stage == RemoveSiteStage::Confirm || stage == RemoveSiteStage::ConfirmDatabase,
        !is_answer(a, 'y', 'Y'),
    ensures
        remove_site_next(stage, pass, Some(a)).0 == RemoveSiteStage::Finished,
{
}

/// `y` or `Y` at the first question goes on to delete the hosts entry; at the
/// database question it goes on to ask for the password; the password given
/// is the one the database is dropped with.
pub proof fn lemma_remove_site_confirmed(stage: RemoveSiteStage, pass: Seq<char>, a: Seq<char>)
    ensures
        stage == RemoveSiteStage::Confirm && (a == seq!['y'] || a == seq!['Y'])
            ==> remove_site_next(stage, pass, Some(a)) == (RemoveSiteStage::UpdateHosts, pass),
        stage == RemoveSiteStage::ConfirmDatabase && (a == seq!['y'] || a == seq!['Y'])
            ==> remove_site_next(stage, pass, Some(a)) == (RemoveSiteStage::DbPass, pass),
        stage == RemoveSiteStage::DbPass ==> remove_site_next(stage, pass, Some(a)) == (
        RemoveSiteStage::DropDatabase, a),
{
}

/// Once confirmed, each finished side effect of a removal leads to the next:
/// the hosts entry, then the files, then the database question; after the
/// database is dropped Apache is restarted, and then the command is over.
pub proof fn lemma_remove_site_effects_in_order(stage: RemoveSiteStage, pass: Seq<char>)
    ensures
        stage == RemoveSiteStage::UpdateHosts ==> remove_site_next(stage, pass, None) == (
        RemoveSiteStage::RemoveFiles, pass),
        stage == RemoveSiteStage::RemoveFiles ==> remove_site_next(stage, pass, None) == (
        RemoveSiteStage::ConfirmDatabase, pass),
        stage == RemoveSiteStage::DropDatabase ==> remove_site_next(stage, pass, None) == (
        RemoveSiteStage::RestartApache, pass),
        stage == RemoveSiteStage::RestartApache ==> remove_site_next(stage, pass, None) == (
        RemoveSiteStage::Finished, pass),
{
}

/// Apache is restarted by a removal only after the database is dropped.
pub proof fn lemma_remove_site_restart_after_drop(
    stage: RemoveSiteStage,
    pass: Seq<char>,
    e: Option<Seq<char>>,
)
    requires
        stage != RemoveSiteStage::RestartApache,
        remove_site_next(stage, pass, e).0 == RemoveSiteStage::RestartApache,
    ensures
        stage == RemoveSiteStage::DropDatabase,
{
}

/// The stages of restarting a site's services, in the order they are reached.
#[derive(Clone, Copy, PartialEq, Eq, Structural, Debug)]
pub enum RestartSiteStage {
    /// Find the PHP-FPM service the site's configuration names.
    FindPhp,
    /// Restart that PHP-FPM service.
    RestartPhp,
    /// Restart Apache.
    RestartApache,
    /// The command is over.
    Finished,
}

/// Restarting a site: the stage reached and the PHP-FPM service found.
pub struct RestartSite {
    pub stage: RestartSiteStage,
    pub php_service: String,
}

/// The next stage of restarting a site, and the service it then holds. At
/// `FindPhp` the event is the service found (`Answer`) or that none was
/// (`Done`). An event that does not fit the stage changes nothing.
pub open spec fn restart_site_next(
    stage: RestartSiteStage,
    service: Seq<char>,
    e: Option<Seq<char>>,
) -> (RestartSiteStage, Seq<char>) {
    match (stage, e) {
        (RestartSiteStage::FindPhp, Some(svc)) => (RestartSiteStage::RestartPhp, svc),
        (RestartSiteStage::FindPhp, None) => (RestartSiteStage::RestartApache, service),
        (RestartSiteStage::RestartPhp, None) => (RestartSiteStage::RestartApache, service),
        (RestartSiteStage::RestartApache, None) => (RestartSiteStage::Finished, service),
        _ => (stage, service),
    }
}

/// Restarting a site, before anything is done.
pub fn restart_site_start() -> (r: RestartSite)
    ensures
        r.stage == RestartSiteStage::FindPhp,
        r.php_service@.len() == 0,
{
    RestartSite { stage: RestartSiteStage::FindPhp, php_service: String::new() }
}

/// One step of restarting a site.
pub fn restart_site_step(s: RestartSite, e: StepEvent) -> (r: RestartSite)
    ensures
        (r.stage, r.php_service@) == restart_site_next(s.stage, s.php_service@, event_view(e)),
{
    let mut s = s;
    match (s.stage, e) {
        (RestartSiteStage::FindPhp, StepEvent::Answer(svc)) => {
            s.php_service = svc;
            s.stage = RestartSiteStage::RestartPhp;
        },
        (RestartSiteStage::FindPhp, StepEvent::Done) => {
            s.stage = RestartSiteStage::RestartApache;
        },
        (RestartSiteStage::RestartPhp, StepEvent::Done) => {
            s.stage = RestartSiteStage::RestartApache;
        },
        (RestartSiteStage::RestartApache, StepEvent::Done) => {
            s.stage = RestartSiteStage::Finished;
        },
        _ => {},
    }
    s
}

/// A PHP-FPM service found for the site is restarted, and then Apache; with
/// none found, Apache alone is restarted.
pub proof fn lemma_restart_site_php_first(stage: RestartSiteStage, service: Seq<char>, svc: Seq<char>)
    ensures
        stage == RestartSiteStage::FindPhp ==> restart_site_next(stage, service, Some(svc)) == (
        RestartSiteStage::RestartPhp, svc),
        stage == RestartSiteStage::FindPhp ==> restart_site_next(stage, service, None) == (
        RestartSiteStage::RestartApache, service),
        stage == RestartSiteStage::RestartPhp ==> restart_site_next(stage, service, None) == (
        RestartSiteStage::RestartApache, service),
{
}

/// A restart finishes only right after Apache is restarted, whether or not a
/// PHP-FPM service was found.
pub proof fn lemma_restart_site_apache_last(
    stage: RestartSiteStage,
    service: Seq<char>,
    e: Option<Seq<char>>,
)
    requires
        stage != RestartSiteStage::Finished,
        restart_site_next(stage, service, e).0 == RestartSiteStage::Finished,
    ensures
        stage == RestartSiteStage::RestartApache,
{
}

} // verus!
