//! What the command line asks for: the verbosity, and the site commands to run
//! in order, with the domain of a new site checked first.
use vstd::prelude::*;
use crate::hosts::no_line_break;

verus! {

/// The verbosity that `count` repetitions of `-v` select: at most two.
pub fn verbosity_from_count(count: u8) -> (r: u8)
    ensures
        r == if count <= 2 {
            count
        } else {
            2
        },
{
    match count {
        0 => 0,
        1 => 1,
        2 => 2,
        _ => 2,
    }
}

/// Why `addr::parse_domain_name` refuses `input` (the error's message), or
/// `None` when it accepts it.
pub uninterp spec fn domain_name_rejection(input: Seq<char>) -> Option<Seq<char>>;

/// A character that a domain accepted by `addr::parse_domain_name` can hold:
/// any character outside ASCII, or an ASCII letter, digit, `-` or `.`.
pub open spec fn is_domain_char(c: char) -> bool {
    (c as u32) >= 128 || ('a' <= c && c <= 'z') || ('A' <= c && c <= 'Z') || ('0' <= c && c
        <= '9') || c == '-' || c == '.'
}

/// `addr::parse_domain_name`, keeping only whether it accepts the domain and,
/// when it does not, its error message. Claimed: the outcome depends on the
/// text alone; an accepted name is not empty and its only ASCII characters
/// are letters, digits, `-` and `.` (each label is checked for them).
#[verifier::external_body]
fn parse_domain_name(domain: &str) -> (r: Result<(), String>)
    ensures
        match r {
            Ok(_) => domain_name_rejection(domain@) is None,
            Err(m) => domain_name_rejection(domain@) == Some(m@),
        },
        r is Ok ==> domain@.len() > 0 && forall|i: int|
            0 <= i < domain@.len() ==> is_domain_char(#[trigger] domain@[i]),
{
    match addr::parse_domain_name(domain) {
        Ok(_) => Ok(()),
        Err(e) => Err(e.to_string()),
    }
}

/// Checks the domain of a new site: `Ok` when it is a valid domain name,
/// otherwise the reason it is not.
pub fn validate_site_domain(domain: &str) -> (r: Result<(), String>)
    ensures
        match r {
            Ok(_) => domain_name_rejection(domain@) is None,
            Err(m) => domain_name_rejection(domain@) == Some(m@),
        },
        r is Ok ==> domain@.len() > 0 && no_line_break(domain@),
{
    let r = parse_domain_name(domain);
    proof {
        if r is Ok {
            assert forall|i: int| 0 <= i < domain@.len() implies domain@[i] != '\n' by {
                assert(is_domain_char(domain@[i]));
            }
        }
    }
    r
}

/// A site command the command line asks for.
pub enum CliAction {
    /// Set up a site for this (validated) domain.
    NewSite(String),
    /// Stop with this message: the domain given for a new site is not valid.
    RejectDomain(String),
    /// Remove the site with this domain.
    RemoveSite(String),
    /// Restart the services of the site with this domain.
    RestartSite(String),
}

/// The views of the domains the options name.
pub open spec fn opt_view(o: Option<String>) -> Option<Seq<char>> {
    match o {
        Some(s) => Some(s@),
        None => None,
    }
}

/// The action's kind and the text it carries.
pub open spec fn action_view(a: CliAction) -> (int, Seq<char>) {
    match a {
        CliAction::NewSite(s) => (0, s@),
        CliAction::RejectDomain(s) => (1, s@),
        CliAction::RemoveSite(s) => (2, s@),
        CliAction::RestartSite(s) => (3, s@),
    }
}

/// The commands to run, in order, for the options `--new`, `--remove` and
/// `--restart`, given why the new site's domain is refused (`None` when it is
/// accepted): a new site first (or a stop, when its domain is refused), then
/// the removal, then the restart.
pub open spec fn cli_plan_given(
    new: Option<Seq<char>>,
    rejection: Option<Seq<char>>,
    remove: Option<Seq<char>>,
    restart: Option<Seq<char>>,
) -> Seq<(int, Seq<char>)> {
    match new {
        Some(d) => match rejection {
            Some(m) => seq![(1, m)],
            None => seq![(0, d)] + rest_plan(remove, restart),
        },
        None => rest_plan(remove, restart),
    }
}

/// The commands to run for the options, the new site's domain checked by
/// `addr::parse_domain_name`.
pub open spec fn cli_plan(
    new: Option<Seq<char>>,
    remove: Option<Seq<char>>,
    restart: Option<Seq<char>>,
) -> Seq<(int, Seq<char>)> {
    cli_plan_given(
        new,
        match new {
            Some(d) => domain_name_rejection(d),
            None => None,
        },
        remove,
        restart,
    )
}

/// The removal and restart commands, in that order.
pub open spec fn rest_plan(remove: Option<Seq<char>>, restart: Option<Seq<char>>) -> Seq<
    (int, Seq<char>),
> {
    (match remove {
        Some(d) => seq![(2int, d)],
        None => Seq::empty(),
    }) + (match restart {
        Some(d) => seq![(3int, d)],
        None => Seq::empty(),
    })
}

/// The commands to run for the given options, in order, given why the new
/// site's domain is refused (`None` when it is accepted).
pub fn plan_actions(
    new: Option<String>,
    rejection: Option<String>,
    remove: Option<String>,
    restart: Option<String>,
) -> (r: Vec<CliAction>)
    ensures
        r@.map_values(|a: CliAction| action_view(a)) == cli_plan_given(
            opt_view(new),
            opt_view(rejection),
            opt_view(remove),
            opt_view(restart),
        ),
{
    let ghost nv = opt_view(new);
    let ghost rv = opt_view(remove);
    let ghost tv = opt_view(restart);
    let mut r: Vec<CliAction> = Vec::new();
    let mut proceed = true;
    if let Some(domain) = new {
        match rejection {
            None => {
                r.push(CliAction::NewSite(domain));
            },
            Some(m) => {
                r.push(CliAction::RejectDomain(m));
                proceed = false;
            },
        }
    }
    let ghost head = r@.map_values(|a: CliAction| action_view(a));
    if proceed {
        if let Some(domain) = remove {
            r.push(CliAction::RemoveSite(domain));
        }
        if let Some(domain) = restart {
            r.push(CliAction::RestartSite(domain));
        }
    }
    proof {
        let got = r@.map_values(|a: CliAction| action_view(a));
        if proceed {
            assert(got =~= head + rest_plan(rv, tv));
            match nv {
                Some(d) => {},
                None => {
                    assert(head =~= Seq::<(int, Seq<char>)>::empty());
                },
            }
        } else {
            assert(got =~= head);
        }
    }
    r
}

/// The commands to run for the given options, in order; a new site's domain
/// is checked first, and a refused one stops everything.
pub fn plan_cli(new: Option<String>, remove: Option<String>, restart: Option<String>) -> (r: Vec<
    CliAction,
>)
    ensures
        r@.map_values(|a: CliAction| action_view(a)) == cli_plan(
            opt_view(new),
            opt_view(remove),
            opt_view(restart),
        ),
        forall|i: int|
            0 <= i < r@.len() ==> (#[trigger] r@[i] matches CliAction::NewSite(d) ==> no_line_break(
                d@,
            )),
{
    let rejection = match &new {
        Some(domain) => match validate_site_domain(domain.as_str()) {
            Ok(()) => None,
            Err(m) => Some(m),
        },
        None => None,
    };
    let ghost nv = opt_view(new);
    let ghost ok = match nv {
        Some(d) => rejection is None ==> no_line_break(d),
        None => true,
    };
    assert(ok);
    let r = plan_actions(new, rejection, remove, restart);
    proof {
        let got = r@.map_values(|a: CliAction| action_view(a));
        let rest = rest_plan(opt_view(remove), opt_view(restart));
        lemma_rest_plan_kinds(opt_view(remove), opt_view(restart));
        assert forall|i: int|
            0 <= i < r@.len() implies (#[trigger] r@[i] matches CliAction::NewSite(d)
            ==> no_line_break(d@)) by {
            if let CliAction::NewSite(d) = r@[i] {
                assert(got[i] == (0int, d@));
                match nv {
                    Some(dn) => {
                        if rejection is None {
                            assert(got =~= seq![(0int, dn)] + rest);
                            if i > 0 {
                                assert(got[i] == rest[i - 1]);
                            }
                        } else {
                            assert(got.len() == 1 && got[0].0 == 1);
                        }
                    },
                    None => {
                        assert(got[i] == rest[i]);
                    },
                }
            }
        }
    }
    r
}

/// The commands follow the options in a fixed order: a new site whose domain
/// is accepted comes first, whatever else is asked; then the removal, then the
/// restart, one command for each option given. A refused domain is the only
/// command: nothing else runs.
pub proof fn lemma_plan_order(
    new: Option<Seq<char>>,
    rejection: Option<Seq<char>>,
    remove: Option<Seq<char>>,
    restart: Option<Seq<char>>,
)
    ensures
        rejection is None ==> (new matches Some(d) ==> cli_plan_given(
            new,
            rejection,
            remove,
            restart,
        ).len() >= 1 && cli_plan_given(new, rejection, remove, restart)[0] == (0int, d)),
        new is Some ==> (rejection matches Some(m) ==> cli_plan_given(
            new,
            rejection,
            remove,
            restart,
        ) == seq![(1int, m)]),
        new is None || rejection is None ==> cli_plan_given(new, rejection, remove, restart).len()
            == (if new is Some { 1int } else { 0int }) + (if remove is Some { 1int } else { 0int })
            + (if restart is Some { 1int } else { 0int }),
        new is None || rejection is None ==> (remove matches Some(x) ==> cli_plan_given(
            new,
            rejection,
            remove,
            restart,
        )[if new is Some { 1int } else { 0int }] == (2int, x)),
        new is None || rejection is None ==> (restart matches Some(y) ==> cli_plan_given(
            new,
            rejection,
            remove,
            restart,
        ).last() == (3int, y)),
{
    let a: Seq<(int, Seq<char>)> = match remove {
        Some(d) => seq![(2int, d)],
        None => Seq::empty(),
    };
    let b: Seq<(int, Seq<char>)> = match restart {
        Some(d) => seq![(3int, d)],
        None => Seq::empty(),
    };
    let rest = rest_plan(remove, restart);
    assert(rest == a + b);
    if new is None || rejection is None {
        let head: Seq<(int, Seq<char>)> = match new {
            Some(d) => seq![(0int, d)],
            None => Seq::empty(),
        };
        let plan = cli_plan_given(new, rejection, remove, restart);
        assert(plan =~= head + (a + b));
        if let Some(x) = remove {
            assert(plan[head.len() as int] == (a + b)[0]);
        }
        if let Some(y) = restart {
            assert(plan.last() == (a + b).last());
        }
    }
}

/// A new site whose domain passes the check comes first in the commands run,
/// whatever `--remove` and `--restart` ask for.
pub proof fn lemma_cli_new_site_first(
    d: Seq<char>,
    remove: Option<Seq<char>>,
    restart: Option<Seq<char>>,
)
    requires
        domain_name_rejection(d) is None,
    ensures
        cli_plan(Some(d), remove, restart).len() == 1 + (if remove is Some { 1int } else { 0int })
            + (if restart is Some { 1int } else { 0int }),
        cli_plan(Some(d), remove, restart)[0] == (0int, d),
{
    lemma_plan_order(Some(d), None, remove, restart);
}

/// The removal and restart commands are neither new-site commands nor stops.
proof fn lemma_rest_plan_kinds(remove: Option<Seq<char>>, restart: Option<Seq<char>>)
    ensures
        forall|k: int|
            0 <= k < rest_plan(remove, restart).len() ==> #[trigger] rest_plan(
                remove,
                restart,
            )[k].0 == 2 || rest_plan(remove, restart)[k].0 == 3,
{
    let a: Seq<(int, Seq<char>)> = match remove {
        Some(d) => seq![(2int, d)],
        None => Seq::empty(),
    };
    let b: Seq<(int, Seq<char>)> = match restart {
        Some(d) => seq![(3int, d)],
        None => Seq::empty(),
    };
    assert(rest_plan(remove, restart) == a + b);
    assert forall|k: int| 0 <= k < (a + b).len() implies #[trigger] (a + b)[k].0 == 2 || (a
        + b)[k].0 == 3 by {
        if k < a.len() {
            assert((a + b)[k] == a[k]);
        } else {
            assert((a + b)[k] == b[k - a.len()]);
        }
    }
}

} // verus!
