//! `partiri service link`: point a service at another workspace, project,
//! region, pod or token.
use vstd::prelude::*;
use vstd::string::*;

use crate::config::{PartiriConfig, ServiceConfig};
use crate::error::{text_error, validation_error_with_hint, validation_hint_of};
use crate::error::{CliErrorView, Failure, FailureView};
use crate::output::Ctx;

verus! {

/// The flags of `service link`.
#[derive(Debug)]
pub struct LinkArgs {
    /// New workspace; needs `project`.
    pub workspace: Option<String>,
    pub project: Option<String>,
    /// New region; needs `pod`.
    pub region: Option<String>,
    pub pod: Option<String>,
    /// New `fk_service_secret`.
    pub token: Option<String>,
    /// Clear `fk_service_secret`.
    pub clear_token: bool,
}

/// Whether any flag was given.
pub open spec fn some_flag(a: LinkArgs) -> bool {
    a.workspace is Some || a.project is Some || a.region is Some || a.pod is Some || a.token is Some
        || a.clear_token
}

impl LinkArgs {
    pub fn any_flag(&self) -> (r: bool)
        ensures
            r == some_flag(*self),
    {
        self.workspace.is_some() || self.project.is_some() || self.region.is_some()
            || self.pod.is_some() || self.token.is_some() || self.clear_token
    }
}

pub open spec fn or_else(o: Option<String>, s: String) -> String {
    match o {
        Some(x) => x,
        None => s,
    }
}

/// The configuration after the flags: each given value replaces its field, and
/// all else stays.
pub open spec fn linked(c: PartiriConfig, a: LinkArgs) -> PartiriConfig {
    PartiriConfig {
        fk_workspace: or_else(a.workspace, c.fk_workspace),
        fk_project: or_else(a.project, c.fk_project),
        service: ServiceConfig {
            fk_region: or_else(a.region, c.service.fk_region),
            fk_pod: or_else(a.pod, c.service.fk_pod),
            fk_service_secret: if a.token is Some {
                a.token
            } else if a.clear_token {
                None
            } else {
                c.service.fk_service_secret
            },
            ..c.service
        },
        ..c
    }
}

/// A flag without the flag that it needs.
pub open spec fn link_problem(a: LinkArgs) -> Option<Seq<char>> {
    if a.workspace is Some && a.project is None {
        Some("--workspace requires --project (projects don't carry across workspaces)."@)
    } else if a.region is Some && a.pod is None {
        Some("--region requires --pod (pods are scoped to their region's workspace)."@)
    } else {
        None
    }
}

fn pick(o: Option<String>, s: String) -> (r: String)
    ensures
        r == or_else(o, s),
{
    match o {
        Some(x) => x,
        None => s,
    }
}

/// Apply the flags. The flag tells whether there was any, so that the
/// configuration has to be saved.
pub fn run_with_flags(config: PartiriConfig, args: LinkArgs) -> (r: Result<
    (PartiriConfig, bool),
    Failure,
>)
    ensures
        r is Ok <==> link_problem(args) is None,
        r is Err ==> r->Err_0@ == FailureView::Text(link_problem(args)->0),
        r is Ok ==> r->Ok_0.0 == linked(config, args) && r->Ok_0.1 == some_flag(args),
{
    if args.workspace.is_some() && args.project.is_none() {
        return Err(
            text_error("--workspace requires --project (projects don't carry across workspaces)."),
        );
    }
    if args.region.is_some() && args.pod.is_none() {
        return Err(
            text_error("--region requires --pod (pods are scoped to their region's workspace)."),
        );
    }
    let changed = args.any_flag();
    let mut out = config;
    out.fk_workspace = pick(args.workspace, out.fk_workspace);
    out.fk_project = pick(args.project, out.fk_project);
    out.service.fk_region = pick(args.region, out.service.fk_region);
    out.service.fk_pod = pick(args.pod, out.service.fk_pod);
    if args.token.is_some() {
        out.service.fk_service_secret = args.token;
    } else if args.clear_token {
        out.service.fk_service_secret = None;
    }
    Ok((out, changed))
}

// ─── The interactive walk ──────────────────────────────────────────────────

/// Where the walk stands.
#[derive(Debug, Clone, Copy, PartialEq, Eq, Structural)]
pub enum LinkStep {
    Workspace,
    Project,
    Region,
    Pod,
    Done,
}

/// The walk so far.
#[derive(Debug)]
pub struct LinkWalk {
    pub step: LinkStep,
    pub config: PartiriConfig,
    /// Whether anything was picked.
    pub changed: bool,
    /// Whether this step cannot be skipped, since what it depends on was
    /// picked anew.
    pub forced: bool,
}

/// What to do at a step.
#[derive(Debug)]
pub enum LinkMove {
    /// Ask whether to pick anew.
    Ask(&'static str),
    /// Say why, and pick anew.
    Pick(&'static str),
    /// Save, where anything was picked.
    Finish(bool),
}

pub open spec fn next_step(s: LinkStep) -> LinkStep {
    match s {
        LinkStep::Workspace => LinkStep::Project,
        LinkStep::Project => LinkStep::Region,
        LinkStep::Region => LinkStep::Pod,
        LinkStep::Pod => LinkStep::Done,
        LinkStep::Done => LinkStep::Done,
    }
}

pub open spec fn question(s: LinkStep) -> Seq<char> {
    match s {
        LinkStep::Workspace => "Update workspace?"@,
        LinkStep::Project => "Update project?"@,
        LinkStep::Region => "Update region?"@,
        _ => "Update pod?"@,
    }
}

/// A walk is in order: only the steps behind a workspace or a region are ever
/// forced, and only after something was picked.
pub open spec fn walk_ok(w: LinkWalk) -> bool {
    w.forced ==> w.changed && (w.step == LinkStep::Project || w.step == LinkStep::Pod)
}

/// The configuration with the pick of a step in its place.
pub open spec fn with_pick(c: PartiriConfig, s: LinkStep, id: String) -> PartiriConfig {
    match s {
        LinkStep::Workspace => PartiriConfig { fk_workspace: id, ..c },
        LinkStep::Project => PartiriConfig { fk_project: id, ..c },
        LinkStep::Region => PartiriConfig {
            service: ServiceConfig { fk_region: id, ..c.service },
            ..c
        },
        LinkStep::Pod => PartiriConfig { service: ServiceConfig { fk_pod: id, ..c.service }, ..c },
        LinkStep::Done => c,
    }
}

/// The error for a walk that cannot prompt.
pub open spec fn link_needs_flags() -> CliErrorView {
    validation_hint_of(
        "service link in non-interactive mode requires at least one of --workspace, --project, --region, --pod, --token, or --clear-token."@,
        "Pair --workspace with --project, and --region with --pod. Run 'partiri -j llm context' to find UUIDs."@,
    )
}

/// Start the walk.
pub fn start_walk(config: PartiriConfig, ctx: Ctx) -> (r: Result<LinkWalk, Failure>)
    ensures
        r is Ok <==> !ctx.no_input,
        r is Err ==> r->Err_0@ == FailureView::Cli(link_needs_flags()),
        r is Ok ==> r->Ok_0 == (LinkWalk {
            step: LinkStep::Workspace,
            config,
            changed: false,
            forced: false,
        }) && walk_ok(r->Ok_0),
{
    if ctx.no_input {
        return Err(
            validation_error_with_hint(
                "service link in non-interactive mode requires at least one of --workspace, --project, --region, --pod, --token, or --clear-token.",
                "Pair --workspace with --project, and --region with --pod. Run 'partiri -j llm context' to find UUIDs.",
            ),
        );
    }
    Ok(LinkWalk { step: LinkStep::Workspace, config, changed: false, forced: false })
}

impl LinkWalk {
    /// What to do now.
    pub fn next_move(&self) -> (r: LinkMove)
        requires
            walk_ok(*self),
        ensures
            self.step == LinkStep::Done ==> r == LinkMove::Finish(self.changed),
            self.step != LinkStep::Done && self.forced ==> r is Pick && r->Pick_0@ == (if self.step
                == LinkStep::Project {
                "Workspace changed — project must be re-selected."@
            } else {
                "Region changed — pod must be re-selected."@
            }),
            self.step != LinkStep::Done && !self.forced ==> r is Ask && r->Ask_0@ == question(
                self.step,
            ),
    {
        if self.forced {
            return match self.step {
                LinkStep::Project => LinkMove::Pick(
                    "Workspace changed — project must be re-selected.",
                ),
                _ => LinkMove::Pick("Region changed — pod must be re-selected."),
            };
        }
        match self.step {
            LinkStep::Workspace => LinkMove::Ask("Update workspace?"),
            LinkStep::Project => LinkMove::Ask("Update project?"),
            LinkStep::Region => LinkMove::Ask("Update region?"),
            LinkStep::Pod => LinkMove::Ask("Update pod?"),
            LinkStep::Done => LinkMove::Finish(self.changed),
        }
    }

    /// Leave the step as it is. A forced step cannot be skipped.
    pub fn skip(self) -> (r: LinkWalk)
        requires
            walk_ok(self),
            !self.forced,
        ensures
            r == (LinkWalk { step: next_step(self.step), forced: false, ..self }),
            walk_ok(r),
    {
        LinkWalk {
            step: following(self.step),
            config: self.config,
            changed: self.changed,
            forced: false,
        }
    }

    /// Put in what was picked at the step. A new workspace forces the project
    /// to be picked too, a new region the pod.
    pub fn choose_id(self, id: String) -> (r: LinkWalk)
        requires
            walk_ok(self),
            self.step != LinkStep::Done,
        ensures
            r == (LinkWalk {
                step: next_step(self.step),
                config: with_pick(self.config, self.step, id),
                changed: true,
                forced: self.step == LinkStep::Workspace || self.step == LinkStep::Region,
            }),
            walk_ok(r),
    {
        let mut config = self.config;
        match self.step {
            LinkStep::Workspace => {
                config.fk_workspace = id;
            },
            LinkStep::Project => {
                config.fk_project = id;
            },
            LinkStep::Region => {
                config.service.fk_region = id;
            },
            LinkStep::Pod => {
                config.service.fk_pod = id;
            },
            LinkStep::Done => {},
        }
        LinkWalk {
            step: following(self.step),
            config,
            changed: true,
            forced: self.step == LinkStep::Workspace || self.step == LinkStep::Region,
        }
    }
}

fn following(s: LinkStep) -> (r: LinkStep)
    ensures
        r == next_step(s),
{
    match s {
        LinkStep::Workspace => LinkStep::Project,
        LinkStep::Project => LinkStep::Region,
        LinkStep::Region => LinkStep::Pod,
        LinkStep::Pod => LinkStep::Done,
        LinkStep::Done => LinkStep::Done,
    }
}

// ─── Laws ──────────────────────────────────────────────────────────────────

/// Linking leaves the definition of the service alone: only workspace,
/// project, region, pod and token can change.
pub proof fn linking_keeps_the_definition(c: PartiriConfig, a: LinkArgs)
    ensures
        linked(c, a).id == c.id,
        linked(c, a).deploy_tag == c.deploy_tag,
        linked(c, a).service == (ServiceConfig {
            fk_region: linked(c, a).service.fk_region,
            fk_pod: linked(c, a).service.fk_pod,
            fk_service_secret: linked(c, a).service.fk_service_secret,
            ..c.service
        }),
{
}

/// Without a flag nothing changes.
pub proof fn no_flag_no_change(c: PartiriConfig, a: LinkArgs)
    requires
        !some_flag(a),
    ensures
        linked(c, a) == c,
{
}

} // verus!
