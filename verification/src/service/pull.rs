//! `partiri service pull`: fetch a service into a local `.partiri.jsonc`, and
//! the refresh of `deploy_tag` that other commands do on the way.
use vstd::prelude::*;
use vstd::string::*;

use crate::client::{primary_region_of, Project, Service, Volume, Workspace};
use crate::common::{label_index, project_label, project_labels, workspace_label, workspace_labels};
use crate::config::{
    config_display, config_display_of, ConfigOverride, DiskConfig, PartiriConfig, ServiceConfig,
};
use crate::error::{text_error, validation_error_with_hint, validation_hint_of};
use crate::error::{CliErrorView, Failure, FailureView};
use crate::error::error_text;
use crate::output::{message_only, report, Ctx, Report};
use crate::storage::{
    canonical_mount, canonical_mount_path, disk_from_volume, find_service_volume, service_volume,
};
use crate::text::{cat2, cat3, cat5, cat7, clone_opt, decimal, decimal_of, opt_view, str_eq, views};

verus! {

/// The error for a configuration that cannot be refreshed.
pub open spec fn no_id() -> FailureView {
    FailureView::Text("Service has no id yet; cannot refresh"@)
}

/// The id of the service to refresh from.
pub fn refresh_id(existing: &PartiriConfig) -> (r: Result<&str, Failure>)
    ensures
        r is Ok <==> existing.id is Some,
        r is Ok ==> r->Ok_0@ == existing.id->0@,
        r is Err ==> r->Err_0@ == no_id(),
{
    match &existing.id {
        Some(id) => Ok(id.as_str()),
        None => Err(text_error("Service has no id yet; cannot refresh")),
    }
}

fn same_text(a: &Option<String>, b: &Option<String>) -> (r: bool)
    ensures
        r == (opt_view(*a) == opt_view(*b)),
{
    match (a, b) {
        (Some(x), Some(y)) => str_eq(x.as_str(), y.as_str()),
        (None, None) => true,
        _ => false,
    }
}

/// The configuration with the `deploy_tag` of the service, and whether that
/// changed it, so that it has to be saved. Nothing else is taken over: the
/// user may have edits that were not pushed yet.
pub fn silent_refresh(existing: PartiriConfig, service: &Service) -> (r: (PartiriConfig, bool))
    ensures
        r.0 == (PartiriConfig { deploy_tag: service.deploy_tag, ..existing }),
        r.1 == (opt_view(existing.deploy_tag) != opt_view(service.deploy_tag)),
{
    let dirty = !same_text(&existing.deploy_tag, &service.deploy_tag);
    let mut refreshed = existing;
    refreshed.deploy_tag = clone_opt(&service.deploy_tag);
    (refreshed, dirty)
}

/// Whether two disk blocks differ in size or, up to trailing slashes, in mount
/// path.
pub open spec fn diverges(local: DiskConfig, live: DiskConfig) -> bool {
    canonical_mount(local.mount_path@) != canonical_mount(live.mount_path@) || local.size
        != live.size
}

/// The disk block after a pull: the live volume where there is one, and
/// otherwise the block as it was.
pub open spec fn disk_after(
    local: Option<DiskConfig>,
    fetched: Result<Option<DiskConfig>, Failure>,
) -> Option<DiskConfig> {
    match fetched {
        Ok(Some(live)) => Some(live),
        _ => local,
    }
}

/// The warning of a pull: a local edit was replaced, or the volumes could not
/// be listed. None in JSON mode.
pub open spec fn disk_warning_of(
    local: Option<DiskConfig>,
    fetched: Result<Option<DiskConfig>, Failure>,
    json: bool,
) -> Option<Seq<char>> {
    if json {
        None
    } else {
        match fetched {
            Ok(Some(live)) => match local {
                Some(d) => if diverges(d, live) {
                    Some(
                        "local disk block ("@ + decimal_of(d.size as nat) + " GB at "@
                            + d.mount_path@ + ") replaced with the live volume ("@ + decimal_of(
                            live.size as nat,
                        ) + " GB at "@ + live.mount_path@
                            + "); re-edit '.partiri.jsonc' and run 'partiri storage update' to change it."@,
                    )
                } else {
                    None
                },
                None => None,
            },
            Ok(None) => None,
            Err(e) => Some(
                "could not refresh disk info from storage: "@ + error_text(e@)
                    + "; left the disk block unchanged."@,
            ),
        }
    }
}

/// Take the live volume over into the disk block. A block is never erased: no
/// volume, or a listing that failed, leaves it as it is. Returns the warning
/// to print.
pub fn apply_live_disk(
    config: &mut PartiriConfig,
    fetched: Result<Option<DiskConfig>, Failure>,
    ctx: Ctx,
) -> (r: Option<String>)
    ensures
        *final(config) == (PartiriConfig {
            service: ServiceConfig {
                disk: disk_after(old(config).service.disk, fetched),
                ..old(config).service
            },
            ..*old(config)
        }),
        opt_view(r) == disk_warning_of(old(config).service.disk, fetched, ctx.json),
{
    match fetched {
        Ok(Some(live)) => {
            let warning = match &config.service.disk {
                Some(local) => {
                    let differ = local.size != live.size || !str_eq(
                        canonical_mount_path(local.mount_path.as_str()),
                        canonical_mount_path(live.mount_path.as_str()),
                    );
                    if differ && !ctx.json {
                        let a = decimal(local.size as u64);
                        let b = decimal(live.size as u64);
                        let mut out = cat7(
                            "local disk block (",
                            a.as_str(),
                            " GB at ",
                            local.mount_path.as_str(),
                            ") replaced with the live volume (",
                            b.as_str(),
                            " GB at ",
                        );
                        out.append(live.mount_path.as_str());
                        out.append(
                            "); re-edit '.partiri.jsonc' and run 'partiri storage update' to change it.",
                        );
                        Some(out)
                    } else {
                        None
                    }
                },
                None => None,
            };
            config.service.disk = Some(live);
            warning
        },
        Ok(None) => None,
        Err(e) => {
            if ctx.json {
                None
            } else {
                let why = e.to_text();
                Some(
                    cat3(
                        "could not refresh disk info from storage: ",
                        why.as_str(),
                        "; left the disk block unchanged.",
                    ),
                )
            }
        },
    }
}

/// An explicit pull over a configuration that has an id: `deploy_tag` and the
/// disk block are refreshed, all else stays.
pub fn refresh_existing(
    existing: PartiriConfig,
    service: &Service,
    fetched: Result<Option<DiskConfig>, Failure>,
    ctx: Ctx,
) -> (r: (PartiriConfig, Option<String>))
    ensures
        r.0 == (PartiriConfig {
            deploy_tag: service.deploy_tag,
            service: ServiceConfig {
                disk: disk_after(existing.service.disk, fetched),
                ..existing.service
            },
            ..existing
        }),
        opt_view(r.1) == disk_warning_of(existing.service.disk, fetched, ctx.json),
{
    let mut refreshed = existing;
    refreshed.deploy_tag = clone_opt(&service.deploy_tag);
    let warning = apply_live_disk(&mut refreshed, fetched, ctx);
    (refreshed, warning)
}

/// The disk block of the service's live volume, given the volumes of the
/// project. A listing that failed stays an error: it says nothing about the
/// volume.
pub fn fetch_service_disk(volumes: Result<Vec<Volume>, Failure>, service_id: &str) -> (r: Result<
    Option<DiskConfig>,
    Failure,
>)
    ensures
        match volumes {
            Err(e) => r == Err::<Option<DiskConfig>, Failure>(e),
            Ok(v) => r is Ok && match service_volume(v@, service_id@) {
                Some(vol) => r->Ok_0 is Some && r->Ok_0->0.mount_path == vol.mount_path
                    && r->Ok_0->0.size == vol.size,
                None => r->Ok_0 is None,
            },
        },
{
    match volumes {
        Ok(v) => match find_service_volume(v.as_slice(), service_id) {
            Some(vol) => Ok(Some(disk_from_volume(vol))),
            None => Ok(None),
        },
        Err(e) => Err(e),
    }
}

/// The error for a configuration that belongs to another service.
pub open spec fn other_service_error(over: Option<Seq<char>>, id: Option<String>) -> CliErrorView {
    validation_hint_of(
        config_display_of(over) + " already belongs to a different service ("@ + (match id {
            Some(i) => i@,
            None => "no id"@,
        }) + ")."@,
        "Pass -y to overwrite it, or use --config to target another path."@,
    )
}

/// The error for a file that is there and is no configuration.
pub open spec fn unparsed_error(over: Option<Seq<char>>) -> CliErrorView {
    validation_hint_of(
        config_display_of(over) + " exists but could not be parsed and will be replaced."@,
        "Pass -y to replace it, or fix the file manually and re-run."@,
    )
}

/// Whether a pull may replace the file: `existing` is the configuration in it,
/// none where it does not parse. The configuration of the same service may
/// always be replaced, any other only with `-y`.
pub fn overwrite_guard(
    path_exists: bool,
    existing: Option<&PartiriConfig>,
    requested_id: &str,
    yes: bool,
    over: &ConfigOverride,
) -> (r: Result<(), Failure>)
    ensures
        r is Ok <==> !path_exists || yes || (existing is Some && opt_view(existing->0.id) == Some(
            requested_id@,
        )),
        r is Err ==> r->Err_0@ == FailureView::Cli(
            match existing {
                Some(c) => other_service_error(over@, c.id),
                None => unparsed_error(over@),
            },
        ),
{
    if !path_exists {
        return Ok(());
    }
    match existing {
        Some(cfg) => {
            let same = match &cfg.id {
                Some(id) => str_eq(id.as_str(), requested_id),
                None => false,
            };
            if same || yes {
                return Ok(());
            }
            let shown = config_display(over);
            let id = match &cfg.id {
                Some(id) => id.as_str(),
                None => "no id",
            };
            let message = crate::text::cat4(
                shown.as_str(),
                " already belongs to a different service (",
                id,
                ").",
            );
            Err(
                validation_error_with_hint(
                    message.as_str(),
                    "Pass -y to overwrite it, or use --config to target another path.",
                ),
            )
        },
        None => {
            if yes {
                return Ok(());
            }
            let shown = config_display(over);
            let message = cat2(
                shown.as_str(),
                " exists but could not be parsed and will be replaced.",
            );
            Err(
                validation_error_with_hint(
                    message.as_str(),
                    "Pass -y to replace it, or fix the file manually and re-run.",
                ),
            )
        },
    }
}

/// Why a service cannot be made a configuration.
pub open spec fn mapping_problem(svc: Service) -> Option<FailureView> {
    if primary_region_of(svc) is None || primary_region_of(svc)->0.len() == 0 {
        Some(FailureView::Text("Pulled service is missing a primary region replica"@))
    } else if svc.fk_pod is None || svc.fk_pod->0@.len() == 0 {
        Some(FailureView::Text("Pulled service is missing fk_pod"@))
    } else {
        None
    }
}

/// The configuration of a service: its fields, with defaults for those that
/// are absent, and without disk or environment.
pub open spec fn is_config_of(
    c: PartiriConfig,
    svc: Service,
    id: String,
    fk_workspace: String,
    fk_project: String,
) -> bool {
    &&& c.id == Some(id)
    &&& c.deploy_tag == svc.deploy_tag
    &&& c.fk_workspace == match svc.fk_workspace {
        Some(w) => w,
        None => fk_workspace,
    }
    &&& c.fk_project == match svc.fk_project {
        Some(p) => p,
        None => fk_project,
    }
    &&& c.service.name == svc.name
    &&& c.service.deploy_type == svc.deploy_type
    &&& c.service.runtime == svc.runtime
    &&& c.service.root_path@ == match svc.root_path {
        Some(p) => p@,
        None => "."@,
    }
    &&& c.service.repository_url == svc.repository_url
    &&& c.service.repository_branch == svc.repository_branch
    &&& c.service.registry_url == svc.registry_url
    &&& c.service.fk_service_secret == svc.fk_service_secret
    &&& c.service.build_path == svc.build_path
    &&& c.service.build_command == svc.build_command
    &&& c.service.pre_deploy_command == svc.pre_deploy_command
    &&& c.service.run_command == svc.run_command
    &&& c.service.fk_region@ == primary_region_of(svc)->0
    &&& Some(c.service.fk_pod) == svc.fk_pod
    &&& c.service.health_check_path == svc.health_check_path
    &&& c.service.disk is None
    &&& c.service.maintenance_mode == match svc.maintenance_mode {
        Some(b) => b,
        None => false,
    }
    &&& c.service.active == match svc.active {
        Some(b) => b,
        None => true,
    }
    &&& c.service.env is None
}

/// The configuration of a service. The workspace and the project that are
/// given stand in where the service does not name them.
pub fn map_to_config(svc: Service, id: String, fk_workspace: String, fk_project: String) -> (r:
    Result<PartiriConfig, Failure>)
    ensures
        r is Ok <==> mapping_problem(svc) is None,
        r is Ok ==> is_config_of(r->Ok_0, svc, id, fk_workspace, fk_project),
        r is Err ==> r->Err_0@ == mapping_problem(svc)->0,
{
    let fk_region = match svc.primary_region() {
        Some(region) => {
            if region.is_empty() {
                return Err(text_error("Pulled service is missing a primary region replica"));
            }
            region.to_owned()
        },
        None => {
            return Err(text_error("Pulled service is missing a primary region replica"));
        },
    };
    let fk_pod = match svc.fk_pod {
        Some(pod) => {
            if pod.as_str().is_empty() {
                return Err(text_error("Pulled service is missing fk_pod"));
            }
            pod
        },
        None => {
            return Err(text_error("Pulled service is missing fk_pod"));
        },
    };
    let workspace = match svc.fk_workspace {
        Some(w) => w,
        None => fk_workspace,
    };
    let project = match svc.fk_project {
        Some(p) => p,
        None => fk_project,
    };
    let root_path = match svc.root_path {
        Some(p) => p,
        None => ".".to_owned(),
    };
    let maintenance_mode = match svc.maintenance_mode {
        Some(b) => b,
        None => false,
    };
    let active = match svc.active {
        Some(b) => b,
        None => true,
    };
    Ok(
        PartiriConfig {
            id: Some(id),
            deploy_tag: svc.deploy_tag,
            fk_workspace: workspace,
            fk_project: project,
            service: ServiceConfig {
                name: svc.name,
                deploy_type: svc.deploy_type,
                runtime: svc.runtime,
                root_path,
                repository_url: svc.repository_url,
                repository_branch: svc.repository_branch,
                registry_url: svc.registry_url,
                fk_service_secret: svc.fk_service_secret,
                build_path: svc.build_path,
                build_command: svc.build_command,
                pre_deploy_command: svc.pre_deploy_command,
                run_command: svc.run_command,
                fk_region,
                fk_pod,
                health_check_path: svc.health_check_path,
                maintenance_mode,
                active,
                disk: None,
                env: None,
            },
        },
    )
}

/// The error for a service that names no workspace or no project.
pub open spec fn unplaced_error() -> CliErrorView {
    validation_hint_of(
        "Pulled service did not include its workspace/project UUIDs."@,
        "Run 'partiri -j llm context' to find them, then use the interactive 'partiri service pull'."@,
    )
}

/// Whether a service names both its workspace and its project.
pub open spec fn is_placed(svc: Service) -> bool {
    &&& svc.fk_workspace is Some && svc.fk_workspace->0@.len() > 0
    &&& svc.fk_project is Some && svc.fk_project->0@.len() > 0
}

/// `service pull --service <UUID>`: the configuration of the service that was
/// fetched, before its disk is filled in.
pub fn run_by_id(service: Service, service_id: &str) -> (r: Result<PartiriConfig, Failure>)
    ensures
        r is Ok <==> mapping_problem(service) is None && is_placed(service),
        r is Ok ==> exists|id: String, w: String, p: String|
            id@ == service_id@ && #[trigger] is_config_of(r->Ok_0, service, id, w, p),
        mapping_problem(service) matches Some(e) ==> r->Err_0@ == e,
        mapping_problem(service) is None && !is_placed(service) ==> r->Err_0@ == FailureView::Cli(
            unplaced_error(),
        ),
{
    let ghost svc = service;
    let id = service_id.to_owned();
    let ghost gid = id;
    let none_w = String::new();
    let none_p = String::new();
    let config = match map_to_config(service, id, none_w, none_p) {
        Ok(c) => c,
        Err(e) => {
            return Err(e);
        },
    };
    if config.fk_workspace.as_str().is_empty() || config.fk_project.as_str().is_empty() {
        return Err(
            validation_error_with_hint(
                "Pulled service did not include its workspace/project UUIDs.",
                "Run 'partiri -j llm context' to find them, then use the interactive 'partiri service pull'.",
            ),
        );
    }
    assert(is_config_of(config, svc, gid, none_w, none_p));
    Ok(config)
}

/// How an interactive `service pull` goes on.
#[derive(Debug)]
pub enum PullPlan {
    /// Refresh this configuration in place.
    Refresh(PartiriConfig),
    /// Stop with this error.
    Refuse(Failure),
    /// Ask before the file is replaced, then pick the service.
    ConfirmThenSelect(String),
    /// Pick the service.
    Select,
}

/// The error for a pull that would have to prompt.
pub open spec fn pull_needs_id_error(over: Option<Seq<char>>) -> CliErrorView {
    let path = config_display_of(over);
    validation_hint_of(
        "service pull in non-interactive mode needs an existing "@ + path + " with `id` set."@,
        "From a TTY, run 'partiri service pull' interactively. From an agent, write `"@ + path
            + "` with `id` set (e.g. via 'partiri llm context' to find the service UUID), then re-run."@,
    )
}

/// `service pull` without a service id, given the configuration that was
/// loaded and whether its file exists.
pub fn run(
    loaded: Option<PartiriConfig>,
    path_exists: bool,
    ctx: Ctx,
    over: &ConfigOverride,
) -> (r: PullPlan)
    ensures
        loaded is Some && loaded->0.id is Some ==> r == PullPlan::Refresh(loaded->0),
        !(loaded is Some && loaded->0.id is Some) ==> {
            if ctx.no_input {
                r is Refuse && r->Refuse_0@ == FailureView::Cli(pull_needs_id_error(over@))
            } else if path_exists {
                r is ConfirmThenSelect && r->ConfirmThenSelect_0@ == config_display_of(over@)
                    + " already exists. Replace it with the pulled service?"@
            } else {
                r is Select
            }
        },
{
    match loaded {
        Some(c) => {
            if c.id.is_some() {
                return PullPlan::Refresh(c);
            }
        },
        None => {},
    }
    let path = config_display(over);
    if ctx.no_input {
        let message = cat3(
            "service pull in non-interactive mode needs an existing ",
            path.as_str(),
            " with `id` set.",
        );
        let hint = cat3(
            "From a TTY, run 'partiri service pull' interactively. From an agent, write `",
            path.as_str(),
            "` with `id` set (e.g. via 'partiri llm context' to find the service UUID), then re-run.",
        );
        return PullPlan::Refuse(validation_error_with_hint(message.as_str(), hint.as_str()));
    }
    if path_exists {
        return PullPlan::ConfirmThenSelect(
            cat2(path.as_str(), " already exists. Replace it with the pulled service?"),
        );
    }
    PullPlan::Select
}

/// The workspaces to pick from.
pub fn offered_workspaces(workspaces: &Vec<Workspace>) -> (r: Result<Vec<String>, Failure>)
    ensures
        r is Ok <==> workspaces@.len() > 0,
        r is Ok ==> views(r->Ok_0@) == workspaces@.map_values(|w: Workspace| workspace_label(w)),
        r is Err ==> r->Err_0@ == FailureView::Text("No workspaces found for this API key."@),
{
    if workspaces.len() == 0 {
        return Err(text_error("No workspaces found for this API key."));
    }
    Ok(workspace_labels(workspaces))
}

/// The projects to pick from.
pub fn offered_projects(projects: &Vec<Project>) -> (r: Result<Vec<String>, Failure>)
    ensures
        r is Ok <==> projects@.len() > 0,
        r is Ok ==> views(r->Ok_0@) == projects@.map_values(|p: Project| project_label(p)),
        r is Err ==> r->Err_0@ == FailureView::Text("No projects found in the selected workspace."@),
{
    if projects.len() == 0 {
        return Err(text_error("No projects found in the selected workspace."));
    }
    Ok(project_labels(projects))
}

pub open spec fn service_label(s: Service) -> Seq<char> {
    s.name@ + " ["@ + s.deploy_type@ + "] ("@ + s.id@ + ")"@
}

/// The services to pick from.
pub fn offered_services(services: &Vec<Service>) -> (r: Result<Vec<String>, Failure>)
    ensures
        r is Ok <==> services@.len() > 0,
        r is Ok ==> views(r->Ok_0@) == services@.map_values(|s: Service| service_label(s)),
        r is Err ==> r->Err_0@ == FailureView::Text("No services found in the selected project."@),
{
    if services.len() == 0 {
        return Err(text_error("No services found in the selected project."));
    }
    let mut labels: Vec<String> = Vec::new();
    for i in 0..services.len()
        invariant
            labels@.len() == i,
            forall|k: int| 0 <= k < i ==> (#[trigger] labels@[k])@ == service_label(services@[k]),
    {
        let s = &services[i];
        let mut label = cat5(s.name.as_str(), " [", s.deploy_type.as_str(), "] (", s.id.as_str());
        label.append(")");
        labels.push(label);
    }
    assert(views(labels@) =~= services@.map_values(|s: Service| service_label(s)));
    Ok(labels)
}

/// The position of the label that was picked. No label is an aborted prompt;
/// `what` names the kind of thing that was offered.
pub fn picked(labels: &Vec<String>, choice: Option<String>, what: &str) -> (r: Result<
    usize,
    Failure,
>)
    ensures
        r is Ok <==> choice is Some && label_index(views(labels@), choice->0@, 0) < labels@.len(),
        r is Ok ==> r->Ok_0 as int == label_index(views(labels@), choice->0@, 0),
        r is Ok ==> r->Ok_0 < labels@.len(),
        choice is None ==> r->Err_0@ == FailureView::Text("Cancelled."@),
        choice is Some && r is Err ==> r->Err_0@ == FailureView::Text(
            "Selected "@ + what@ + " not found in list"@,
        ),
{
    match choice {
        Some(label) => match crate::common::select_by_label(labels, Ok(label)) {
            Ok(i) => Ok(i),
            Err(_) => Err(Failure::Text(cat3("Selected ", what, " not found in list"))),
        },
        None => Err(text_error("Cancelled.")),
    }
}

/// The report on a configuration that was refreshed.
pub fn updated_report(over: &ConfigOverride) -> (r: Report)
    ensures
        r@ == message_only(config_display_of(over@) + " updated."@),
{
    let path = config_display(over);
    report(cat2(path.as_str(), " updated."))
}

/// The report on a configuration that was written.
pub fn saved_report(over: &ConfigOverride) -> (r: Report)
    ensures
        r@ == message_only(config_display_of(over@) + " saved."@),
{
    let path = config_display(over);
    report(cat2(path.as_str(), " saved."))
}

// ─── Laws ──────────────────────────────────────────────────────────────────

/// A block that is there is never erased by a pull.
pub proof fn pull_never_erases_a_disk(
    local: Option<DiskConfig>,
    fetched: Result<Option<DiskConfig>, Failure>,
)
    ensures
        local is Some ==> disk_after(local, fetched) is Some,
        fetched is Err ==> disk_after(local, fetched) == local,
{
}

/// A configuration made from a service never carries environment variables or
/// a disk.
pub proof fn pulled_config_is_bare(
    c: PartiriConfig,
    svc: Service,
    id: String,
    w: String,
    p: String,
)
    requires
        is_config_of(c, svc, id, w, p),
    ensures
        c.service.env is None,
        c.service.disk is None,
{
}

} // verus!
