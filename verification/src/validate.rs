//! `partiri validate`: check the local configuration, and with `--remote` also
//! that what it names exists, belongs together and can be reached.
use vstd::prelude::*;
use vstd::string::*;

use crate::client::{
    plain, query, with_secret, ApiClient, ApiRequest, HealthCheckResult, Method, Pod, Project,
    Region, RequestView, Service, Workspace,
};
use crate::config::{
    checks_of, config_display, config_display_of, given, is_valid, outcomes, validate_config,
    ConfigOverride, PartiriConfig, ValidationView,
};
use crate::error::{error_text, validation_error_with_hint, validation_hint_of};
use crate::error::{CliErrorView, Failure, FailureView};
use crate::text::{
    cat2, cat3, cat5, decimal, decimal_of, list_contains, opt_str, opt_view, starts_with, str_eq,
    views,
};

verus! {

/// How a check came out. Only a failure fails the command.
#[derive(Debug, Clone, Copy, PartialEq, Eq, Structural)]
pub enum Status {
    Pass,
    Warn,
    Fail,
}

/// The outcome of one check.
#[derive(Debug)]
pub struct CheckRow {
    pub field: String,
    pub status: Status,
    pub message: String,
}

pub ghost struct RowView {
    pub field: Seq<char>,
    pub status: Status,
    pub message: Seq<char>,
}

impl View for CheckRow {
    type V = RowView;

    open spec fn view(&self) -> RowView {
        RowView { field: self.field@, status: self.status, message: self.message@ }
    }
}

/// What a list of rows says.
pub open spec fn rows_view(v: Seq<CheckRow>) -> Seq<RowView> {
    v.map_values(|r: CheckRow| r@)
}

pub open spec fn ok_row(field: Seq<char>, message: Seq<char>) -> RowView {
    RowView { field, status: Status::Pass, message }
}

pub open spec fn warn_row(field: Seq<char>, message: Seq<char>) -> RowView {
    RowView { field, status: Status::Warn, message }
}

pub open spec fn fail_row(field: Seq<char>, message: Seq<char>) -> RowView {
    RowView { field, status: Status::Fail, message }
}

/// A row as it is printed.
#[derive(Debug)]
pub struct ValidationRow {
    pub field: String,
    pub status: String,
    pub message: String,
}

pub open spec fn status_text(s: Status, json: bool) -> Seq<char> {
    match s {
        Status::Pass => if json {
            "ok"@
        } else {
            "✓"@
        },
        Status::Warn => if json {
            "warn"@
        } else {
            "!"@
        },
        Status::Fail => if json {
            "fail"@
        } else {
            "✗"@
        },
    }
}

impl CheckRow {
    pub fn ok(field: &str, message: &str) -> (r: CheckRow)
        ensures
            r@ == ok_row(field@, message@),
    {
        CheckRow { field: field.to_owned(), status: Status::Pass, message: message.to_owned() }
    }

    pub fn warn(field: &str, message: &str) -> (r: CheckRow)
        ensures
            r@ == warn_row(field@, message@),
    {
        CheckRow { field: field.to_owned(), status: Status::Warn, message: message.to_owned() }
    }

    pub fn fail(field: &str, message: &str) -> (r: CheckRow)
        ensures
            r@ == fail_row(field@, message@),
    {
        CheckRow { field: field.to_owned(), status: Status::Fail, message: message.to_owned() }
    }

    pub fn is_fail(&self) -> (r: bool)
        ensures
            r == (self@.status == Status::Fail),
    {
        match self.status {
            Status::Fail => true,
            _ => false,
        }
    }

    /// The row as it is printed, without colours.
    pub fn into_row(self, json: bool) -> (r: ValidationRow)
        ensures
            r.field == self.field,
            r.status@ == status_text(self.status, json),
            r.message == self.message,
    {
        let status = match self.status {
            Status::Pass => if json {
                "ok"
            } else {
                "✓"
            },
            Status::Warn => if json {
                "warn"
            } else {
                "!"
            },
            Status::Fail => if json {
                "fail"
            } else {
                "✗"
            },
        };
        ValidationRow { field: self.field, status: status.to_owned(), message: self.message }
    }
}

/// Whether some row is a failure.
pub open spec fn has_failure(rows: Seq<RowView>) -> bool {
    exists|i: int| 0 <= i < rows.len() && (#[trigger] rows[i]).status == Status::Fail
}

fn any_fail(rows: &Vec<CheckRow>) -> (r: bool)
    ensures
        r == has_failure(rows_view(rows@)),
{
    for i in 0..rows.len()
        invariant
            forall|k: int| 0 <= k < i ==> (#[trigger] rows_view(rows@)[k]).status != Status::Fail,
    {
        assert(rows_view(rows@)[i as int] == rows@[i as int]@);
        if rows[i].is_fail() {
            return true;
        }
    }
    false
}

// ─── Local checks ──────────────────────────────────────────────────────────

/// The row of a field check: its message only where it fails.
pub open spec fn static_row(v: ValidationView) -> RowView {
    if v.ok {
        ok_row(v.field, ""@)
    } else {
        fail_row(v.field, v.message)
    }
}

pub open spec fn static_rows(c: PartiriConfig) -> Seq<RowView> {
    checks_of(c).map_values(|v: ValidationView| static_row(v))
}

/// The rows of the field checks.
pub fn static_check_rows(config: &PartiriConfig) -> (r: Vec<CheckRow>)
    ensures
        rows_view(r@) == static_rows(*config),
{
    let results = validate_config(config);
    let ghost all = checks_of(*config);
    let mut rows: Vec<CheckRow> = Vec::new();
    for i in 0..results.len()
        invariant
            outcomes(results@) == all,
            rows@.len() == i,
            forall|k: int| 0 <= k < i ==> (#[trigger] rows@[k])@ == static_row(all[k]),
    {
        assert(all[i as int] == results@[i as int]@);
        if results[i].ok {
            rows.push(CheckRow::ok(results[i].field.as_str(), ""));
        } else {
            rows.push(CheckRow::fail(results[i].field.as_str(), results[i].message.as_str()));
        }
    }
    assert(rows_view(rows@) =~= static_rows(*config));
    rows
}

/// The error of `validate` where a check fails.
pub open spec fn local_error() -> CliErrorView {
    validation_hint_of(
        "Config validation failed. Fix the errors above and try again."@,
        "Run 'partiri llm next' to see the recommended next step."@,
    )
}

/// `validate`: the rows, and the message of success or the error.
pub fn run(config: &PartiriConfig, over: &ConfigOverride) -> (r: (
    Vec<CheckRow>,
    Result<String, Failure>,
))
    ensures
        rows_view(r.0@) == static_rows(*config),
        r.1 is Ok <==> is_valid(*config),
        r.1 is Ok ==> r.1->Ok_0@ == config_display_of(over@) + " is valid"@,
        r.1 is Err ==> r.1->Err_0@ == FailureView::Cli(local_error()),
{
    let rows = static_check_rows(config);
    proof {
        valid_means_no_failure(*config);
    }
    if any_fail(&rows) {
        return (
            rows,
            Err(
                validation_error_with_hint(
                    "Config validation failed. Fix the errors above and try again.",
                    "Run 'partiri llm next' to see the recommended next step.",
                ),
            ),
        );
    }
    let path = config_display(over);
    (rows, Ok(cat2(path.as_str(), " is valid")))
}

/// The local rows hold a failure exactly where the configuration is not valid.
pub proof fn valid_means_no_failure(c: PartiriConfig)
    ensures
        has_failure(static_rows(c)) <==> !is_valid(c),
{
    let rows = static_rows(c);
    let all = checks_of(c);
    if !is_valid(c) {
        let i = choose|i: int| 0 <= i < all.len() && !(#[trigger] all[i]).ok;
        assert(rows[i].status == Status::Fail);
    }
    if has_failure(rows) {
        let i = choose|i: int| 0 <= i < rows.len() && (#[trigger] rows[i]).status == Status::Fail;
        assert(!all[i].ok);
    }
}

// ─── Remote checks ─────────────────────────────────────────────────────────

/// The balance of a workspace: whether it is at or below zero, and its amount
/// with two decimals.
#[derive(Debug)]
pub struct Balance {
    pub exhausted: bool,
    pub shown: String,
}

/// What the API answered. The answer to a request that was not made (see
/// [`remote_requests`]) is not looked at.
#[derive(Debug)]
pub struct RemoteAnswers {
    pub workspaces: Result<Vec<Workspace>, Failure>,
    pub projects: Result<Vec<Project>, Failure>,
    pub regions: Result<Vec<Region>, Failure>,
    pub pods: Result<Vec<Pod>, Failure>,
    pub services: Result<Vec<Service>, Failure>,
    pub branches: Result<Vec<String>, Failure>,
    pub registry: Result<bool, Failure>,
    pub balance: Result<Balance, Failure>,
    pub health: Result<HealthCheckResult, Failure>,
}

/// The requests that the remote checks make; none where a check does not
/// apply.
#[derive(Debug)]
pub struct RemoteRequests {
    pub workspaces: ApiRequest,
    pub projects: Option<ApiRequest>,
    pub regions: Option<ApiRequest>,
    pub pods: Option<ApiRequest>,
    pub services: Option<ApiRequest>,
    pub branches: Option<ApiRequest>,
    pub registry: Option<ApiRequest>,
    pub balance: Option<ApiRequest>,
    pub health: Option<ApiRequest>,
}

/// Whether the name has to be unique: only before the service exists.
pub open spec fn checks_name(c: PartiriConfig) -> bool {
    c.id is None && c.fk_project@.len() > 0 && c.service.name@.len() > 0
}

pub open spec fn is_absolute_url(s: Seq<char>) -> bool {
    "http://"@.is_prefix_of(s) || "https://"@.is_prefix_of(s)
}

/// Whether the health check can be probed: only an absolute URL can.
pub open spec fn probes_health(c: PartiriConfig) -> bool {
    given(c.service.health_check_path) && is_absolute_url(c.service.health_check_path->0@)
}

/// The request, where there is one.
pub open spec fn request_view(r: Option<ApiRequest>) -> Option<RequestView> {
    match r {
        Some(x) => Some(x@),
        None => None,
    }
}

/// A request that is made where a condition holds.
pub open spec fn only_if(b: bool, r: RequestView) -> Option<RequestView> {
    if b {
        Some(r)
    } else {
        None
    }
}

fn is_given(o: &Option<String>) -> (r: bool)
    ensures
        r == given(*o),
{
    match o {
        Some(s) => !s.as_str().is_empty(),
        None => false,
    }
}

fn can_probe(config: &PartiriConfig) -> (r: bool)
    ensures
        r == probes_health(*config),
{
    match &config.service.health_check_path {
        Some(p) => !p.as_str().is_empty() && (starts_with(p.as_str(), "http://") || starts_with(
            p.as_str(),
            "https://",
        )),
        None => false,
    }
}

/// The requests of the remote checks.
pub fn remote_requests(config: &PartiriConfig) -> (r: RemoteRequests)
    ensures
        r.workspaces@ == plain(Method::Get, "/workspaces"@),
        request_view(r.projects) == only_if(
            config.fk_workspace@.len() > 0,
            query("/projects"@, seq![("workspace"@, config.fk_workspace@)]),
        ),
        request_view(r.regions) == only_if(
            config.fk_workspace@.len() > 0,
            query("/resources/regions"@, seq![("workspace"@, config.fk_workspace@)]),
        ),
        request_view(r.pods) == only_if(
            config.fk_workspace@.len() > 0,
            query("/resources/pods"@, seq![("workspace"@, config.fk_workspace@)]),
        ),
        request_view(r.services) == only_if(
            checks_name(*config),
            query(
                "/services"@,
                seq![("project"@, config.fk_project@), ("limit"@, decimal_of(50))],
            ),
        ),
        request_view(r.branches) == only_if(
            given(config.service.repository_url),
            query(
                "/resources/utils/git"@,
                with_secret(
                    ("url"@, config.service.repository_url->0@),
                    opt_view(config.service.fk_service_secret),
                ),
            ),
        ),
        request_view(r.registry) == only_if(
            given(config.service.registry_url),
            query(
                "/resources/utils/reg"@,
                with_secret(
                    ("registry_url"@, config.service.registry_url->0@),
                    opt_view(config.service.fk_service_secret),
                ),
            ),
        ),
        request_view(r.balance) == only_if(
            config.fk_workspace@.len() > 0,
            plain(Method::Get, "/balances/"@ + config.fk_workspace@),
        ),
        request_view(r.health) == only_if(
            probes_health(*config),
            query(
                "/resources/utils/health-check"@,
                seq![
                    ("workspace"@, config.fk_workspace@),
                    ("health_check_path"@, config.service.health_check_path->0@),
                ],
            ),
        ),
{
    let ws = config.fk_workspace.as_str();
    let has_ws = !ws.is_empty();
    let svc = &config.service;
    let secret = opt_str(&svc.fk_service_secret);
    let named = config.id.is_none() && !config.fk_project.as_str().is_empty()
        && !svc.name.as_str().is_empty();
    let branches = match &svc.repository_url {
        Some(url) => if url.as_str().is_empty() {
            None
        } else {
            Some(ApiClient::load_repository_branches(url.as_str(), secret))
        },
        None => None,
    };
    let registry = match &svc.registry_url {
        Some(url) => if url.as_str().is_empty() {
            None
        } else {
            Some(ApiClient::validate_registry(url.as_str(), secret))
        },
        None => None,
    };
    let probe = can_probe(config);
    let health = match &svc.health_check_path {
        Some(p) => if probe {
            Some(ApiClient::probe_health_check(ws, p.as_str()))
        } else {
            None
        },
        None => None,
    };
    RemoteRequests {
        workspaces: ApiClient::list_workspaces(),
        projects: if has_ws {
            Some(ApiClient::list_projects(ws))
        } else {
            None
        },
        regions: if has_ws {
            Some(ApiClient::list_regions(ws))
        } else {
            None
        },
        pods: if has_ws {
            Some(ApiClient::list_pods(ws))
        } else {
            None
        },
        services: if named {
            Some(ApiClient::list_services(config.fk_project.as_str(), 50))
        } else {
            None
        },
        branches,
        registry,
        balance: if has_ws {
            Some(ApiClient::get_balance(ws))
        } else {
            None
        },
        health,
    }
}

/// The rows on the workspace.
pub open spec fn workspace_rows(c: PartiriConfig, a: Result<Vec<Workspace>, Failure>) -> Seq<
    RowView,
> {
    let field = "remote.fk_workspace"@;
    match a {
        Ok(v) => if exists|i: int| 0 <= i < v@.len() && (#[trigger] v@[i]).id@ == c.fk_workspace@ {
            seq![ok_row(field, "workspace exists for this API key"@)]
        } else {
            seq![
                fail_row(
                    field,
                    "workspace UUID not found for this API key. Run 'partiri workspaces list' or 'partiri llm context'."@,
                ),
            ]
        },
        Err(e) => seq![fail_row(field, "could not list workspaces: "@ + error_text(e@))],
    }
}

/// The rows on the project.
pub open spec fn project_rows(c: PartiriConfig, a: Result<Vec<Project>, Failure>) -> Seq<RowView> {
    let field = "remote.fk_project"@;
    match a {
        Ok(v) => if exists|i: int| 0 <= i < v@.len() && (#[trigger] v@[i]).id@ == c.fk_project@ {
            seq![ok_row(field, "project exists in this workspace"@)]
        } else {
            seq![
                fail_row(
                    field,
                    "project UUID not in this workspace. Run 'partiri projects list --workspace <UUID>'."@,
                ),
            ]
        },
        Err(e) => seq![fail_row(field, "could not list projects: "@ + error_text(e@))],
    }
}

/// The rows on the region.
pub open spec fn region_rows(c: PartiriConfig, a: Result<Vec<Region>, Failure>) -> Seq<RowView> {
    let field = "remote.fk_region"@;
    let found = a is Ok && exists|i: int|
        0 <= i < a->Ok_0@.len() && (#[trigger] a->Ok_0@[i]).id@ == c.service.fk_region@;
    if found {
        seq![ok_row(field, "region available in this workspace"@)]
    } else {
        seq![
            fail_row(
                field,
                "region UUID not available in this workspace. Run 'partiri regions list --workspace <UUID>'."@,
            ),
        ]
    }
}

/// The rows on the pod.
pub open spec fn pod_rows(c: PartiriConfig, a: Result<Vec<Pod>, Failure>) -> Seq<RowView> {
    let field = "remote.fk_pod"@;
    let found = a is Ok && exists|i: int|
        0 <= i < a->Ok_0@.len() && (#[trigger] a->Ok_0@[i]).id@ == c.service.fk_pod@;
    if found {
        seq![ok_row(field, "pod available in this workspace"@)]
    } else {
        seq![
            fail_row(
                field,
                "pod UUID not available in this workspace. Run 'partiri pods list --workspace <UUID>'."@,
            ),
        ]
    }
}

/// The rows on what has to be in the workspace, where one is named.
pub open spec fn scope_rows(c: PartiriConfig, a: RemoteAnswers) -> Seq<RowView> {
    if c.fk_workspace@.len() == 0 {
        seq![]
    } else {
        project_rows(c, a.projects) + region_rows(c, a.regions) + pod_rows(c, a.pods)
    }
}

/// The rows on the name of a service that does not exist yet.
pub open spec fn name_rows(c: PartiriConfig, a: Result<Vec<Service>, Failure>) -> Seq<RowView> {
    let field = "remote.service_name"@;
    if !checks_name(c) {
        seq![]
    } else {
        match a {
            Ok(v) => if exists|i: int|
                0 <= i < v@.len() && (#[trigger] v@[i]).name@ == c.service.name@ {
                seq![
                    fail_row(
                        field,
                        "another service with this name already exists in the project. Pick a unique name."@,
                    ),
                ]
            } else {
                seq![ok_row(field, "name is unique within the project"@)]
            },
            Err(e) => seq![
                warn_row(field, "could not list project services: "@ + error_text(e@)),
            ],
        }
    }
}

/// The row on the branch, where one is named.
pub open spec fn branch_rows(c: PartiriConfig, branches: Seq<Seq<char>>) -> Seq<RowView> {
    let field = "remote.repository_branch"@;
    if !given(c.service.repository_branch) {
        seq![]
    } else if branches.contains(c.service.repository_branch->0@) {
        seq![ok_row(field, "branch exists in the remote"@)]
    } else {
        seq![
            fail_row(
                field,
                "branch '"@ + c.service.repository_branch->0@ + "' not found in the remote (got "@
                    + decimal_of(branches.len()) + " branches)."@,
            ),
        ]
    }
}

/// The rows on the repository, where the service comes from one.
pub open spec fn repository_rows(c: PartiriConfig, a: Result<Vec<String>, Failure>) -> Seq<RowView> {
    let field = "remote.repository_url"@;
    if !given(c.service.repository_url) {
        seq![]
    } else {
        match a {
            Ok(v) => seq![
                ok_row(field, "reachable ("@ + decimal_of(v@.len()) + " branches)"@),
            ] + branch_rows(c, views(v@)),
            Err(e) => seq![
                fail_row(
                    field,
                    "not reachable: "@ + error_text(e@) + (if c.service.fk_service_secret is None {
                        " — if this is a private repo, set fk_service_secret via 'partiri service token --secret <UUID>'."@
                    } else {
                        ""@
                    }),
                ),
            ],
        }
    }
}

/// The row on the registry, where the service comes from one.
pub open spec fn registry_rows(c: PartiriConfig, a: Result<bool, Failure>) -> Seq<RowView> {
    let field = "remote.registry_url"@;
    if !given(c.service.registry_url) {
        seq![]
    } else {
        match a {
            Ok(_) => seq![ok_row(field, "registry reachable"@)],
            Err(e) => seq![
                fail_row(
                    field,
                    "not reachable: "@ + error_text(e@) + (if c.service.fk_service_secret is None {
                        " — if this image is private, set fk_service_secret via 'partiri service token --secret <UUID>'."@
                    } else {
                        ""@
                    }),
                ),
            ],
        }
    }
}

/// The row on the balance: it warns and never fails.
pub open spec fn balance_rows(c: PartiriConfig, a: Result<Balance, Failure>) -> Seq<RowView> {
    let field = "remote.balance"@;
    if c.fk_workspace@.len() == 0 {
        seq![]
    } else {
        match a {
            Ok(b) => if b.exhausted {
                seq![
                    warn_row(
                        field,
                        "workspace balance is €"@ + b.shown@
                            + " — deploying will fail (402). Top up at https://partiri.cloud/settings/billing"@,
                    ),
                ]
            } else {
                seq![ok_row(field, "workspace balance €"@ + b.shown@)]
            },
            Err(e) => seq![warn_row(field, "could not fetch balance: "@ + error_text(e@))],
        }
    }
}

/// `(status s, attempts n)` of a probe.
pub open spec fn probe_text(status: Seq<char>, attempts: u32) -> Seq<char> {
    " (status "@ + status + ", attempts "@ + decimal_of(attempts as nat) + ")"@
}

/// The row on the health check: it warns and never fails.
pub open spec fn health_rows(c: PartiriConfig, a: Result<HealthCheckResult, Failure>) -> Seq<
    RowView,
> {
    let field = "remote.health_check_path"@;
    if !given(c.service.health_check_path) {
        seq![]
    } else if !probes_health(c) {
        seq![
            warn_row(
                field,
                "relative path — will be resolved at runtime against the deployed service URL; cannot probe before deploy."@,
            ),
        ]
    } else {
        match a {
            Ok(h) => if h.ok {
                seq![
                    ok_row(
                        field,
                        "probe ok"@ + probe_text(
                            decimal_of(
                                match h.status {
                                    Some(s) => s as nat,
                                    None => 0,
                                },
                            ),
                            h.attempts,
                        ),
                    ),
                ]
            } else {
                seq![
                    warn_row(
                        field,
                        "probe non-2xx"@ + probe_text(
                            match h.status {
                                Some(s) => decimal_of(s as nat),
                                None => "n/a"@,
                            },
                            h.attempts,
                        ),
                    ),
                ]
            },
            Err(e) => seq![warn_row(field, "could not probe: "@ + error_text(e@))],
        }
    }
}

/// The rows of all remote checks, in order.
pub open spec fn remote_rows(c: PartiriConfig, a: RemoteAnswers) -> Seq<RowView> {
    workspace_rows(c, a.workspaces) + scope_rows(c, a) + name_rows(c, a.services)
        + repository_rows(c, a.branches) + registry_rows(c, a.registry) + balance_rows(
        c,
        a.balance,
    ) + health_rows(c, a.health)
}

fn has_workspace(v: &Vec<Workspace>, id: &str) -> (r: bool)
    ensures
        r == exists|i: int| 0 <= i < v@.len() && (#[trigger] v@[i]).id@ == id@,
{
    for i in 0..v.len()
        invariant
            forall|k: int| 0 <= k < i ==> (#[trigger] v@[k]).id@ != id@,
    {
        if str_eq(v[i].id.as_str(), id) {
            return true;
        }
    }
    false
}

fn has_project(v: &Vec<Project>, id: &str) -> (r: bool)
    ensures
        r == exists|i: int| 0 <= i < v@.len() && (#[trigger] v@[i]).id@ == id@,
{
    for i in 0..v.len()
        invariant
            forall|k: int| 0 <= k < i ==> (#[trigger] v@[k]).id@ != id@,
    {
        if str_eq(v[i].id.as_str(), id) {
            return true;
        }
    }
    false
}

fn has_region(v: &Vec<Region>, id: &str) -> (r: bool)
    ensures
        r == exists|i: int| 0 <= i < v@.len() && (#[trigger] v@[i]).id@ == id@,
{
    for i in 0..v.len()
        invariant
            forall|k: int| 0 <= k < i ==> (#[trigger] v@[k]).id@ != id@,
    {
        if str_eq(v[i].id.as_str(), id) {
            return true;
        }
    }
    false
}

fn has_pod(v: &Vec<Pod>, id: &str) -> (r: bool)
    ensures
        r == exists|i: int| 0 <= i < v@.len() && (#[trigger] v@[i]).id@ == id@,
{
    for i in 0..v.len()
        invariant
            forall|k: int| 0 <= k < i ==> (#[trigger] v@[k]).id@ != id@,
    {
        if str_eq(v[i].id.as_str(), id) {
            return true;
        }
    }
    false
}

fn has_service_name(v: &Vec<Service>, name: &str) -> (r: bool)
    ensures
        r == exists|i: int| 0 <= i < v@.len() && (#[trigger] v@[i]).name@ == name@,
{
    for i in 0..v.len()
        invariant
            forall|k: int| 0 <= k < i ==> (#[trigger] v@[k]).name@ != name@,
    {
        if str_eq(v[i].name.as_str(), name) {
            return true;
        }
    }
    false
}

fn add_workspace(
    rows: &mut Vec<CheckRow>,
    config: &PartiriConfig,
    answer: &Result<Vec<Workspace>, Failure>,
)
    ensures
        rows_view(final(rows)@) == rows_view(old(rows)@) + workspace_rows(*config, *answer),
{
    let field = "remote.fk_workspace";
    match answer {
        Ok(v) => {
            if has_workspace(v, config.fk_workspace.as_str()) {
                add_row(rows, CheckRow::ok(field, "workspace exists for this API key"));
            } else {
                add_row(
                    rows,
                    CheckRow::fail(
                        field,
                        "workspace UUID not found for this API key. Run 'partiri workspaces list' or 'partiri llm context'.",
                    ),
                );
            }
        },
        Err(e) => {
            let why = e.to_text();
            add_row(
                rows,
                CheckRow::fail(field, cat2("could not list workspaces: ", why.as_str()).as_str()),
            );
        },
    }
}

fn add_scope(rows: &mut Vec<CheckRow>, config: &PartiriConfig, answers: &RemoteAnswers)
    ensures
        rows_view(final(rows)@) == rows_view(old(rows)@) + scope_rows(*config, *answers),
{
    if config.fk_workspace.as_str().is_empty() {
        assert(rows_view(rows@) + scope_rows(*config, *answers) =~= rows_view(rows@));
        return;
    }
    let ghost before = rows_view(rows@);
    match &answers.projects {
        Ok(v) => {
            if has_project(v, config.fk_project.as_str()) {
                add_row(
                    rows,
                    CheckRow::ok("remote.fk_project", "project exists in this workspace"),
                );
            } else {
                add_row(
                    rows,
                    CheckRow::fail(
                        "remote.fk_project",
                        "project UUID not in this workspace. Run 'partiri projects list --workspace <UUID>'.",
                    ),
                );
            }
        },
        Err(e) => {
            let why = e.to_text();
            add_row(
                rows,
                CheckRow::fail(
                    "remote.fk_project",
                    cat2("could not list projects: ", why.as_str()).as_str(),
                ),
            );
        },
    }
    assert(rows_view(rows@) == before + project_rows(*config, answers.projects));
    let region_ok = match &answers.regions {
        Ok(v) => has_region(v, config.service.fk_region.as_str()),
        Err(_) => false,
    };
    if region_ok {
        add_row(rows, CheckRow::ok("remote.fk_region", "region available in this workspace"));
    } else {
        add_row(
            rows,
            CheckRow::fail(
                "remote.fk_region",
                "region UUID not available in this workspace. Run 'partiri regions list --workspace <UUID>'.",
            ),
        );
    }
    let pod_ok = match &answers.pods {
        Ok(v) => has_pod(v, config.service.fk_pod.as_str()),
        Err(_) => false,
    };
    if pod_ok {
        add_row(rows, CheckRow::ok("remote.fk_pod", "pod available in this workspace"));
    } else {
        add_row(
            rows,
            CheckRow::fail(
                "remote.fk_pod",
                "pod UUID not available in this workspace. Run 'partiri pods list --workspace <UUID>'.",
            ),
        );
    }
    assert(rows_view(rows@) =~= before + scope_rows(*config, *answers));
}

fn add_name(
    rows: &mut Vec<CheckRow>,
    config: &PartiriConfig,
    answer: &Result<Vec<Service>, Failure>,
)
    ensures
        rows_view(final(rows)@) == rows_view(old(rows)@) + name_rows(*config, *answer),
{
    let field = "remote.service_name";
    let applies = config.id.is_none() && !config.fk_project.as_str().is_empty()
        && !config.service.name.as_str().is_empty();
    if !applies {
        assert(rows_view(rows@) + name_rows(*config, *answer) =~= rows_view(rows@));
        return;
    }
    match answer {
        Ok(v) => {
            if has_service_name(v, config.service.name.as_str()) {
                add_row(
                    rows,
                    CheckRow::fail(
                        field,
                        "another service with this name already exists in the project. Pick a unique name.",
                    ),
                );
            } else {
                add_row(rows, CheckRow::ok(field, "name is unique within the project"));
            }
        },
        Err(e) => {
            let why = e.to_text();
            add_row(
                rows,
                CheckRow::warn(
                    field,
                    cat2("could not list project services: ", why.as_str()).as_str(),
                ),
            );
        },
    }
}

fn add_branch(rows: &mut Vec<CheckRow>, config: &PartiriConfig, branches: &Vec<String>)
    ensures
        rows_view(final(rows)@) == rows_view(old(rows)@) + branch_rows(*config, views(branches@)),
{
    let field = "remote.repository_branch";
    match &config.service.repository_branch {
        Some(branch) => {
            if branch.as_str().is_empty() {
                assert(rows_view(rows@) + branch_rows(*config, views(branches@)) =~= rows_view(
                    rows@,
                ));
            } else if list_contains(branches, branch.as_str()) {
                add_row(rows, CheckRow::ok(field, "branch exists in the remote"));
            } else {
                let n = decimal(branches.len() as u64);
                add_row(
                    rows,
                    CheckRow::fail(
                        field,
                        cat5(
                            "branch '",
                            branch.as_str(),
                            "' not found in the remote (got ",
                            n.as_str(),
                            " branches).",
                        ).as_str(),
                    ),
                );
            }
        },
        None => {
            assert(rows_view(rows@) + branch_rows(*config, views(branches@)) =~= rows_view(rows@));
        },
    }
}

fn add_repository(
    rows: &mut Vec<CheckRow>,
    config: &PartiriConfig,
    answer: &Result<Vec<String>, Failure>,
)
    ensures
        rows_view(final(rows)@) == rows_view(old(rows)@) + repository_rows(*config, *answer),
{
    let field = "remote.repository_url";
    let ghost before = rows_view(rows@);
    if !is_given(&config.service.repository_url) {
        assert(rows_view(rows@) + repository_rows(*config, *answer) =~= rows_view(rows@));
        return;
    }
    match answer {
        Ok(v) => {
            let n = decimal(v.len() as u64);
            add_row(
                rows,
                CheckRow::ok(field, cat3("reachable (", n.as_str(), " branches)").as_str()),
            );
            add_branch(rows, config, v);
            assert(rows_view(rows@) =~= before + repository_rows(*config, *answer));
        },
        Err(e) => {
            let why = e.to_text();
            let hint = if config.service.fk_service_secret.is_none() {
                " — if this is a private repo, set fk_service_secret via 'partiri service token --secret <UUID>'."
            } else {
                ""
            };
            add_row(
                rows,
                CheckRow::fail(field, cat3("not reachable: ", why.as_str(), hint).as_str()),
            );
        },
    }
}

fn add_registry(rows: &mut Vec<CheckRow>, config: &PartiriConfig, answer: &Result<bool, Failure>)
    ensures
        rows_view(final(rows)@) == rows_view(old(rows)@) + registry_rows(*config, *answer),
{
    let field = "remote.registry_url";
    if !is_given(&config.service.registry_url) {
        assert(rows_view(rows@) + registry_rows(*config, *answer) =~= rows_view(rows@));
        return;
    }
    match answer {
        Ok(_) => {
            add_row(rows, CheckRow::ok(field, "registry reachable"));
        },
        Err(e) => {
            let why = e.to_text();
            let hint = if config.service.fk_service_secret.is_none() {
                " — if this image is private, set fk_service_secret via 'partiri service token --secret <UUID>'."
            } else {
                ""
            };
            add_row(
                rows,
                CheckRow::fail(field, cat3("not reachable: ", why.as_str(), hint).as_str()),
            );
        },
    }
}

fn add_balance(rows: &mut Vec<CheckRow>, config: &PartiriConfig, answer: &Result<Balance, Failure>)
    ensures
        rows_view(final(rows)@) == rows_view(old(rows)@) + balance_rows(*config, *answer),
{
    let field = "remote.balance";
    if config.fk_workspace.as_str().is_empty() {
        assert(rows_view(rows@) + balance_rows(*config, *answer) =~= rows_view(rows@));
        return;
    }
    match answer {
        Ok(b) => {
            if b.exhausted {
                add_row(
                    rows,
                    CheckRow::warn(
                        field,
                        cat3(
                            "workspace balance is €",
                            b.shown.as_str(),
                            " — deploying will fail (402). Top up at https://partiri.cloud/settings/billing",
                        ).as_str(),
                    ),
                );
            } else {
                add_row(
                    rows,
                    CheckRow::ok(field, cat2("workspace balance €", b.shown.as_str()).as_str()),
                );
            }
        },
        Err(e) => {
            let why = e.to_text();
            add_row(
                rows,
                CheckRow::warn(field, cat2("could not fetch balance: ", why.as_str()).as_str()),
            );
        },
    }
}

fn probe_note(what: &str, status: &str, attempts: u32) -> (r: String)
    ensures
        r@ == what@ + probe_text(status@, attempts),
{
    let n = decimal(attempts as u64);
    let tail = cat5(" (status ", status, ", attempts ", n.as_str(), ")");
    cat2(what, tail.as_str())
}

fn add_health(
    rows: &mut Vec<CheckRow>,
    config: &PartiriConfig,
    answer: &Result<HealthCheckResult, Failure>,
)
    ensures
        rows_view(final(rows)@) == rows_view(old(rows)@) + health_rows(*config, *answer),
{
    let field = "remote.health_check_path";
    if !is_given(&config.service.health_check_path) {
        assert(rows_view(rows@) + health_rows(*config, *answer) =~= rows_view(rows@));
        return;
    }
    if !can_probe(config) {
        add_row(
            rows,
            CheckRow::warn(
                field,
                "relative path — will be resolved at runtime against the deployed service URL; cannot probe before deploy.",
            ),
        );
        return;
    }
    match answer {
        Ok(h) => {
            if h.ok {
                let status = decimal(
                    match h.status {
                        Some(s) => s as u64,
                        None => 0,
                    },
                );
                add_row(
                    rows,
                    CheckRow::ok(
                        field,
                        probe_note("probe ok", status.as_str(), h.attempts).as_str(),
                    ),
                );
            } else {
                let status = match h.status {
                    Some(s) => decimal(s as u64),
                    None => "n/a".to_owned(),
                };
                add_row(
                    rows,
                    CheckRow::warn(
                        field,
                        probe_note("probe non-2xx", status.as_str(), h.attempts).as_str(),
                    ),
                );
            }
        },
        Err(e) => {
            let why = e.to_text();
            add_row(
                rows,
                CheckRow::warn(field, cat2("could not probe: ", why.as_str()).as_str()),
            );
        },
    }
}

fn add_row(rows: &mut Vec<CheckRow>, row: CheckRow)
    ensures
        rows_view(final(rows)@) == rows_view(old(rows)@) + seq![row@],
{
    rows.push(row);
    assert(rows_view(rows@) =~= rows_view(old(rows)@) + seq![row@]);
}

fn add_remote(rows: &mut Vec<CheckRow>, config: &PartiriConfig, answers: &RemoteAnswers)
    ensures
        rows_view(final(rows)@) == rows_view(old(rows)@) + remote_rows(*config, *answers),
{
    let ghost before = rows_view(rows@);
    add_workspace(rows, config, &answers.workspaces);
    add_scope(rows, config, answers);
    add_name(rows, config, &answers.services);
    add_repository(rows, config, &answers.branches);
    add_registry(rows, config, &answers.registry);
    add_balance(rows, config, &answers.balance);
    add_health(rows, config, &answers.health);
    assert(rows_view(rows@) =~= before + remote_rows(*config, *answers));
}

/// The rows of the remote checks alone.
pub fn collect_remote_checks(config: &PartiriConfig, answers: &RemoteAnswers) -> (r: Vec<CheckRow>)
    ensures
        rows_view(r@) == remote_rows(*config, *answers),
{
    let mut rows: Vec<CheckRow> = Vec::new();
    assert(rows_view(rows@) =~= seq![]);
    add_remote(&mut rows, config, answers);
    assert(rows_view(rows@) =~= remote_rows(*config, *answers));
    rows
}

/// The error of `validate --remote` where a check fails.
pub open spec fn remote_error() -> CliErrorView {
    validation_hint_of(
        "Remote validation failed. Fix the failures above and re-run."@,
        "Run 'partiri llm next' or 'partiri llm doctor' for next-step suggestions."@,
    )
}

/// `validate --remote`: the local rows and then the remote ones, and the
/// message of success or the error.
pub fn run_remote(config: &PartiriConfig, answers: &RemoteAnswers) -> (r: (
    Vec<CheckRow>,
    Result<String, Failure>,
))
    ensures
        rows_view(r.0@) == static_rows(*config) + remote_rows(*config, *answers),
        r.1 is Ok <==> !has_failure(static_rows(*config) + remote_rows(*config, *answers)),
        r.1 is Ok ==> r.1->Ok_0@ == "all remote checks passed"@,
        r.1 is Err ==> r.1->Err_0@ == FailureView::Cli(remote_error()),
{
    let mut rows = static_check_rows(config);
    add_remote(&mut rows, config, answers);
    if any_fail(&rows) {
        return (
            rows,
            Err(
                validation_error_with_hint(
                    "Remote validation failed. Fix the failures above and re-run.",
                    "Run 'partiri llm next' or 'partiri llm doctor' for next-step suggestions.",
                ),
            ),
        );
    }
    (rows, Ok("all remote checks passed".to_owned()))
}

// ─── Laws ──────────────────────────────────────────────────────────────────

/// Neither the balance nor the health check ever fails the validation.
pub proof fn balance_and_health_never_fail(
    c: PartiriConfig,
    b: Result<Balance, Failure>,
    h: Result<HealthCheckResult, Failure>,
)
    ensures
        !has_failure(balance_rows(c, b)),
        !has_failure(health_rows(c, h)),
{
}

/// A workspace whose balance is used up gets a warning.
pub proof fn exhausted_balance_warns(c: PartiriConfig, b: Balance)
    requires
        c.fk_workspace@.len() > 0,
        b.exhausted,
    ensures
        balance_rows(c, Ok(b)).len() == 1,
        balance_rows(c, Ok(b))[0].status == Status::Warn,
{
}

/// Where the local checks pass, validation fails only by a failing remote row.
pub proof fn remote_adds_to_local(c: PartiriConfig, a: RemoteAnswers)
    ensures
        has_failure(static_rows(c) + remote_rows(c, a)) <==> !is_valid(c) || has_failure(
            remote_rows(c, a),
        ),
{
    valid_means_no_failure(c);
    let x = static_rows(c);
    let y = remote_rows(c, a);
    let all = x + y;
    if has_failure(x) {
        let i = choose|i: int| 0 <= i < x.len() && (#[trigger] x[i]).status == Status::Fail;
        assert(all[i] == x[i]);
    }
    if has_failure(y) {
        let i = choose|i: int| 0 <= i < y.len() && (#[trigger] y[i]).status == Status::Fail;
        assert(all[x.len() + i] == y[i]);
    }
    if has_failure(all) {
        let i = choose|i: int| 0 <= i < all.len() && (#[trigger] all[i]).status == Status::Fail;
        if i < x.len() {
            assert(x[i] == all[i]);
        } else {
            assert(y[i - x.len()] == all[i]);
        }
    }
}

} // verus!
