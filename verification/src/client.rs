//! The API: the records that it returns, the requests that each operation
//! sends, and what a response comes to (success, retry or error).
use vstd::prelude::*;
use vstd::string::*;

use crate::config::{ConfigOverride, EnvVar, ServiceConfig};
use crate::error::{bare, enriched_of, hinted};
use crate::error::{CliError, CliErrorView, Failure, FailureView};
use crate::json::{array_view, items_view, json_view, member_string};
use crate::json::{parse_json, parsed_json};
use crate::json::{Json, JsonView};
use crate::text::{
    byte_len, cat2, cat3, cat4, chars_of, decimal, decimal_of, len_in_bytes, len_utf8, parse_number,
    parsed_number, starts_with,
};

verus! {

// ─── Records ───────────────────────────────────────────────────────────────

/// A workspace: the boundary of billing and ownership.
#[derive(Debug)]
pub struct Workspace {
    pub id: String,
    pub name: String,
    /// Owner email; only on the user's primary workspace.
    pub email: Option<String>,
}

/// A project: a group of services within a workspace.
#[derive(Debug)]
pub struct Project {
    pub id: String,
    pub name: String,
    /// `dev`, `staging` or `prod`.
    pub environment: String,
    pub fk_workspace: Option<String>,
}

/// An environment variable of a service.
#[derive(Debug)]
pub struct ApiEnvVar {
    pub key: String,
    pub value: String,
}

/// A regional replica of a service.
#[derive(Debug)]
pub struct ServiceReplica {
    pub id: String,
    pub fk_region: String,
    /// Whether this is the home region.
    pub is_primary: bool,
}

/// A service. Its region is that of the primary replica; lists of services
/// come without replicas. The `db_*` fields are set on databases.
#[derive(Debug)]
pub struct Service {
    pub id: String,
    pub name: String,
    pub deploy_type: String,
    pub runtime: String,
    pub external_sd_url: Option<String>,
    pub internal_sd_url: Option<String>,
    pub repository_url: Option<String>,
    pub repository_branch: Option<String>,
    pub registry_url: Option<String>,
    pub fk_service_secret: Option<String>,
    pub root_path: Option<String>,
    pub build_path: Option<String>,
    pub build_command: Option<String>,
    pub pre_deploy_command: Option<String>,
    pub run_command: Option<String>,
    pub fk_pod: Option<String>,
    pub fk_project: Option<String>,
    pub fk_workspace: Option<String>,
    pub replicas: Option<Vec<ServiceReplica>>,
    pub health_check_path: Option<String>,
    pub maintenance_mode: Option<bool>,
    pub active: Option<bool>,
    pub env: Option<Vec<ApiEnvVar>>,
    pub deploy_tag: Option<String>,
    pub created_at: Option<String>,
    pub updated_at: Option<String>,
    pub db_type: Option<String>,
    pub db_version: Option<String>,
    pub db_name: Option<String>,
    pub db_user: Option<String>,
}

/// The first primary replica at or after `from`, or the number of replicas.
pub open spec fn primary_index(v: Seq<ServiceReplica>, from: int) -> int
    decreases v.len() - from,
{
    if from >= v.len() {
        v.len() as int
    } else if v[from].is_primary {
        from
    } else {
        primary_index(v, from + 1)
    }
}

/// The region of the first primary replica.
pub open spec fn primary_region_of(s: Service) -> Option<Seq<char>> {
    match s.replicas {
        Some(v) => if primary_index(v@, 0) < v@.len() {
            Some(v@[primary_index(v@, 0)].fk_region@)
        } else {
            None
        },
        None => None,
    }
}

impl Service {
    /// The region of the primary replica, where there is one.
    pub fn primary_region(&self) -> (r: Option<&str>)
        ensures
            crate::text::opt_str_view(r) == primary_region_of(*self),
    {
        match &self.replicas {
            Some(v) => {
                let mut i: usize = 0;
                while i < v.len() && !v[i].is_primary
                    invariant
                        i <= v@.len(),
                        primary_index(v@, 0) == primary_index(v@, i as int),
                    decreases v@.len() - i,
                {
                    i += 1;
                }
                if i < v.len() {
                    Some(v[i].fk_region.as_str())
                } else {
                    None
                }
            },
            None => None,
        }
    }
}

/// A log line.
#[derive(Debug)]
pub struct LogLine {
    pub timestamp: String,
    pub message: String,
}

/// The answer of the logs endpoint, oldest line first.
#[derive(Debug)]
pub struct LogsResponse {
    pub logs: Vec<LogLine>,
}

/// A job of a service: deploy, pause, unpause or kill.
#[derive(Debug)]
pub struct Job {
    pub id: String,
    pub fk_service: String,
    pub job_type: String,
    /// `open`, `in_progress`, `succeeded`, `failed`, `timed_out` or `canceled`.
    pub status: String,
    pub deploy_ref: Option<String>,
    pub created_at: Option<String>,
    pub updated_at: Option<String>,
}

/// One page of jobs.
#[derive(Debug)]
pub struct PaginatedJobs {
    pub data: Vec<Job>,
    pub total: usize,
}

impl PaginatedJobs {
    /// The jobs of the page.
    pub fn jobs(self) -> (r: Vec<Job>)
        ensures
            r == self.data,
    {
        self.data
    }
}

/// A compute pod: a size of CPU and RAM.
#[derive(Debug)]
pub struct Pod {
    pub id: String,
    pub name: String,
    pub label: Option<String>,
    pub cpu: Option<String>,
    pub ram: Option<String>,
}

/// A region.
#[derive(Debug)]
pub struct Region {
    pub id: String,
    pub name: String,
    pub label: Option<String>,
    pub country_code: Option<String>,
}

/// A secret, without its data.
#[derive(Debug)]
pub struct WorkspaceSecret {
    pub id: String,
    pub name: Option<String>,
    pub provider: Option<String>,
}

/// A secret that was created.
#[derive(Debug)]
pub struct CreatedSecret {
    pub id: String,
    pub name: Option<String>,
    pub provider: Option<String>,
    pub secret_type: Option<String>,
}

/// The monthly prices of a region, in euros. `P` is the type that prices are
/// computed in.
#[derive(Debug)]
pub struct RegionPricing<P> {
    pub pods: Vec<PodPrice<P>>,
    /// Per GB of persistent storage.
    pub volume_price_per_gb: P,
}

/// The price of one pod.
#[derive(Debug)]
pub struct PodPrice<P> {
    pub fk_pod: String,
    pub price: P,
    pub per_minute: P,
}

/// A persistent volume.
#[derive(Debug)]
pub struct Volume {
    /// Absent until the API has assigned one.
    pub id: Option<String>,
    /// A DNS label of at most 53 characters.
    pub name: String,
    pub fk_project: String,
    pub fk_workspace: String,
    pub fk_region: String,
    /// The service that the volume is attached to.
    pub fk_service: Option<String>,
    pub mount_path: String,
    /// Size in GB.
    pub size: u32,
    /// `pending`, `provisioning`, `available`, `attached`, `deleting` or
    /// `failed`.
    pub status: String,
    pub created_at: Option<String>,
}

/// The result of a health-check probe.
#[derive(Debug)]
pub struct HealthCheckResult {
    pub status: Option<u16>,
    pub ok: bool,
    pub error: bool,
    pub attempts: u32,
}

/// A change of a volume: only the fields that change.
#[derive(Debug)]
pub struct VolumeUpdate {
    pub size: Option<u32>,
    pub mount_path: Option<String>,
}

impl VolumeUpdate {
    /// Whether nothing changes.
    pub fn is_empty(&self) -> (r: bool)
        ensures
            r == (self.size is None && self.mount_path is None),
    {
        self.size.is_none() && self.mount_path.is_none()
    }
}

/// One replica of a new database.
#[derive(Debug)]
pub struct ReplicaBody {
    pub fk_region: String,
    pub is_primary: bool,
}

/// A new database.
#[derive(Debug)]
pub struct CreateDatabaseBody {
    pub name: String,
    pub deploy_type: String,
    pub runtime: String,
    pub db_type: String,
    pub db_version: String,
    pub db_name: String,
    pub db_user: String,
    pub db_password: String,
    pub db_disk_size: u32,
    pub fk_project: String,
    pub fk_region: String,
    pub fk_pod: String,
    pub replicas: Vec<ReplicaBody>,
    pub root_path: String,
    pub env: Vec<EnvVar>,
    pub maintenance_mode: bool,
    pub active: bool,
}

// ─── Requests ──────────────────────────────────────────────────────────────

/// The HTTP methods that the API uses.
#[derive(Debug, Clone, Copy, PartialEq, Eq, Structural)]
pub enum Method {
    Get,
    Post,
    Put,
    Patch,
    Delete,
}

/// A request: method, path below the base URL, query parameters and body.
#[derive(Debug)]
pub struct ApiRequest {
    pub method: Method,
    pub path: String,
    pub query: Vec<(String, String)>,
    pub body: Option<Json>,
}

pub ghost struct RequestView {
    pub method: Method,
    pub path: Seq<char>,
    pub query: Seq<(Seq<char>, Seq<char>)>,
    pub body: Option<JsonView>,
}

impl View for ApiRequest {
    type V = RequestView;

    open spec fn view(&self) -> RequestView {
        RequestView {
            method: self.method,
            path: self.path@,
            query: self.query@.map_values(|p: (String, String)| (p.0@, p.1@)),
            body: match self.body {
                Some(j) => Some(j@),
                None => None,
            },
        }
    }
}

/// A request without parameters or body.
pub open spec fn plain(method: Method, path: Seq<char>) -> RequestView {
    RequestView { method, path, query: seq![], body: None }
}

/// A request with a body.
pub open spec fn with_body(method: Method, path: Seq<char>, body: JsonView) -> RequestView {
    RequestView { method, path, query: seq![], body: Some(body) }
}

/// A `GET` with query parameters.
pub open spec fn query(path: Seq<char>, params: Seq<(Seq<char>, Seq<char>)>) -> RequestView {
    RequestView { method: Method::Get, path, query: params, body: None }
}

pub open spec fn empty_object() -> JsonView {
    JsonView::Obj(seq![])
}

fn plain_request(method: Method, path: &str) -> (r: ApiRequest)
    ensures
        r@ == plain(method, path@),
{
    let r = ApiRequest { method, path: path.to_owned(), query: Vec::new(), body: None };
    assert(r@.query =~= seq![]);
    r
}

fn body_request(method: Method, path: &str, body: Json) -> (r: ApiRequest)
    ensures
        r@ == with_body(method, path@, body@),
{
    let r = ApiRequest { method, path: path.to_owned(), query: Vec::new(), body: Some(body) };
    assert(r@.query =~= seq![]);
    r
}

fn query_request(path: &str, key: &str, value: &str) -> (r: ApiRequest)
    ensures
        r@ == query(path@, seq![(key@, value@)]),
{
    let mut params: Vec<(String, String)> = Vec::new();
    params.push((key.to_owned(), value.to_owned()));
    let r = ApiRequest { method: Method::Get, path: path.to_owned(), query: params, body: None };
    assert(r@.query =~= seq![(key@, value@)]);
    r
}

impl ApiRequest {
    /// The request with one more query parameter at the end.
    fn and(self, key: &str, value: &str) -> (r: ApiRequest)
        ensures
            r@ == (RequestView { query: self@.query.push((key@, value@)), ..self@ }),
    {
        let mut params = self.query;
        let ghost before = self@.query;
        params.push((key.to_owned(), value.to_owned()));
        let r = ApiRequest { method: self.method, path: self.path, query: params, body: self.body };
        assert(r@.query =~= before.push((key@, value@)));
        r
    }
}

/// A member that is left out when there is no value.
pub open spec fn opt_member(key: Seq<char>, o: Option<String>) -> Seq<(Seq<char>, JsonView)> {
    match o {
        Some(s) => seq![(key, JsonView::Str(s@))],
        None => seq![],
    }
}

fn with_opt(j: Json, key: &str, o: &Option<String>) -> (r: Json)
    requires
        j@ is Obj,
    ensures
        r@ == JsonView::Obj(j@->Obj_0 + opt_member(key@, *o)),
{
    match o {
        Some(s) => {
            assert(j@->Obj_0 + opt_member(key@, *o) =~= j@->Obj_0.push(
                (key@, JsonView::Str(s@)),
            ));
            j.with(key, Json::Str(s.clone()))
        },
        None => {
            assert(j@->Obj_0 + opt_member(key@, *o) =~= j@->Obj_0);
            j
        },
    }
}

pub open spec fn env_var_json(key: Seq<char>, value: Seq<char>) -> JsonView {
    JsonView::Obj(seq![("key"@, JsonView::Str(key)), ("value"@, JsonView::Str(value))])
}

/// The environment, left out when it is not to be touched.
pub open spec fn env_member(env: Option<Vec<EnvVar>>) -> Seq<(Seq<char>, JsonView)> {
    match env {
        Some(v) => seq![
            ("env"@, JsonView::Arr(v@.map_values(|e: EnvVar| env_var_json(e.key@, e.value@)))),
        ],
        None => seq![],
    }
}

/// The members of a service in a request: the fields that the user manages,
/// without those that are absent. The disk is a resource of its own and is
/// never among them.
pub open spec fn service_members(s: ServiceConfig) -> Seq<(Seq<char>, JsonView)> {
    seq![
        ("name"@, JsonView::Str(s.name@)),
        ("deploy_type"@, JsonView::Str(s.deploy_type@)),
        ("runtime"@, JsonView::Str(s.runtime@)),
        ("root_path"@, JsonView::Str(s.root_path@)),
    ] + opt_member("repository_url"@, s.repository_url) + opt_member(
        "repository_branch"@,
        s.repository_branch,
    ) + opt_member("registry_url"@, s.registry_url) + opt_member(
        "fk_service_secret"@,
        s.fk_service_secret,
    ) + opt_member("build_path"@, s.build_path) + opt_member("build_command"@, s.build_command)
        + opt_member("pre_deploy_command"@, s.pre_deploy_command) + opt_member(
        "run_command"@,
        s.run_command,
    ) + seq![
        ("fk_region"@, JsonView::Str(s.fk_region@)),
        ("fk_pod"@, JsonView::Str(s.fk_pod@)),
    ] + opt_member("health_check_path"@, s.health_check_path) + seq![
        ("maintenance_mode"@, JsonView::Bool(s.maintenance_mode)),
        ("active"@, JsonView::Bool(s.active)),
    ] + env_member(s.env)
}

fn env_json(v: &Vec<EnvVar>) -> (r: Json)
    ensures
        r@ == JsonView::Arr(v@.map_values(|e: EnvVar| env_var_json(e.key@, e.value@))),
{
    let mut out: Vec<Json> = Vec::new();
    for i in 0..v.len()
        invariant
            out@.len() == i,
            forall|k: int|
                0 <= k < i ==> json_view(#[trigger] out@[k]) == env_var_json(
                    v@[k].key@,
                    v@[k].value@,
                ),
    {
        let item = Json::object().with("key", Json::str(v[i].key.as_str())).with(
            "value",
            Json::str(v[i].value.as_str()),
        );
        assert(item@->Obj_0 =~= env_var_json(v@[i as int].key@, v@[i as int].value@)->Obj_0);
        out.push(item);
    }
    proof {
        array_view(out);
        assert(items_view(out@) =~= v@.map_values(|e: EnvVar| env_var_json(e.key@, e.value@)));
    }
    Json::Arr(out)
}

/// The body of a service update.
pub fn service_json(s: &ServiceConfig) -> (r: Json)
    ensures
        r@ == JsonView::Obj(service_members(*s)),
{
    let head = Json::object().with("name", Json::str(s.name.as_str())).with(
        "deploy_type",
        Json::str(s.deploy_type.as_str()),
    ).with("runtime", Json::str(s.runtime.as_str())).with(
        "root_path",
        Json::str(s.root_path.as_str()),
    );
    proof {
        assert(head@->Obj_0 =~= seq![
            ("name"@, JsonView::Str(s.name@)),
            ("deploy_type"@, JsonView::Str(s.deploy_type@)),
            ("runtime"@, JsonView::Str(s.runtime@)),
            ("root_path"@, JsonView::Str(s.root_path@)),
        ]);
    }
    let a = with_opt(head, "repository_url", &s.repository_url);
    let b = with_opt(a, "repository_branch", &s.repository_branch);
    let c = with_opt(b, "registry_url", &s.registry_url);
    let d = with_opt(c, "fk_service_secret", &s.fk_service_secret);
    let e = with_opt(d, "build_path", &s.build_path);
    let f = with_opt(e, "build_command", &s.build_command);
    let g = with_opt(f, "pre_deploy_command", &s.pre_deploy_command);
    let h = with_opt(g, "run_command", &s.run_command);
    let ghost upto_run = h@->Obj_0;
    let i = h.with("fk_region", Json::str(s.fk_region.as_str())).with(
        "fk_pod",
        Json::str(s.fk_pod.as_str()),
    );
    assert(i@->Obj_0 =~= upto_run + seq![
        ("fk_region"@, JsonView::Str(s.fk_region@)),
        ("fk_pod"@, JsonView::Str(s.fk_pod@)),
    ]);
    let j = with_opt(i, "health_check_path", &s.health_check_path);
    let ghost upto_health = j@->Obj_0;
    let k = j.with("maintenance_mode", Json::Bool(s.maintenance_mode)).with(
        "active",
        Json::Bool(s.active),
    );
    assert(k@->Obj_0 =~= upto_health + seq![
        ("maintenance_mode"@, JsonView::Bool(s.maintenance_mode)),
        ("active"@, JsonView::Bool(s.active)),
    ]);
    match &s.env {
        Some(v) => {
            assert(service_members(*s) =~= k@->Obj_0.push(env_member(s.env)[0]));
            k.with("env", env_json(v))
        },
        None => {
            assert(service_members(*s) =~= k@->Obj_0);
            k
        },
    }
}

/// The body of a new volume: absent fields are left out, so that the API can
/// assign the id.
pub open spec fn volume_members(v: Volume) -> Seq<(Seq<char>, JsonView)> {
    opt_member("id"@, v.id) + seq![
        ("name"@, JsonView::Str(v.name@)),
        ("fk_project"@, JsonView::Str(v.fk_project@)),
        ("fk_workspace"@, JsonView::Str(v.fk_workspace@)),
        ("fk_region"@, JsonView::Str(v.fk_region@)),
    ] + opt_member("fk_service"@, v.fk_service) + seq![
        ("mount_path"@, JsonView::Str(v.mount_path@)),
        ("size"@, JsonView::Num(decimal_of(v.size as nat))),
        ("status"@, JsonView::Str(v.status@)),
    ] + opt_member("created_at"@, v.created_at)
}

pub fn volume_body(v: &Volume) -> (r: Json)
    ensures
        r@ == JsonView::Obj(volume_members(*v)),
{
    let a = with_opt(Json::object(), "id", &v.id);
    let ghost first = a@->Obj_0;
    assert(first =~= opt_member("id"@, v.id));
    let b = a.with("name", Json::str(v.name.as_str())).with(
        "fk_project",
        Json::str(v.fk_project.as_str()),
    ).with("fk_workspace", Json::str(v.fk_workspace.as_str())).with(
        "fk_region",
        Json::str(v.fk_region.as_str()),
    );
    assert(b@->Obj_0 =~= first + seq![
        ("name"@, JsonView::Str(v.name@)),
        ("fk_project"@, JsonView::Str(v.fk_project@)),
        ("fk_workspace"@, JsonView::Str(v.fk_workspace@)),
        ("fk_region"@, JsonView::Str(v.fk_region@)),
    ]);
    let c = with_opt(b, "fk_service", &v.fk_service);
    let ghost third = c@->Obj_0;
    let d = c.with("mount_path", Json::str(v.mount_path.as_str())).with(
        "size",
        Json::num(v.size as u64),
    ).with("status", Json::str(v.status.as_str()));
    assert(d@->Obj_0 =~= third + seq![
        ("mount_path"@, JsonView::Str(v.mount_path@)),
        ("size"@, JsonView::Num(decimal_of(v.size as nat))),
        ("status"@, JsonView::Str(v.status@)),
    ]);
    with_opt(d, "created_at", &v.created_at)
}

pub open spec fn replica_json(x: ReplicaBody) -> JsonView {
    JsonView::Obj(
        seq![
            ("fk_region"@, JsonView::Str(x.fk_region@)),
            ("is_primary"@, JsonView::Bool(x.is_primary)),
        ],
    )
}

/// The body of a new database.
pub open spec fn database_members(b: CreateDatabaseBody) -> Seq<(Seq<char>, JsonView)> {
    seq![
        ("name"@, JsonView::Str(b.name@)),
        ("deploy_type"@, JsonView::Str(b.deploy_type@)),
        ("runtime"@, JsonView::Str(b.runtime@)),
        ("db_type"@, JsonView::Str(b.db_type@)),
        ("db_version"@, JsonView::Str(b.db_version@)),
        ("db_name"@, JsonView::Str(b.db_name@)),
        ("db_user"@, JsonView::Str(b.db_user@)),
        ("db_password"@, JsonView::Str(b.db_password@)),
        ("db_disk_size"@, JsonView::Num(decimal_of(b.db_disk_size as nat))),
        ("fk_project"@, JsonView::Str(b.fk_project@)),
        ("fk_region"@, JsonView::Str(b.fk_region@)),
        ("fk_pod"@, JsonView::Str(b.fk_pod@)),
        ("replicas"@, JsonView::Arr(b.replicas@.map_values(|x: ReplicaBody| replica_json(x)))),
        ("root_path"@, JsonView::Str(b.root_path@)),
        (
            "env"@,
            JsonView::Arr(b.env@.map_values(|e: EnvVar| env_var_json(e.key@, e.value@))),
        ),
        ("maintenance_mode"@, JsonView::Bool(b.maintenance_mode)),
        ("active"@, JsonView::Bool(b.active)),
    ]
}

fn replicas_json(v: &Vec<ReplicaBody>) -> (r: Json)
    ensures
        r@ == JsonView::Arr(v@.map_values(|x: ReplicaBody| replica_json(x))),
{
    let mut out: Vec<Json> = Vec::new();
    for i in 0..v.len()
        invariant
            out@.len() == i,
            forall|k: int| 0 <= k < i ==> json_view(#[trigger] out@[k]) == replica_json(v@[k]),
    {
        let item = Json::object().with("fk_region", Json::str(v[i].fk_region.as_str())).with(
            "is_primary",
            Json::Bool(v[i].is_primary),
        );
        assert(item@->Obj_0 =~= replica_json(v@[i as int])->Obj_0);
        out.push(item);
    }
    proof {
        array_view(out);
        assert(items_view(out@) =~= v@.map_values(|x: ReplicaBody| replica_json(x)));
    }
    Json::Arr(out)
}

pub fn database_body(b: &CreateDatabaseBody) -> (r: Json)
    ensures
        r@ == JsonView::Obj(database_members(*b)),
{
    let r = Json::object().with("name", Json::str(b.name.as_str())).with(
        "deploy_type",
        Json::str(b.deploy_type.as_str()),
    ).with("runtime", Json::str(b.runtime.as_str())).with(
        "db_type",
        Json::str(b.db_type.as_str()),
    ).with("db_version", Json::str(b.db_version.as_str())).with(
        "db_name",
        Json::str(b.db_name.as_str()),
    ).with("db_user", Json::str(b.db_user.as_str())).with(
        "db_password",
        Json::str(b.db_password.as_str()),
    ).with("db_disk_size", Json::num(b.db_disk_size as u64)).with(
        "fk_project",
        Json::str(b.fk_project.as_str()),
    ).with("fk_region", Json::str(b.fk_region.as_str())).with(
        "fk_pod",
        Json::str(b.fk_pod.as_str()),
    ).with("replicas", replicas_json(&b.replicas)).with(
        "root_path",
        Json::str(b.root_path.as_str()),
    ).with("env", env_json(&b.env)).with(
        "maintenance_mode",
        Json::Bool(b.maintenance_mode),
    ).with("active", Json::Bool(b.active));
    assert(r@->Obj_0 =~= database_members(*b));
    r
}

/// The body of a volume change: only the fields that change.
pub open spec fn update_members(u: VolumeUpdate) -> Seq<(Seq<char>, JsonView)> {
    (match u.size {
        Some(n) => seq![("size"@, JsonView::Num(decimal_of(n as nat)))],
        None => seq![],
    }) + opt_member("mount_path"@, u.mount_path)
}

pub fn update_body(u: &VolumeUpdate) -> (r: Json)
    ensures
        r@ == JsonView::Obj(update_members(*u)),
{
    let a = match u.size {
        Some(n) => Json::object().with("size", Json::num(n as u64)),
        None => Json::object(),
    };
    proof {
        match u.size {
            Some(n) => {
                assert(a@->Obj_0 =~= seq![("size"@, JsonView::Num(decimal_of(n as nat)))]);
            },
            None => {},
        }
    }
    with_opt(a, "mount_path", &u.mount_path)
}

// ─── The client ────────────────────────────────────────────────────────────

/// The base URL used when none is configured.
pub const DEFAULT_API_URL: &'static str = "https://api.partiri.cloud";

/// The request timeout, in seconds, used when none is configured.
pub const DEFAULT_TIMEOUT: u64 = 30;

/// How often a rate-limited request is sent again.
pub const MAX_RETRIES: u32 = 3;

/// What the client is set up with.
#[derive(Debug)]
pub struct ApiClient {
    pub base_url: String,
    pub api_key: String,
    pub timeout_secs: u64,
}

pub open spec fn base_url_of(url: Option<String>) -> Seq<char> {
    match url {
        Some(u) => u@,
        None => DEFAULT_API_URL@,
    }
}

pub open spec fn timeout_of(timeout: Option<String>) -> nat {
    match timeout {
        Some(t) => match parsed_number(t@, u64::MAX as nat) {
            Some(n) => n,
            None => DEFAULT_TIMEOUT as nat,
        },
        None => DEFAULT_TIMEOUT as nat,
    }
}

/// The request that enqueues a job of a service.
pub open spec fn job_request(action: Seq<char>, id: Seq<char>) -> RequestView {
    with_body(Method::Post, "/jobs/services/"@ + action + "/"@ + id, empty_object())
}

/// A `GET` of `path`, scoped to a deploy tag where there is one.
pub open spec fn tagged(path: Seq<char>, tag: Option<Seq<char>>) -> RequestView {
    match tag {
        Some(t) => query(path, seq![("deployTag"@, t)]),
        None => plain(Method::Get, path),
    }
}

/// Query parameters with the id of a secret at the end, where there is one.
pub open spec fn with_secret(
    first: (Seq<char>, Seq<char>),
    secret: Option<Seq<char>>,
) -> Seq<(Seq<char>, Seq<char>)> {
    match secret {
        Some(id) => seq![first, ("id"@, id)],
        None => seq![first],
    }
}

fn with_optional_secret(r: ApiRequest, secret: Option<&str>) -> (out: ApiRequest)
    requires
        r@.query.len() == 1,
    ensures
        out@ == (RequestView {
            query: with_secret(r@.query[0], crate::text::opt_str_view(secret)),
            ..r@
        }),
{
    let ghost first = r@.query[0];
    match secret {
        Some(id) => {
            assert(r@.query.push(("id"@, id@)) =~= seq![first, ("id"@, id@)]);
            r.and("id", id)
        },
        None => {
            assert(r@.query =~= seq![first]);
            r
        },
    }
}

impl ApiClient {
    /// Set up a client from the stored key and the two environment variables,
    /// each as it was found. Without a key, or with a base URL that is not
    /// HTTPS, there is no client.
    pub fn new(api_key: Option<String>, url: Option<String>, timeout: Option<String>) -> (r: Result<
        ApiClient,
        Failure,
    >)
        ensures
            api_key is None ==> r is Err && r->Err_0@ == FailureView::Text(
                "No API key found.\n  Run 'partiri auth login' to sign in."@,
            ),
            api_key is Some && !"https://"@.is_prefix_of(base_url_of(url)) ==> r is Err
                && r->Err_0@ == FailureView::Text(
                "PARTIRI_API_URL must use HTTPS. Got: "@ + base_url_of(url),
            ),
            api_key is Some && "https://"@.is_prefix_of(base_url_of(url)) ==> r is Ok && ({
                let c = r->Ok_0;
                &&& c.api_key == api_key->0
                &&& c.base_url@ == base_url_of(url)
                &&& c.timeout_secs == timeout_of(timeout)
            }),
    {
        let key = match api_key {
            Some(k) => k,
            None => {
                return Err(
                    crate::error::text_error(
                        "No API key found.\n  Run 'partiri auth login' to sign in.",
                    ),
                );
            },
        };
        let base_url = match url {
            Some(u) => u,
            None => DEFAULT_API_URL.to_owned(),
        };
        if !starts_with(base_url.as_str(), "https://") {
            return Err(
                Failure::Text(cat2("PARTIRI_API_URL must use HTTPS. Got: ", base_url.as_str())),
            );
        }
        let timeout_secs: u64 = match timeout {
            Some(t) => match parse_number(t.as_str(), u64::MAX) {
                Some(n) => n,
                None => DEFAULT_TIMEOUT,
            },
            None => DEFAULT_TIMEOUT,
        };
        Ok(ApiClient { base_url, api_key: key, timeout_secs })
    }

    /// The URL of a path.
    pub fn url(&self, path: &str) -> (r: String)
        ensures
            r@ == self.base_url@ + path@,
    {
        cat2(self.base_url.as_str(), path)
    }

    /// Every workspace that the key can use.
    pub fn list_workspaces() -> (r: ApiRequest)
        ensures
            r@ == plain(Method::Get, "/workspaces"@),
    {
        plain_request(Method::Get, "/workspaces")
    }

    /// The projects of a workspace.
    pub fn list_projects(workspace_id: &str) -> (r: ApiRequest)
        ensures
            r@ == query("/projects"@, seq![("workspace"@, workspace_id@)]),
    {
        query_request("/projects", "workspace", workspace_id)
    }

    /// A new project.
    pub fn create_project(name: &str, environment: &str, workspace_id: &str) -> (r: ApiRequest)
        ensures
            r@ == with_body(
                Method::Post,
                "/projects"@,
                JsonView::Obj(
                    seq![
                        ("name"@, JsonView::Str(name@)),
                        ("environment"@, JsonView::Str(environment@)),
                        ("fk_workspace"@, JsonView::Str(workspace_id@)),
                    ],
                ),
            ),
    {
        let body = Json::object().with("name", Json::str(name)).with(
            "environment",
            Json::str(environment),
        ).with("fk_workspace", Json::str(workspace_id));
        assert(body@->Obj_0 =~= seq![
            ("name"@, JsonView::Str(name@)),
            ("environment"@, JsonView::Str(environment@)),
            ("fk_workspace"@, JsonView::Str(workspace_id@)),
        ]);
        body_request(Method::Post, "/projects", body)
    }

    /// The regions of a workspace.
    pub fn list_regions(workspace_id: &str) -> (r: ApiRequest)
        ensures
            r@ == query("/resources/regions"@, seq![("workspace"@, workspace_id@)]),
    {
        query_request("/resources/regions", "workspace", workspace_id)
    }

    /// The compute pods of a workspace.
    pub fn list_pods(workspace_id: &str) -> (r: ApiRequest)
        ensures
            r@ == query("/resources/pods"@, seq![("workspace"@, workspace_id@)]),
    {
        query_request("/resources/pods", "workspace", workspace_id)
    }

    /// The services of a project, at most `limit` of them.
    pub fn list_services(project_id: &str, limit: usize) -> (r: ApiRequest)
        ensures
            r@ == query(
                "/services"@,
                seq![("project"@, project_id@), ("limit"@, decimal_of(limit as nat))],
            ),
    {
        let n = decimal(limit as u64);
        let r = query_request("/services", "project", project_id).and("limit", n.as_str());
        assert(r@.query =~= seq![("project"@, project_id@), ("limit"@, decimal_of(limit as nat))]);
        r
    }

    /// The registry secrets of a workspace.
    pub fn list_registry_secrets(workspace_id: &str) -> (r: ApiRequest)
        ensures
            r@ == plain(Method::Get, "/workspaces/secrets/registry/"@ + workspace_id@),
    {
        plain_request(Method::Get, cat2("/workspaces/secrets/registry/", workspace_id).as_str())
    }

    /// The repository secrets of a workspace.
    pub fn list_repository_secrets(workspace_id: &str) -> (r: ApiRequest)
        ensures
            r@ == plain(Method::Get, "/workspaces/secrets/repository/"@ + workspace_id@),
    {
        plain_request(Method::Get, cat2("/workspaces/secrets/repository/", workspace_id).as_str())
    }

    /// Ask the API to probe a registry, with a stored secret where one is named.
    pub fn validate_registry(registry_url: &str, secret_id: Option<&str>) -> (r: ApiRequest)
        ensures
            r@ == query(
                "/resources/utils/reg"@,
                with_secret(
                    ("registry_url"@, registry_url@),
                    crate::text::opt_str_view(secret_id),
                ),
            ),
    {
        with_optional_secret(
            query_request("/resources/utils/reg", "registry_url", registry_url),
            secret_id,
        )
    }

    /// Ask the API for the branches of a repository, with a stored secret where
    /// one is named.
    pub fn load_repository_branches(url: &str, secret_id: Option<&str>) -> (r: ApiRequest)
        ensures
            r@ == query(
                "/resources/utils/git"@,
                with_secret(("url"@, url@), crate::text::opt_str_view(secret_id)),
            ),
    {
        with_optional_secret(query_request("/resources/utils/git", "url", url), secret_id)
    }

    /// Ask the API to probe a health-check URL.
    pub fn probe_health_check(workspace_id: &str, health_check_path: &str) -> (r: ApiRequest)
        ensures
            r@ == query(
                "/resources/utils/health-check"@,
                seq![
                    ("workspace"@, workspace_id@),
                    ("health_check_path"@, health_check_path@),
                ],
            ),
    {
        let r = query_request("/resources/utils/health-check", "workspace", workspace_id).and(
            "health_check_path",
            health_check_path,
        );
        assert(r@.query =~= seq![
            ("workspace"@, workspace_id@),
            ("health_check_path"@, health_check_path@),
        ]);
        r
    }

    /// A new service.
    pub fn create_service(service: &ServiceConfig, project_id: &str, workspace_id: &str) -> (r:
        ApiRequest)
        ensures
            r@ == with_body(
                Method::Post,
                "/services"@,
                JsonView::Obj(
                    service_members(*service).push(
                        ("fk_project"@, JsonView::Str(project_id@)),
                    ).push(("fk_workspace"@, JsonView::Str(workspace_id@))),
                ),
            ),
    {
        let body = service_json(service).with("fk_project", Json::str(project_id)).with(
            "fk_workspace",
            Json::str(workspace_id),
        );
        body_request(Method::Post, "/services", body)
    }

    /// A new database: a service with the database fields.
    pub fn create_database(body: &CreateDatabaseBody) -> (r: ApiRequest)
        ensures
            r@ == with_body(Method::Post, "/services"@, JsonView::Obj(database_members(*body))),
    {
        body_request(Method::Post, "/services", database_body(body))
    }

    /// One service.
    pub fn read_service(id: &str) -> (r: ApiRequest)
        ensures
            r@ == plain(Method::Get, "/services/"@ + id@),
    {
        plain_request(Method::Get, cat2("/services/", id).as_str())
    }

    /// `GET path`, scoped to a deploy tag where there is one.
    pub fn get_with_optional_tag(path: &str, deploy_tag: Option<&str>) -> (r: ApiRequest)
        ensures
            r@ == tagged(path@, crate::text::opt_str_view(deploy_tag)),
    {
        match deploy_tag {
            Some(tag) => query_request(path, "deployTag", tag),
            None => plain_request(Method::Get, path),
        }
    }

    /// The CPU series of a service.
    pub fn read_metrics_cpu(id: &str, deploy_tag: Option<&str>) -> (r: ApiRequest)
        ensures
            r@ == tagged("/metrics/cpu/"@ + id@, crate::text::opt_str_view(deploy_tag)),
    {
        ApiClient::get_with_optional_tag(cat2("/metrics/cpu/", id).as_str(), deploy_tag)
    }

    /// The memory series of a service.
    pub fn read_metrics_memory(id: &str, deploy_tag: Option<&str>) -> (r: ApiRequest)
        ensures
            r@ == tagged("/metrics/memory/"@ + id@, crate::text::opt_str_view(deploy_tag)),
    {
        ApiClient::get_with_optional_tag(cat2("/metrics/memory/", id).as_str(), deploy_tag)
    }

    /// The network series of a service.
    pub fn read_metrics_network(id: &str, deploy_tag: Option<&str>) -> (r: ApiRequest)
        ensures
            r@ == tagged("/metrics/network/"@ + id@, crate::text::opt_str_view(deploy_tag)),
    {
        ApiClient::get_with_optional_tag(cat2("/metrics/network/", id).as_str(), deploy_tag)
    }

    /// The log lines of a service.
    pub fn read_service_logs(id: &str, deploy_tag: Option<&str>) -> (r: ApiRequest)
        ensures
            r@ == tagged("/logs/"@ + id@, crate::text::opt_str_view(deploy_tag)),
    {
        ApiClient::get_with_optional_tag(cat2("/logs/", id).as_str(), deploy_tag)
    }

    /// Replace the definition of a service.
    pub fn update_service(id: &str, service: &ServiceConfig) -> (r: ApiRequest)
        ensures
            r@ == with_body(
                Method::Put,
                "/services/"@ + id@,
                JsonView::Obj(service_members(*service)),
            ),
    {
        body_request(Method::Put, cat2("/services/", id).as_str(), service_json(service))
    }

    /// Delete a service.
    pub fn delete_service(id: &str) -> (r: ApiRequest)
        ensures
            r@ == plain(Method::Delete, "/services/"@ + id@),
    {
        plain_request(Method::Delete, cat2("/services/", id).as_str())
    }

    /// The jobs of a service.
    pub fn list_service_jobs(id: &str) -> (r: ApiRequest)
        ensures
            r@ == plain(Method::Get, "/jobs/services/"@ + id@),
    {
        plain_request(Method::Get, cat2("/jobs/services/", id).as_str())
    }

    /// Enqueue a job of a service.
    pub fn enqueue_job(action: &str, id: &str) -> (r: ApiRequest)
        ensures
            r@ == job_request(action@, id@),
    {
        body_request(
            Method::Post,
            cat4("/jobs/services/", action, "/", id).as_str(),
            Json::object(),
        )
    }

    pub fn deploy_service(id: &str) -> (r: ApiRequest)
        ensures
            r@ == job_request("deploy"@, id@),
    {
        ApiClient::enqueue_job("deploy", id)
    }

    pub fn pause_service(id: &str) -> (r: ApiRequest)
        ensures
            r@ == job_request("pause"@, id@),
    {
        ApiClient::enqueue_job("pause", id)
    }

    pub fn unpause_service(id: &str) -> (r: ApiRequest)
        ensures
            r@ == job_request("unpause"@, id@),
    {
        ApiClient::enqueue_job("unpause", id)
    }

    pub fn kill_service(id: &str) -> (r: ApiRequest)
        ensures
            r@ == job_request("kill"@, id@),
    {
        ApiClient::enqueue_job("kill", id)
    }

    /// A new registry secret.
    pub fn create_registry_secret(
        name: &str,
        workspace_id: &str,
        provider: &str,
        username: &str,
        password: &str,
    ) -> (r: ApiRequest)
        ensures
            r@ == with_body(
                Method::Post,
                "/workspaces/secrets/registry"@,
                secret_body(
                    name@,
                    workspace_id@,
                    provider@,
                    seq![
                        ("username"@, JsonView::Str(username@)),
                        ("password"@, JsonView::Str(password@)),
                    ],
                ),
            ),
    {
        let data = Json::object().with("username", Json::str(username)).with(
            "password",
            Json::str(password),
        );
        assert(data@->Obj_0 =~= seq![
            ("username"@, JsonView::Str(username@)),
            ("password"@, JsonView::Str(password@)),
        ]);
        body_request(
            Method::Post,
            "/workspaces/secrets/registry",
            secret_json(name, workspace_id, provider, data),
        )
    }

    /// A new repository secret: the token, and the user name that only
    /// Bitbucket needs.
    pub fn create_repository_secret(
        name: &str,
        workspace_id: &str,
        provider: &str,
        token: &str,
        username: &str,
    ) -> (r: ApiRequest)
        ensures
            r@ == with_body(
                Method::Post,
                "/workspaces/secrets/repository"@,
                secret_body(
                    name@,
                    workspace_id@,
                    provider@,
                    seq![
                        ("key"@, JsonView::Str(username@)),
                        ("value"@, JsonView::Str(token@)),
                    ],
                ),
            ),
    {
        let data = Json::object().with("key", Json::str(username)).with("value", Json::str(token));
        assert(data@->Obj_0 =~= seq![
            ("key"@, JsonView::Str(username@)),
            ("value"@, JsonView::Str(token@)),
        ]);
        body_request(
            Method::Post,
            "/workspaces/secrets/repository",
            secret_json(name, workspace_id, provider, data),
        )
    }

    /// The prices of a region.
    pub fn get_pricing(region_id: &str) -> (r: ApiRequest)
        ensures
            r@ == query("/resources/pricing"@, seq![("region"@, region_id@)]),
    {
        query_request("/resources/pricing", "region", region_id)
    }

    /// The balance of a workspace.
    pub fn get_balance(workspace_id: &str) -> (r: ApiRequest)
        ensures
            r@ == plain(Method::Get, "/balances/"@ + workspace_id@),
    {
        plain_request(Method::Get, cat2("/balances/", workspace_id).as_str())
    }

    /// The volumes of a project.
    pub fn list_volumes(project_id: &str) -> (r: ApiRequest)
        ensures
            r@ == query("/storage/volumes"@, seq![("project"@, project_id@)]),
    {
        query_request("/storage/volumes", "project", project_id)
    }

    /// A new volume.
    pub fn create_volume(volume: &Volume) -> (r: ApiRequest)
        ensures
            r@ == with_body(
                Method::Post,
                "/storage/volumes"@,
                JsonView::Obj(volume_members(*volume)),
            ),
    {
        body_request(Method::Post, "/storage/volumes", volume_body(volume))
    }

    /// One volume.
    pub fn read_volume(id: &str) -> (r: ApiRequest)
        ensures
            r@ == plain(Method::Get, "/storage/volumes/"@ + id@),
    {
        plain_request(Method::Get, cat2("/storage/volumes/", id).as_str())
    }

    /// Change the size or the mount path of a volume.
    pub fn update_volume(volume_id: &str, changes: &VolumeUpdate) -> (r: ApiRequest)
        ensures
            r@ == with_body(
                Method::Patch,
                "/storage/volumes/"@ + volume_id@,
                JsonView::Obj(update_members(*changes)),
            ),
    {
        body_request(
            Method::Patch,
            cat2("/storage/volumes/", volume_id).as_str(),
            update_body(changes),
        )
    }

    /// Attach an available volume to a service.
    pub fn attach_volume(volume_id: &str, service_id: &str) -> (r: ApiRequest)
        ensures
            r@ == with_body(
                Method::Put,
                "/storage/volumes/"@ + volume_id@ + "/attach"@,
                JsonView::Obj(seq![("serviceId"@, JsonView::Str(service_id@))]),
            ),
    {
        let body = Json::object().with("serviceId", Json::str(service_id));
        assert(body@->Obj_0 =~= seq![("serviceId"@, JsonView::Str(service_id@))]);
        body_request(Method::Put, cat3("/storage/volumes/", volume_id, "/attach").as_str(), body)
    }

    /// Detach a volume from its service.
    pub fn detach_volume(volume_id: &str) -> (r: ApiRequest)
        ensures
            r@ == with_body(
                Method::Put,
                "/storage/volumes/"@ + volume_id@ + "/detach"@,
                empty_object(),
            ),
    {
        body_request(
            Method::Put,
            cat3("/storage/volumes/", volume_id, "/detach").as_str(),
            Json::object(),
        )
    }

    /// Delete a volume.
    pub fn delete_volume(volume_id: &str) -> (r: ApiRequest)
        ensures
            r@ == plain(Method::Delete, "/storage/volumes/"@ + volume_id@),
    {
        plain_request(Method::Delete, cat2("/storage/volumes/", volume_id).as_str())
    }

    /// Enqueue the provisioning of a volume again.
    pub fn retry_volume(volume_id: &str) -> (r: ApiRequest)
        ensures
            r@ == with_body(
                Method::Put,
                "/storage/volumes/"@ + volume_id@ + "/retry"@,
                empty_object(),
            ),
    {
        body_request(
            Method::Put,
            cat3("/storage/volumes/", volume_id, "/retry").as_str(),
            Json::object(),
        )
    }
}

/// The body of a new secret.
pub open spec fn secret_body(
    name: Seq<char>,
    workspace: Seq<char>,
    provider: Seq<char>,
    data: Seq<(Seq<char>, JsonView)>,
) -> JsonView {
    JsonView::Obj(
        seq![
            ("name"@, JsonView::Str(name)),
            ("fk_workspace"@, JsonView::Str(workspace)),
            ("provider"@, JsonView::Str(provider)),
            ("data"@, JsonView::Obj(data)),
        ],
    )
}

fn secret_json(name: &str, workspace_id: &str, provider: &str, data: Json) -> (r: Json)
    requires
        data@ is Obj,
    ensures
        r@ == secret_body(name@, workspace_id@, provider@, data@->Obj_0),
{
    let r = Json::object().with("name", Json::str(name)).with(
        "fk_workspace",
        Json::str(workspace_id),
    ).with("provider", Json::str(provider)).with("data", data);
    assert(r@->Obj_0 =~= secret_body(name@, workspace_id@, provider@, data@->Obj_0)->Obj_0);
    r
}

// ─── Responses ─────────────────────────────────────────────────────────────

/// The statuses of a success.
pub open spec fn is_success_status(status: u16) -> bool {
    200 <= status < 300
}

pub fn is_success(status: u16) -> (r: bool)
    ensures
        r == is_success_status(status),
{
    200 <= status && status < 300
}

/// The seconds to wait before a request is sent again: what the response asks
/// for, or else a time that doubles with every attempt. None where the
/// response stands.
pub open spec fn wait_of(status: u16, retry_after: Option<Seq<char>>, attempt: u32) -> Option<nat> {
    if status != 429 || attempt >= MAX_RETRIES {
        None
    } else {
        match retry_after {
            Some(v) => match parsed_number(v, u64::MAX as nat) {
                Some(n) => Some(n),
                None => Some(backoff(attempt)),
            },
            None => Some(backoff(attempt)),
        }
    }
}

/// 1, 2, 4, … seconds.
pub open spec fn backoff(attempt: u32) -> nat
    decreases attempt,
{
    if attempt == 0 {
        1
    } else {
        2 * backoff((attempt - 1) as u32)
    }
}

/// Whether to send the request again after a response to attempt number
/// `attempt` (the first is 0), and after how many seconds.
pub fn retry_wait(status: u16, retry_after: Option<&str>, attempt: u32) -> (r: Option<u64>)
    ensures
        r is Some <==> wait_of(status, crate::text::opt_str_view(retry_after), attempt) is Some,
        r is Some ==> r->0 as nat == wait_of(
            status,
            crate::text::opt_str_view(retry_after),
            attempt,
        )->0,
{
    if status != 429 || attempt >= MAX_RETRIES {
        return None;
    }
    let own: u64 = if attempt == 0 {
        1
    } else if attempt == 1 {
        2
    } else {
        4
    };
    proof {
        reveal_with_fuel(backoff, 3);
    }
    match retry_after {
        Some(v) => match parse_number(v, u64::MAX) {
            Some(n) => Some(n),
            None => Some(own),
        },
        None => Some(own),
    }
}

/// Only a rate-limited response is tried again, and a request is sent at most
/// four times in all.
pub proof fn retries_are_bounded(status: u16, retry_after: Option<Seq<char>>, attempt: u32)
    ensures
        wait_of(status, retry_after, attempt) is Some <==> status == 429 && attempt < 3,
{
}

/// The hint for a failing status.
pub open spec fn status_hint(status: u16) -> Option<Seq<char>> {
    if status == 400 {
        Some("Check that your configuration values are valid."@)
    } else if status == 401 {
        Some(
            "Your API key may have expired or been revoked. Run 'partiri auth login' to sign in again."@,
        )
    } else if status == 402 {
        Some(
            "Your workspace balance is insufficient. Top up at https://partiri.cloud/settings/billing"@,
        )
    } else if status == 403 {
        Some("Your account may lack permission, or a workspace limit has been reached."@)
    } else if status == 404 {
        Some("The resource was not found. It may have been deleted."@)
    } else if status == 409 {
        Some("A conflicting operation is in progress. Wait for it to finish, then retry."@)
    } else if status == 422 {
        Some("The request data is invalid. Check your configuration values."@)
    } else if status == 429 {
        Some("Rate limit exceeded. Please wait a moment and try again."@)
    } else if 500 <= status <= 599 {
        Some("This is a server-side error. Try again later, or contact support."@)
    } else {
        None
    }
}

fn hint_for(status: u16) -> (r: Option<&'static str>)
    ensures
        crate::text::opt_str_view(r) == status_hint(status),
{
    if status == 400 {
        Some("Check that your configuration values are valid.")
    } else if status == 401 {
        Some(
            "Your API key may have expired or been revoked. Run 'partiri auth login' to sign in again.",
        )
    } else if status == 402 {
        Some(
            "Your workspace balance is insufficient. Top up at https://partiri.cloud/settings/billing",
        )
    } else if status == 403 {
        Some("Your account may lack permission, or a workspace limit has been reached.")
    } else if status == 404 {
        Some("The resource was not found. It may have been deleted.")
    } else if status == 409 {
        Some("A conflicting operation is in progress. Wait for it to finish, then retry.")
    } else if status == 422 {
        Some("The request data is invalid. Check your configuration values.")
    } else if status == 429 {
        Some("Rate limit exceeded. Please wait a moment and try again.")
    } else if 500 <= status && status <= 599 {
        Some("This is a server-side error. Try again later, or contact support.")
    } else {
        None
    }
}

/// The error for a failing status with the message that the body held.
pub open spec fn status_error_of(status: u16, message: Option<Seq<char>>) -> CliErrorView {
    let text = match message {
        Some(m) => m,
        None => "An unexpected error occurred."@,
    };
    let e = bare(decimal_of(status as nat), text);
    enriched_of(
        match status_hint(status) {
            Some(h) => hinted(e, h),
            None => e,
        },
        None,
    )
}

/// The error for a failing status, given the message in its body.
pub fn status_error(status: u16, message: Option<&str>) -> (r: Failure)
    ensures
        r@ == FailureView::Cli(status_error_of(status, crate::text::opt_str_view(message))),
{
    let text = match message {
        Some(m) => m,
        None => "An unexpected error occurred.",
    };
    let code = decimal(status as u64);
    let e = CliError::new(code.as_str(), text);
    let hinted_error = match hint_for(status) {
        Some(h) => e.with_hint(h),
        None => e,
    };
    Failure::Cli(hinted_error.enriched(&ConfigOverride::none()))
}

/// The `message` of an error body, where the body is JSON that has one.
pub open spec fn body_message(body: Seq<char>) -> Option<Seq<char>> {
    match parsed_json(body) {
        Some(v) => member_string(v, "message"@),
        None => None,
    }
}

/// The error for a response with a failing status.
pub fn error_message(status: u16, body: &str) -> (r: Failure)
    ensures
        r@ == FailureView::Cli(status_error_of(status, body_message(body@))),
{
    match parse_json(body) {
        Ok(v) => status_error(status, v.get_str("message")),
        Err(_) => status_error(status, None),
    }
}

/// Whether the first `n` bytes of `s` end between two characters.
pub open spec fn splits_at(s: Seq<char>, n: nat) -> bool {
    exists|k: int| 0 <= k <= s.len() && byte_len(#[trigger] s.take(k)) == n
}

/// The start of a text: all of it, or its first 200 bytes.
pub open spec fn is_preview(p: Seq<char>, s: Seq<char>) -> bool {
    if byte_len(s) <= 200 {
        p == s
    } else {
        p.is_prefix_of(s) && byte_len(p) == 200
    }
}

fn preview(s: &str) -> (r: String)
    requires
        byte_len(s@) <= 200 || splits_at(s@, 200),
    ensures
        is_preview(r@, s@),
{
    if len_in_bytes(s) <= 200 {
        return s.to_owned();
    }
    let cs = chars_of(s);
    let ghost k = choose|k: int| 0 <= k <= s@.len() && byte_len(#[trigger] s@.take(k)) == 200;
    let mut out = String::new();
    let mut used: usize = 0;
    let mut i: usize = 0;
    assert(s@.take(0) =~= Seq::<char>::empty());
    while i < cs.len() && used < 200
        invariant
            cs@ == s@,
            i <= cs@.len(),
            0 <= k <= s@.len(),
            byte_len(s@.take(k)) == 200,
            i <= k,
            out@ == s@.take(i as int),
            used == byte_len(s@.take(i as int)),
            used <= 200,
        decreases cs@.len() - i,
    {
        proof {
            assert(s@.take(i + 1).drop_last() =~= s@.take(i as int));
            assert(i < k);
            assert(s@.take(k) =~= s@.take(i + 1) + s@.subrange(i + 1, k));
            crate::text::byte_len_concat(s@.take(i + 1), s@.subrange(i + 1, k));
        }
        used += len_utf8(cs[i]);
        out.push(cs[i]);
        i += 1;
        assert(out@ =~= s@.take(i as int));
    }
    proof {
        if i == cs@.len() {
            assert(k == i);
        }
    }
    out
}

/// What a response with a body comes to. `body` is its text, or why it could
/// not be read; `parsed` is what the text of a success stands for, or why it
/// stands for nothing.
///
/// The text of a success that stands for nothing is shown by its first 200
/// bytes, which have to end between two characters.
pub fn handle_response<T>(status: u16, body: Result<String, String>, parsed: Result<T, String>) -> (r:
    Result<T, Failure>)
    requires
        is_success_status(status) && body is Ok && parsed is Err ==> byte_len(body->Ok_0@) <= 200
            || splits_at(body->Ok_0@, 200),
    ensures
        r is Ok <==> is_success_status(status) && body is Ok && parsed is Ok,
        r is Ok ==> r->Ok_0 == parsed->Ok_0,
        is_success_status(status) && body is Err ==> r->Err_0@ == FailureView::Text(
            "Failed to read response: "@ + body->Err_0@,
        ),
        is_success_status(status) && body is Ok && parsed is Err ==> exists|p: Seq<char>|
            is_preview(p, body->Ok_0@) && r->Err_0@ == FailureView::Text(
                "Failed to parse API response: "@ + parsed->Err_0@ + "\n  Body: "@ + p,
            ),
        !is_success_status(status) ==> r->Err_0@ == FailureView::Cli(
            status_error_of(
                status,
                body_message(
                    match body {
                        Ok(text) => text@,
                        Err(_) => Seq::empty(),
                    },
                ),
            ),
        ),
{
    if is_success(status) {
        match body {
            Ok(text) => match parsed {
                Ok(value) => Ok(value),
                Err(why) => {
                    let shown = preview(text.as_str());
                    Err(
                        Failure::Text(
                            cat4(
                                "Failed to parse API response: ",
                                why.as_str(),
                                "\n  Body: ",
                                shown.as_str(),
                            ),
                        ),
                    )
                },
            },
            Err(why) => Err(Failure::Text(cat2("Failed to read response: ", why.as_str()))),
        }
    } else {
        let text = match body {
            Ok(text) => text,
            Err(_) => String::new(),
        };
        Err(error_message(status, text.as_str()))
    }
}

/// What a response without a body comes to.
pub fn handle_response_empty(status: u16, body: &str) -> (r: Result<(), Failure>)
    ensures
        r is Ok <==> is_success_status(status),
        r is Err ==> r->Err_0@ == FailureView::Cli(status_error_of(status, body_message(body@))),
{
    if is_success(status) {
        Ok(())
    } else {
        Err(error_message(status, body))
    }
}

/// The error for a request that got no response.
pub fn transport_error(why: &str) -> (r: Failure)
    ensures
        r@ == FailureView::Text("Network request failed: "@ + why@),
{
    Failure::Text(cat2("Network request failed: ", why))
}

// ─── Laws ──────────────────────────────────────────────────────────────────

/// The disk block never reaches the body of a service: services that differ in
/// it alone are sent alike.
pub proof fn disk_is_never_sent(a: ServiceConfig, b: ServiceConfig)
    requires
        a == (ServiceConfig { disk: a.disk, ..b }),
    ensures
        service_members(a) == service_members(b),
{
}

/// The environment is sent exactly where it is given.
pub proof fn env_is_sent_only_when_given(s: ServiceConfig)
    ensures
        s.env is None <==> forall|i: int|
            0 <= i < service_members(s).len() ==> (#[trigger] service_members(s)[i]).0 != "env"@,
{
    service_keys_differ();
    let m = service_members(s);
    if s.env is Some {
        assert(m.last().0 == "env"@);
        assert(m[m.len() - 1].0 == "env"@);
    } else {
        assert(env_member(s.env) =~= seq![]);
    }
}

proof fn service_keys_differ()
    ensures
        "name"@ != "env"@,
        "deploy_type"@ != "env"@,
        "runtime"@ != "env"@,
        "root_path"@ != "env"@,
        "repository_url"@ != "env"@,
        "repository_branch"@ != "env"@,
        "registry_url"@ != "env"@,
        "fk_service_secret"@ != "env"@,
        "build_path"@ != "env"@,
        "build_command"@ != "env"@,
        "pre_deploy_command"@ != "env"@,
        "run_command"@ != "env"@,
        "fk_region"@ != "env"@,
        "fk_pod"@ != "env"@,
        "health_check_path"@ != "env"@,
        "maintenance_mode"@ != "env"@,
        "active"@ != "env"@,
{
    reveal_strlit("env");
    assert("env"@.len() == 3);
    reveal_strlit("name");
    assert("name"@.len() == 4);
    reveal_strlit("deploy_type");
    assert("deploy_type"@.len() == 11);
    reveal_strlit("runtime");
    assert("runtime"@.len() == 7);
    reveal_strlit("root_path");
    assert("root_path"@.len() == 9);
    reveal_strlit("repository_url");
    assert("repository_url"@.len() == 14);
    reveal_strlit("repository_branch");
    assert("repository_branch"@.len() == 17);
    reveal_strlit("registry_url");
    assert("registry_url"@.len() == 12);
    reveal_strlit("fk_service_secret");
    assert("fk_service_secret"@.len() == 17);
    reveal_strlit("build_path");
    assert("build_path"@.len() == 10);
    reveal_strlit("build_command");
    assert("build_command"@.len() == 13);
    reveal_strlit("pre_deploy_command");
    assert("pre_deploy_command"@.len() == 18);
    reveal_strlit("run_command");
    assert("run_command"@.len() == 11);
    reveal_strlit("fk_region");
    assert("fk_region"@.len() == 9);
    reveal_strlit("fk_pod");
    assert("fk_pod"@.len() == 6);
    reveal_strlit("health_check_path");
    assert("health_check_path"@.len() == 17);
    reveal_strlit("maintenance_mode");
    assert("maintenance_mode"@.len() == 16);
    reveal_strlit("active");
    assert("active"@.len() == 6);
}

/// An update without changes has an empty body, and only such an update.
pub proof fn empty_update_sends_nothing(u: VolumeUpdate)
    ensures
        update_members(u).len() == 0 <==> u.size is None && u.mount_path is None,
{
}

} // verus!
