//! The JSON Schema of `.partiri.jsonc`, and the index of its properties that
//! completion, hover and the check for unknown keys use.
use vstd::prelude::*;
use vstd::string::*;

use crate::config::{DEPLOY_TYPES, DISK_SIZE_MAX, DISK_SIZE_MIN, MAX_NAME_LEN, RUNTIMES};
use crate::json::{
    array_view, items_view, json_view, member_string, members_view, object_view, strings_view, Json,
    JsonView, Member,
};
use crate::text::{decimal_of, owned, str_eq, strs, views};

verus! {

// The descriptions of the properties.

pub const ABOUT_ID: &'static str = "Service ID assigned by Partiri after `partiri service create`. Null until then.";

pub const ABOUT_DEPLOY_TAG: &'static str = "Deploy tag set by Partiri after each deployment. Used to scope logs and metrics.";

pub const ABOUT_FK_WORKSPACE: &'static str = "UUID of the workspace this service belongs to.";

pub const ABOUT_FK_PROJECT: &'static str = "UUID of the project this service belongs to. Must belong to `fk_workspace`.";

pub const ABOUT_SERVICE: &'static str = "The user-editable service definition.";

pub const ABOUT_NAME: &'static str = "Service name. Must be ≤16 characters and unique within the project.";

pub const ABOUT_DEPLOY_TYPE: &'static str = "webservice | static | private-service | worker";

pub const ABOUT_RUNTIME: &'static str = "node | deno | rust | python | go | ruby | elixir | php | jvm | dotnet | cpp | static | registry";

pub const ABOUT_ROOT_PATH: &'static str = "Path to the application root within the repository (usually `.`).";

pub const ABOUT_REPOSITORY_URL: &'static str = "Git repository URL. Mutually exclusive with `registry_url`.";

pub const ABOUT_REPOSITORY_BRANCH: &'static str = "Branch to deploy. Required when `repository_url` is set.";

pub const ABOUT_REGISTRY_URL: &'static str = "Full container image reference (e.g. `ghcr.io/owner/image:tag`). Mutually exclusive with `repository_url`. The API splits this into host, repository, and tag server-side.";

pub const ABOUT_FK_SERVICE_SECRET: &'static str = "Secret ID for authenticated repository / registry access. Set via `partiri service token`.";

pub const ABOUT_BUILD_PATH: &'static str = "Output directory produced by `build_command` (e.g. `dist`).";

pub const ABOUT_BUILD_COMMAND: &'static str = "Command that builds the project. Required for repository-sourced non-static services.";

pub const ABOUT_PRE_DEPLOY_COMMAND: &'static str = "Command run before each deploy (e.g. database migrations).";

pub const ABOUT_RUN_COMMAND: &'static str = "Command that starts the service. Required for `webservice`, `private-service`, and source-built `worker` deploy types (a registry-sourced worker passes via `registry_url` instead).";

pub const ABOUT_FK_REGION: &'static str = "Region UUID the service is deployed to.";

pub const ABOUT_FK_POD: &'static str = "Compute pod UUID — determines the CPU/RAM tier.";

pub const ABOUT_HEALTH_CHECK_PATH: &'static str = "Health-check path or absolute URL. `None` disables the check.";

pub const ABOUT_MAINTENANCE_MODE: &'static str = "When `true`, serve a maintenance page instead of the app.";

pub const ABOUT_ACTIVE: &'static str = "Whether the service is active.";

pub const ABOUT_DISK: &'static str = "Persistent disk (PVC) to create and attach to this service.\n\nWhen set, `service create` creates the volume with `fk_service` pointing at the newly created service so it auto-attaches once provisioned. On `service push`, the reconcile logic compares this with the live volume state and detaches/deletes/recreates as needed. Remove this block (or set it to `null`) to detach the disk on next push.";

pub const ABOUT_MOUNT_PATH: &'static str = "Absolute mount path inside the container (e.g. `/app/data`). Cannot be `/` or a reserved system directory.";

pub const ABOUT_SIZE: &'static str = "Disk size in GB (integer, 1–10).";

/// What kind of value a property takes, with the constraints on it.
#[derive(Debug, Clone, Copy, PartialEq, Eq, Structural)]
pub enum PropKind {
    Text,
    OptionalText,
    Name,
    DeployType,
    Runtime,
    RootPath,
    /// A switch that is off unless it is set.
    Off,
    /// A switch that is on unless it is set.
    On,
    Size,
    Disk,
    Service,
}

/// One property: its name, its description and its kind.
#[derive(Debug, Clone, Copy)]
pub struct PropRow {
    pub name: &'static str,
    pub description: &'static str,
    pub kind: PropKind,
}

pub ghost struct RowView {
    pub name: Seq<char>,
    pub description: Seq<char>,
    pub kind: PropKind,
}

impl View for PropRow {
    type V = RowView;

    open spec fn view(&self) -> RowView {
        RowView { name: self.name@, description: self.description@, kind: self.kind }
    }
}

pub open spec fn row(name: Seq<char>, description: Seq<char>, kind: PropKind) -> RowView {
    RowView { name, description, kind }
}

pub open spec fn rows_view(v: Seq<PropRow>) -> Seq<RowView> {
    v.map_values(|r: PropRow| r@)
}

fn prop(name: &'static str, description: &'static str, kind: PropKind) -> (r: PropRow)
    ensures
        r@ == row(name@, description@, kind),
{
    PropRow { name, description, kind }
}

/// The properties of the file, in the order of their names.
pub open spec fn root_rows() -> Seq<RowView> {
    seq![
        row("deploy_tag"@, ABOUT_DEPLOY_TAG@, PropKind::OptionalText),
        row("fk_project"@, ABOUT_FK_PROJECT@, PropKind::Text),
        row("fk_workspace"@, ABOUT_FK_WORKSPACE@, PropKind::Text),
        row("id"@, ABOUT_ID@, PropKind::OptionalText),
        row("service"@, ABOUT_SERVICE@, PropKind::Service),
    ]
}

fn root_table() -> (r: Vec<PropRow>)
    ensures
        rows_view(r@) == root_rows(),
{
    let mut v: Vec<PropRow> = Vec::new();
    v.push(prop("deploy_tag", ABOUT_DEPLOY_TAG, PropKind::OptionalText));
    v.push(prop("fk_project", ABOUT_FK_PROJECT, PropKind::Text));
    v.push(prop("fk_workspace", ABOUT_FK_WORKSPACE, PropKind::Text));
    v.push(prop("id", ABOUT_ID, PropKind::OptionalText));
    v.push(prop("service", ABOUT_SERVICE, PropKind::Service));
    assert(rows_view(v@) =~= root_rows());
    v
}

/// The properties of the `service` block, in the order of their names. The
/// environment is not among them.
pub open spec fn service_rows() -> Seq<RowView> {
    seq![
        row("active"@, ABOUT_ACTIVE@, PropKind::On),
        row("build_command"@, ABOUT_BUILD_COMMAND@, PropKind::OptionalText),
        row("build_path"@, ABOUT_BUILD_PATH@, PropKind::OptionalText),
        row("deploy_type"@, ABOUT_DEPLOY_TYPE@, PropKind::DeployType),
        row("disk"@, ABOUT_DISK@, PropKind::Disk),
        row("fk_pod"@, ABOUT_FK_POD@, PropKind::Text),
        row("fk_region"@, ABOUT_FK_REGION@, PropKind::Text),
        row("fk_service_secret"@, ABOUT_FK_SERVICE_SECRET@, PropKind::OptionalText),
        row("health_check_path"@, ABOUT_HEALTH_CHECK_PATH@, PropKind::OptionalText),
        row("maintenance_mode"@, ABOUT_MAINTENANCE_MODE@, PropKind::Off),
        row("name"@, ABOUT_NAME@, PropKind::Name),
        row("pre_deploy_command"@, ABOUT_PRE_DEPLOY_COMMAND@, PropKind::OptionalText),
        row("registry_url"@, ABOUT_REGISTRY_URL@, PropKind::OptionalText),
        row("repository_branch"@, ABOUT_REPOSITORY_BRANCH@, PropKind::OptionalText),
        row("repository_url"@, ABOUT_REPOSITORY_URL@, PropKind::OptionalText),
        row("root_path"@, ABOUT_ROOT_PATH@, PropKind::RootPath),
        row("run_command"@, ABOUT_RUN_COMMAND@, PropKind::OptionalText),
        row("runtime"@, ABOUT_RUNTIME@, PropKind::Runtime),
    ]
}

fn service_table() -> (r: Vec<PropRow>)
    ensures
        rows_view(r@) == service_rows(),
{
    let mut v: Vec<PropRow> = Vec::new();
    v.push(prop("active", ABOUT_ACTIVE, PropKind::On));
    v.push(prop("build_command", ABOUT_BUILD_COMMAND, PropKind::OptionalText));
    v.push(prop("build_path", ABOUT_BUILD_PATH, PropKind::OptionalText));
    v.push(prop("deploy_type", ABOUT_DEPLOY_TYPE, PropKind::DeployType));
    v.push(prop("disk", ABOUT_DISK, PropKind::Disk));
    v.push(prop("fk_pod", ABOUT_FK_POD, PropKind::Text));
    v.push(prop("fk_region", ABOUT_FK_REGION, PropKind::Text));
    v.push(prop("fk_service_secret", ABOUT_FK_SERVICE_SECRET, PropKind::OptionalText));
    v.push(prop("health_check_path", ABOUT_HEALTH_CHECK_PATH, PropKind::OptionalText));
    v.push(prop("maintenance_mode", ABOUT_MAINTENANCE_MODE, PropKind::Off));
    v.push(prop("name", ABOUT_NAME, PropKind::Name));
    v.push(prop("pre_deploy_command", ABOUT_PRE_DEPLOY_COMMAND, PropKind::OptionalText));
    v.push(prop("registry_url", ABOUT_REGISTRY_URL, PropKind::OptionalText));
    v.push(prop("repository_branch", ABOUT_REPOSITORY_BRANCH, PropKind::OptionalText));
    v.push(prop("repository_url", ABOUT_REPOSITORY_URL, PropKind::OptionalText));
    v.push(prop("root_path", ABOUT_ROOT_PATH, PropKind::RootPath));
    v.push(prop("run_command", ABOUT_RUN_COMMAND, PropKind::OptionalText));
    v.push(prop("runtime", ABOUT_RUNTIME, PropKind::Runtime));
    assert(rows_view(v@) =~= service_rows());
    v
}

/// The properties of the `disk` block, in the order of their names.
pub open spec fn disk_rows() -> Seq<RowView> {
    seq![
        row("mount_path"@, ABOUT_MOUNT_PATH@, PropKind::Text),
        row("size"@, ABOUT_SIZE@, PropKind::Size),
    ]
}

fn disk_table() -> (r: Vec<PropRow>)
    ensures
        rows_view(r@) == disk_rows(),
{
    let mut v: Vec<PropRow> = Vec::new();
    v.push(prop("mount_path", ABOUT_MOUNT_PATH, PropKind::Text));
    v.push(prop("size", ABOUT_SIZE, PropKind::Size));
    assert(rows_view(v@) =~= disk_rows());
    v
}

/// The properties that the file cannot do without.
pub const ROOT_REQUIRED: [&'static str; 3] = ["fk_project", "fk_workspace", "service"];

/// The properties that the `service` block cannot do without.
pub const SERVICE_REQUIRED: [&'static str; 8] = [
    "active",
    "deploy_type",
    "fk_pod",
    "fk_region",
    "maintenance_mode",
    "name",
    "root_path",
    "runtime",
];

/// The properties that the `disk` block cannot do without.
pub const DISK_REQUIRED: [&'static str; 2] = ["mount_path", "size"];

/// The rules that span properties.
pub const RULES: [&'static str; 8] = [
    "service.repository_url XOR service.registry_url (one must be set, not both).",
    "When deploy_type ∈ {webservice, private-service}, service.run_command is required.",
    "When repository_url is set on a non-static runtime, service.build_command is required.",
    "service.name must be ≤16 characters.",
    "fk_region and fk_pod must belong to the same workspace.",
    "Environment variables are managed via 'partiri service env --path <.env>'; they are never stored in .partiri.jsonc.",
    "service.disk requires a single-region service. Adding a second replica/region while a disk is attached returns a storage_replica_conflict error.",
    "There is no in-place PVC resize. To change disk size: remove the disk block, push (detaches+deletes), then set the new disk block and push again.",
];

// ─── The schema ────────────────────────────────────────────────────────────

pub open spec fn text_type() -> (Seq<char>, JsonView) {
    ("type"@, JsonView::Str("string"@))
}

/// A type that may also be `null`.
pub open spec fn nullable(t: Seq<char>) -> (Seq<char>, JsonView) {
    ("type"@, JsonView::Arr(seq![JsonView::Str(t), JsonView::Str("null"@)]))
}

pub open spec fn object_members(required: Seq<Seq<char>>, rows: Seq<RowView>) -> Seq<
    (Seq<char>, JsonView),
> {
    seq![("required"@, strings_view(required)), ("properties"@, simple_props(rows))]
}

/// What follows the description of a property.
pub open spec fn kind_members(kind: PropKind) -> Seq<(Seq<char>, JsonView)> {
    match kind {
        PropKind::Text => seq![text_type()],
        PropKind::OptionalText => seq![nullable("string"@)],
        PropKind::Name => seq![
            text_type(),
            ("maxLength"@, JsonView::Num(decimal_of(MAX_NAME_LEN as nat))),
        ],
        PropKind::DeployType => seq![
            text_type(),
            ("enum"@, strings_view(strs(DEPLOY_TYPES@))),
        ],
        PropKind::Runtime => seq![text_type(), ("enum"@, strings_view(strs(RUNTIMES@)))],
        PropKind::RootPath => seq![text_type(), ("default"@, JsonView::Str("."@))],
        PropKind::Off => seq![
            ("type"@, JsonView::Str("boolean"@)),
            ("default"@, JsonView::Bool(false)),
        ],
        PropKind::On => seq![
            ("type"@, JsonView::Str("boolean"@)),
            ("default"@, JsonView::Bool(true)),
        ],
        PropKind::Size => seq![
            ("type"@, JsonView::Str("integer"@)),
            ("format"@, JsonView::Str("uint32"@)),
            ("minimum"@, JsonView::Num(decimal_of(DISK_SIZE_MIN as nat))),
            ("maximum"@, JsonView::Num(decimal_of(DISK_SIZE_MAX as nat))),
        ],
        _ => seq![],
    }
}

/// The schema of a property that is no object.
pub open spec fn simple_prop(r: RowView) -> JsonView {
    JsonView::Obj(seq![("description"@, JsonView::Str(r.description))] + kind_members(r.kind))
}

/// The schemas of properties that are no objects.
pub open spec fn simple_props(rows: Seq<RowView>) -> JsonView {
    JsonView::Obj(rows.map_values(|r: RowView| (r.name, simple_prop(r))))
}

/// The schema of the `disk` block.
pub open spec fn disk_schema() -> JsonView {
    JsonView::Obj(
        seq![("description"@, JsonView::Str(ABOUT_DISK@)), nullable("object"@)] + object_members(
            strs(DISK_REQUIRED@),
            disk_rows(),
        ),
    )
}

/// The schema of a property of the `service` block.
pub open spec fn service_prop(r: RowView) -> JsonView {
    if r.kind == PropKind::Disk {
        disk_schema()
    } else {
        simple_prop(r)
    }
}

/// The schema of the `service` block.
pub open spec fn service_schema() -> JsonView {
    JsonView::Obj(
        seq![
            ("description"@, JsonView::Str(ABOUT_SERVICE@)),
            ("type"@, JsonView::Str("object"@)),
            ("required"@, strings_view(strs(SERVICE_REQUIRED@))),
            (
                "properties"@,
                JsonView::Obj(service_rows().map_values(|r: RowView| (r.name, service_prop(r)))),
            ),
        ],
    )
}

/// The schema of a property of the file.
pub open spec fn root_prop(r: RowView) -> JsonView {
    if r.kind == PropKind::Service {
        service_schema()
    } else {
        simple_prop(r)
    }
}

/// The schema of `.partiri.jsonc`.
pub open spec fn schema_view() -> JsonView {
    JsonView::Obj(
        seq![
            ("$schema"@, JsonView::Str("http://json-schema.org/draft-07/schema#"@)),
            ("title"@, JsonView::Str(".partiri.jsonc"@)),
            (
                "description"@,
                JsonView::Str("Per-service config file consumed by the partiri CLI."@),
            ),
            ("type"@, JsonView::Str("object"@)),
            ("required"@, strings_view(strs(ROOT_REQUIRED@))),
            (
                "properties"@,
                JsonView::Obj(root_rows().map_values(|r: RowView| (r.name, root_prop(r)))),
            ),
            ("rules"@, strings_view(strs(RULES@))),
        ],
    )
}

fn string_list(list: &[&str]) -> (r: Json)
    ensures
        r@ == strings_view(strs(list@)),
{
    let v = owned(list);
    Json::strings(&v)
}

fn nullable_type(t: &str) -> (r: Json)
    ensures
        r@ == nullable(t@).1,
{
    let mut v: Vec<Json> = Vec::new();
    v.push(Json::str(t));
    v.push(Json::str("null"));
    proof {
        array_view(v);
        assert(items_view(v@) =~= seq![JsonView::Str(t@), JsonView::Str("null"@)]);
    }
    Json::Arr(v)
}

fn simple_json(p: &PropRow) -> (r: Json)
    ensures
        r@ == simple_prop(p@),
{
    let base = Json::object().with("description", Json::str(p.description));
    let r = match p.kind {
        PropKind::Text => base.with("type", Json::str("string")),
        PropKind::OptionalText => base.with("type", nullable_type("string")),
        PropKind::Name => base.with("type", Json::str("string")).with(
            "maxLength",
            Json::num(MAX_NAME_LEN as u64),
        ),
        PropKind::DeployType => base.with("type", Json::str("string")).with(
            "enum",
            string_list(DEPLOY_TYPES.as_slice()),
        ),
        PropKind::Runtime => base.with("type", Json::str("string")).with(
            "enum",
            string_list(RUNTIMES.as_slice()),
        ),
        PropKind::RootPath => base.with("type", Json::str("string")).with(
            "default",
            Json::str("."),
        ),
        PropKind::Off => base.with("type", Json::str("boolean")).with(
            "default",
            Json::Bool(false),
        ),
        PropKind::On => base.with("type", Json::str("boolean")).with("default", Json::Bool(true)),
        PropKind::Size => base.with("type", Json::str("integer")).with(
            "format",
            Json::str("uint32"),
        ).with("minimum", Json::num(DISK_SIZE_MIN as u64)).with(
            "maximum",
            Json::num(DISK_SIZE_MAX as u64),
        ),
        _ => base,
    };
    assert(r@->Obj_0 =~= simple_prop(p@)->Obj_0);
    r
}

fn disk_json() -> (r: Json)
    ensures
        r@ == disk_schema(),
{
    let rows = disk_table();
    let mut members: Vec<Member> = Vec::new();
    for i in 0..rows.len()
        invariant
            members@.len() == i,
            forall|k: int|
                0 <= k < i ==> (#[trigger] members@[k]).key@ == rows@[k]@.name && json_view(
                    members@[k].value,
                ) == simple_prop(rows@[k]@),
    {
        members.push(Member { key: rows[i].name.to_owned(), value: simple_json(&rows[i]) });
    }
    proof {
        object_view(members);
        assert forall|k: int| 0 <= k < rows@.len() implies disk_rows()[k] == rows@[k]@ by {
            assert(rows_view(rows@)[k] == rows@[k]@);
        }
        assert(rows_view(rows@).len() == rows@.len());
        assert(members_view(members@) =~= simple_props(disk_rows())->Obj_0);
    }
    let r = Json::object().with("description", Json::str(ABOUT_DISK)).with(
        "type",
        nullable_type("object"),
    ).with("required", string_list(DISK_REQUIRED.as_slice())).with(
        "properties",
        Json::Obj(members),
    );
    assert(r@->Obj_0 =~= disk_schema()->Obj_0);
    r
}

fn service_json() -> (r: Json)
    ensures
        r@ == service_schema(),
{
    let rows = service_table();
    let mut members: Vec<Member> = Vec::new();
    for i in 0..rows.len()
        invariant
            members@.len() == i,
            forall|k: int|
                0 <= k < i ==> (#[trigger] members@[k]).key@ == rows@[k]@.name && json_view(
                    members@[k].value,
                ) == service_prop(rows@[k]@),
    {
        let value = match rows[i].kind {
            PropKind::Disk => disk_json(),
            _ => simple_json(&rows[i]),
        };
        members.push(Member { key: rows[i].name.to_owned(), value });
    }
    proof {
        object_view(members);
        assert forall|k: int| 0 <= k < rows@.len() implies service_rows()[k] == rows@[k]@ by {
            assert(rows_view(rows@)[k] == rows@[k]@);
        }
        assert(rows_view(rows@).len() == rows@.len());
        assert(members_view(members@) =~= service_rows().map_values(
            |r: RowView| (r.name, service_prop(r)),
        ));
    }
    let r = Json::object().with("description", Json::str(ABOUT_SERVICE)).with(
        "type",
        Json::str("object"),
    ).with("required", string_list(SERVICE_REQUIRED.as_slice())).with(
        "properties",
        Json::Obj(members),
    );
    assert(r@->Obj_0 =~= service_schema()->Obj_0);
    r
}

/// The JSON Schema of `.partiri.jsonc`.
pub fn config_schema() -> (r: Json)
    ensures
        r@ == schema_view(),
{
    let rows = root_table();
    let mut members: Vec<Member> = Vec::new();
    for i in 0..rows.len()
        invariant
            members@.len() == i,
            forall|k: int|
                0 <= k < i ==> (#[trigger] members@[k]).key@ == rows@[k]@.name && json_view(
                    members@[k].value,
                ) == root_prop(rows@[k]@),
    {
        let value = match rows[i].kind {
            PropKind::Service => service_json(),
            _ => simple_json(&rows[i]),
        };
        members.push(Member { key: rows[i].name.to_owned(), value });
    }
    proof {
        object_view(members);
        assert forall|k: int| 0 <= k < rows@.len() implies root_rows()[k] == rows@[k]@ by {
            assert(rows_view(rows@)[k] == rows@[k]@);
        }
        assert(rows_view(rows@).len() == rows@.len());
        assert(members_view(members@) =~= root_rows().map_values(
            |r: RowView| (r.name, root_prop(r)),
        ));
    }
    let r = Json::object().with(
        "$schema",
        Json::str("http://json-schema.org/draft-07/schema#"),
    ).with("title", Json::str(".partiri.jsonc")).with(
        "description",
        Json::str("Per-service config file consumed by the partiri CLI."),
    ).with("type", Json::str("object")).with(
        "required",
        string_list(ROOT_REQUIRED.as_slice()),
    ).with("properties", Json::Obj(members)).with("rules", string_list(RULES.as_slice()));
    assert(r@->Obj_0 =~= schema_view()->Obj_0);
    r
}

// ─── The index ─────────────────────────────────────────────────────────────

/// What is known of one property.
#[derive(Debug)]
pub struct PropInfo {
    pub description: String,
    /// The values that it admits, where they are listed.
    pub enum_values: Vec<String>,
}

pub ghost struct InfoView {
    pub description: Seq<char>,
    pub enum_values: Seq<Seq<char>>,
}

impl View for PropInfo {
    type V = InfoView;

    open spec fn view(&self) -> InfoView {
        InfoView { description: self.description@, enum_values: views(self.enum_values@) }
    }
}

/// One entry of a table of properties.
#[derive(Debug)]
pub struct PropEntry {
    pub key: String,
    pub info: PropInfo,
}

/// The properties of one object, in the order of their names.
#[derive(Debug)]
pub struct PropTable {
    pub entries: Vec<PropEntry>,
}

pub type TableView = Seq<(Seq<char>, InfoView)>;

impl View for PropTable {
    type V = TableView;

    open spec fn view(&self) -> TableView {
        self.entries@.map_values(|e: PropEntry| (e.key@, e.info@))
    }
}

/// The first entry at or after `from` with the name, or the number of entries.
pub open spec fn entry_index(t: TableView, key: Seq<char>, from: int) -> int
    decreases t.len() - from,
{
    if from >= t.len() {
        t.len() as int
    } else if t[from].0 == key {
        from
    } else {
        entry_index(t, key, from + 1)
    }
}

/// What a table knows of a property.
pub open spec fn known_info(t: TableView, key: Seq<char>) -> Option<InfoView> {
    if entry_index(t, key, 0) < t.len() {
        Some(t[entry_index(t, key, 0)].1)
    } else {
        None
    }
}

impl PropTable {
    /// What is known of a property.
    pub fn get(&self, key: &str) -> (r: Option<&PropInfo>)
        ensures
            r is Some <==> known_info(self@, key@) is Some,
            r is Some ==> r->0@ == known_info(self@, key@)->0,
    {
        let mut i: usize = 0;
        while i < self.entries.len()
            invariant
                i <= self.entries@.len(),
                entry_index(self@, key@, 0) == entry_index(self@, key@, i as int),
            decreases self.entries@.len() - i,
        {
            if str_eq(self.entries[i].key.as_str(), key) {
                return Some(&self.entries[i].info);
            }
            i += 1;
        }
        None
    }

    /// Whether the table has a property.
    pub fn contains_key(&self, key: &str) -> (r: bool)
        ensures
            r == known_info(self@, key@) is Some,
    {
        self.get(key).is_some()
    }
}

/// The values that a kind lists.
pub open spec fn kind_values(kind: PropKind) -> Seq<Seq<char>> {
    match kind {
        PropKind::DeployType => strs(DEPLOY_TYPES@),
        PropKind::Runtime => strs(RUNTIMES@),
        _ => seq![],
    }
}

pub open spec fn info_of(r: RowView) -> InfoView {
    InfoView { description: r.description, enum_values: kind_values(r.kind) }
}

pub open spec fn table_of(rows: Seq<RowView>) -> TableView {
    rows.map_values(|r: RowView| (r.name, info_of(r)))
}

/// The index entries of some properties.
pub fn props_of(rows: &Vec<PropRow>) -> (r: PropTable)
    ensures
        r@ == table_of(rows_view(rows@)),
{
    let mut entries: Vec<PropEntry> = Vec::new();
    for i in 0..rows.len()
        invariant
            entries@.len() == i,
            forall|k: int|
                0 <= k < i ==> ((#[trigger] entries@[k]).key@, entries@[k].info@) == (
                    rows@[k]@.name,
                    info_of(rows@[k]@),
                ),
    {
        let p = &rows[i];
        let enum_values = match p.kind {
            PropKind::DeployType => owned(DEPLOY_TYPES.as_slice()),
            PropKind::Runtime => owned(RUNTIMES.as_slice()),
            _ => crate::error::list0(),
        };
        entries.push(
            PropEntry {
                key: p.name.to_owned(),
                info: PropInfo { description: p.description.to_owned(), enum_values },
            },
        );
    }
    let r = PropTable { entries };
    assert(r@ =~= table_of(rows_view(rows@)));
    r
}

/// The properties at the three levels of the file.
#[derive(Debug)]
pub struct SchemaIndex {
    pub root: PropTable,
    pub service: PropTable,
    pub disk: PropTable,
}

/// The properties of the object at a path: the file, `service`, or
/// `service.disk`.
pub open spec fn level_of(path: Seq<Seq<char>>) -> Option<TableView> {
    if path.len() == 0 {
        Some(table_of(root_rows()))
    } else if path.len() == 1 && path[0] == "service"@ {
        Some(table_of(service_rows()))
    } else if path.len() == 2 && path[0] == "service"@ && path[1] == "disk"@ {
        Some(table_of(disk_rows()))
    } else {
        None
    }
}

/// What the schema says of the property `key` of the object at a path.
pub open spec fn described(path: Seq<Seq<char>>, key: Seq<char>) -> Option<InfoView> {
    match level_of(path) {
        Some(t) => known_info(t, key),
        None => None,
    }
}

impl SchemaIndex {
    /// Whether this is the index of the schema.
    pub open spec fn wf(&self) -> bool {
        &&& self.root@ == table_of(root_rows())
        &&& self.service@ == table_of(service_rows())
        &&& self.disk@ == table_of(disk_rows())
    }

    /// The index of the schema.
    pub fn build() -> (r: SchemaIndex)
        ensures
            r.wf(),
    {
        let root = root_table();
        let service = service_table();
        let disk = disk_table();
        SchemaIndex { root: props_of(&root), service: props_of(&service), disk: props_of(&disk) }
    }

    /// The properties of the object at a path.
    pub fn level(&self, path: &[String]) -> (r: Option<&PropTable>)
        requires
            self.wf(),
        ensures
            r is Some <==> level_of(views(path@)) is Some,
            r is Some ==> r->0@ == level_of(views(path@))->0,
    {
        let ghost p = views(path@);
        assert(p.len() == path@.len());
        if path.len() == 0 {
            return Some(&self.root);
        }
        assert(p[0] == path@[0]@);
        if path.len() == 1 && str_eq(path[0].as_str(), "service") {
            return Some(&self.service);
        }
        if path.len() == 2 {
            assert(p[1] == path@[1]@);
            if str_eq(path[0].as_str(), "service") && str_eq(path[1].as_str(), "disk") {
                return Some(&self.disk);
            }
        }
        None
    }

    /// What the schema says of a property.
    pub fn describe(&self, path: &[String], key: &str) -> (r: Option<&PropInfo>)
        requires
            self.wf(),
        ensures
            r is Some <==> described(views(path@), key@) is Some,
            r is Some ==> r->0@ == described(views(path@), key@)->0,
    {
        match self.level(path) {
            Some(t) => t.get(key),
            None => None,
        }
    }
}

// ─── Laws ──────────────────────────────────────────────────────────────────

/// The index says of a property what the published schema says: the same
/// description.
pub proof fn index_agrees_with_the_schema(r: RowView)
    ensures
        member_string(simple_prop(r), "description"@) == Some(info_of(r).description),
        member_string(disk_schema(), "description"@) == Some(ABOUT_DISK@),
        member_string(service_schema(), "description"@) == Some(ABOUT_SERVICE@),
{
    let m = simple_prop(r)->Obj_0;
    assert(m[0].0 == "description"@);
    let d = disk_schema()->Obj_0;
    assert(d[0].0 == "description"@);
    let s = service_schema()->Obj_0;
    assert(s[0].0 == "description"@);
}

proof fn entry_missing(t: TableView, key: Seq<char>, from: int)
    requires
        0 <= from <= t.len(),
        forall|i: int| 0 <= i < t.len() ==> (#[trigger] t[i]).0 != key,
    ensures
        entry_index(t, key, from) == t.len(),
    decreases t.len() - from,
{
    if from < t.len() {
        entry_missing(t, key, from + 1);
    }
}

/// The environment is no property of the `service` block.
pub proof fn env_is_not_in_the_schema()
    ensures
        known_info(table_of(service_rows()), "env"@) is None,
{
    let t = table_of(service_rows());
    reveal_strlit("env");
    assert("env"@.len() == 3);
    assert forall|i: int| 0 <= i < t.len() implies (#[trigger] t[i]).0 != "env"@ by {
        service_names_are_longer(i);
        assert(t[i].0 == service_rows()[i].name);
    }
    entry_missing(t, "env"@, 0);
}

proof fn service_names_are_longer(i: int)
    requires
        0 <= i < service_rows().len(),
    ensures
        service_rows()[i].name.len() > 3,
{
    reveal_strlit("active");
    reveal_strlit("build_command");
    reveal_strlit("build_path");
    reveal_strlit("deploy_type");
    reveal_strlit("disk");
    reveal_strlit("fk_pod");
    reveal_strlit("fk_region");
    reveal_strlit("fk_service_secret");
    reveal_strlit("health_check_path");
    reveal_strlit("maintenance_mode");
    reveal_strlit("name");
    reveal_strlit("pre_deploy_command");
    reveal_strlit("registry_url");
    reveal_strlit("repository_branch");
    reveal_strlit("repository_url");
    reveal_strlit("root_path");
    reveal_strlit("run_command");
    reveal_strlit("runtime");
}

} // verus!
