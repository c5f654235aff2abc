//! `partiri storage`: create, inspect and manage persistent volumes.
use vstd::prelude::*;
use vstd::string::*;

use crate::client::{query, ApiClient, ApiRequest, Volume, VolumeUpdate};
use crate::config::{
    config_display, config_display_of, not_created, ConfigOverride, DiskConfig, PartiriConfig,
    DISK_SIZE_MAX, DISK_SIZE_MIN,
};
use crate::error::{validation_error_with_hint, validation_hint_of};
use crate::error::{CliErrorView, Failure, FailureView};
use crate::json::{opt_string_view, Json, JsonView};
use crate::output::{message_only, report, report_with, Ctx, Listing, Report, ReportView};
use crate::seqs::{first_item, first_where};
use crate::service::create::{derive_volume_name, lowercased, strip_end, volume_name_of};
use crate::text::{
    cat3, cat5, cat7, chars_of, decimal, decimal_of, opt_view, or_empty, slice_contains, str_eq,
    strs, text_or_empty, trim, trimmed,
};

verus! {

/// Mount paths that would shadow the container's own file system.
pub const RESERVED_MOUNT_PATHS: [&'static str; 16] = [
    "/",
    "/bin",
    "/boot",
    "/dev",
    "/etc",
    "/home",
    "/lib",
    "/lib64",
    "/proc",
    "/root",
    "/run",
    "/sbin",
    "/sys",
    "/tmp",
    "/usr",
    "/var",
];

// ─── Disks ─────────────────────────────────────────────────────────────────

/// The error for a configuration without a disk block.
pub open spec fn no_disk_error(over: Option<Seq<char>>) -> CliErrorView {
    validation_hint_of(
        "No 'service.disk' block in "@ + config_display_of(over) + "."@,
        "Add it, then re-run: \"disk\": { \"mount_path\": \"/app/data\", \"size\": 1 } (size in GB, 1–10)."@,
    )
}

/// The disk block, or an error that asks for one.
pub fn disk_or_err<'a>(config: &'a PartiriConfig, over: &ConfigOverride) -> (r: Result<
    &'a DiskConfig,
    Failure,
>)
    ensures
        r is Ok <==> config.service.disk is Some,
        r is Ok ==> *r->Ok_0 == config.service.disk->0,
        r is Err ==> r->Err_0@ == FailureView::Cli(no_disk_error(over@)),
{
    match &config.service.disk {
        Some(d) => Ok(d),
        None => {
            let shown = config_display(over);
            let message = cat3("No 'service.disk' block in ", shown.as_str(), ".");
            Err(
                validation_error_with_hint(
                    message.as_str(),
                    "Add it, then re-run: \"disk\": { \"mount_path\": \"/app/data\", \"size\": 1 } (size in GB, 1–10).",
                ),
            )
        },
    }
}

/// Whether a path is a reserved directory once its trailing slashes are gone.
pub open spec fn is_reserved_mount(path: Seq<char>) -> bool {
    strip_end(path, '/').len() == 0 || strs(RESERVED_MOUNT_PATHS@).contains(strip_end(path, '/'))
}

/// What is wrong with a disk block: the first of its size, whitespace around
/// the path, a relative path, and a reserved directory.
pub open spec fn disk_problem(d: DiskConfig) -> Option<CliErrorView> {
    let path = d.mount_path@;
    if d.size < DISK_SIZE_MIN || d.size > DISK_SIZE_MAX {
        Some(
            validation_hint_of(
                "disk.size must be between 1 and 10 GB (got "@ + decimal_of(d.size as nat) + ")."@,
                "Edit the 'disk.size' value in .partiri.jsonc."@,
            ),
        )
    } else if path != trimmed(path) {
        Some(
            validation_hint_of(
                "disk.mount_path '"@ + path + "' has leading or trailing whitespace."@,
                "Remove the surrounding spaces, e.g. '/app/data'."@,
            ),
        )
    } else if !(path.len() > 0 && path[0] == '/') {
        Some(
            validation_hint_of(
                "disk.mount_path must be an absolute path (got '"@ + path + "')."@,
                "Use a path like '/app/data'."@,
            ),
        )
    } else if is_reserved_mount(path) {
        Some(
            validation_hint_of(
                "disk.mount_path '"@ + path + "' is a reserved system directory."@,
                "Mount the volume somewhere your app owns, e.g. '/app/data' or '/var/lib/app'."@,
            ),
        )
    } else {
        None
    }
}

/// `path` without the slashes at its end.
fn without_trailing_slashes(path: &str) -> (r: &str)
    ensures
        r@ == strip_end(path@, '/'),
{
    let cs = chars_of(path);
    let mut end: usize = cs.len();
    assert(path@.subrange(0, path@.len() as int) =~= path@);
    while end > 0 && cs[end - 1] == '/'
        invariant
            cs@ == path@,
            end <= cs@.len(),
            strip_end(path@, '/') == strip_end(path@.subrange(0, end as int), '/'),
        decreases end,
    {
        assert(path@.subrange(0, end as int).drop_last() =~= path@.subrange(0, end - 1));
        end -= 1;
    }
    path.substring_char(0, end)
}

/// Check a disk block before any request is made.
pub fn validate_disk(disk: &DiskConfig) -> (r: Result<(), Failure>)
    ensures
        r is Ok <==> disk_problem(*disk) is None,
        r is Err ==> r->Err_0@ == FailureView::Cli(disk_problem(*disk)->0),
{
    let path = disk.mount_path.as_str();
    if disk.size < DISK_SIZE_MIN || disk.size > DISK_SIZE_MAX {
        let size = decimal(disk.size as u64);
        let message = cat3(
            "disk.size must be between 1 and 10 GB (got ",
            size.as_str(),
            ").",
        );
        return Err(
            validation_error_with_hint(
                message.as_str(),
                "Edit the 'disk.size' value in .partiri.jsonc.",
            ),
        );
    }
    if !str_eq(path, trim(path)) {
        let message = cat3("disk.mount_path '", path, "' has leading or trailing whitespace.");
        return Err(
            validation_error_with_hint(
                message.as_str(),
                "Remove the surrounding spaces, e.g. '/app/data'.",
            ),
        );
    }
    let cs = chars_of(path);
    if !(cs.len() > 0 && cs[0] == '/') {
        let message = cat3("disk.mount_path must be an absolute path (got '", path, "').");
        return Err(
            validation_error_with_hint(message.as_str(), "Use a path like '/app/data'."),
        );
    }
    let mount = without_trailing_slashes(path);
    if mount.is_empty() || slice_contains(RESERVED_MOUNT_PATHS.as_slice(), mount) {
        let message = cat3("disk.mount_path '", path, "' is a reserved system directory.");
        return Err(
            validation_error_with_hint(
                message.as_str(),
                "Mount the volume somewhere your app owns, e.g. '/app/data' or '/var/lib/app'.",
            ),
        );
    }
    Ok(())
}

/// A mount path without trailing slashes; `/` for a path of nothing else.
pub open spec fn canonical_mount(path: Seq<char>) -> Seq<char> {
    if strip_end(path, '/').len() == 0 {
        "/"@
    } else {
        strip_end(path, '/')
    }
}

/// The form of a mount path in which two paths are compared and sent.
pub fn canonical_mount_path(path: &str) -> (r: &str)
    ensures
        r@ == canonical_mount(path@),
{
    let t = without_trailing_slashes(path);
    if t.is_empty() {
        "/"
    } else {
        t
    }
}

// ─── Volumes ───────────────────────────────────────────────────────────────

/// The volume for a disk block of a service.
pub open spec fn is_volume_for(
    v: Volume,
    config: PartiriConfig,
    service_id: Seq<char>,
    disk: DiskConfig,
) -> bool {
    &&& v.id is None
    &&& v.name@ == volume_name_of(lowercased(config.service.name@))
    &&& v.fk_project == config.fk_project
    &&& v.fk_workspace == config.fk_workspace
    &&& v.fk_region == config.service.fk_region
    &&& opt_view(v.fk_service) == Some(service_id)
    &&& v.mount_path@ == canonical_mount(disk.mount_path@)
    &&& v.size == disk.size
    &&& v.status@ == "pending"@
    &&& v.created_at is None
}

/// The volume to create for the disk block of a service.
pub fn build_volume(config: &PartiriConfig, service_id: &str, disk: &DiskConfig) -> (r: Volume)
    ensures
        is_volume_for(r, *config, service_id@, *disk),
{
    Volume {
        id: None,
        name: derive_volume_name(config.service.name.as_str()),
        fk_project: config.fk_project.clone(),
        fk_workspace: config.fk_workspace.clone(),
        fk_region: config.service.fk_region.clone(),
        fk_service: Some(service_id.to_owned()),
        mount_path: canonical_mount_path(disk.mount_path.as_str()).to_owned(),
        size: disk.size,
        status: "pending".to_owned(),
        created_at: None,
    }
}

/// A volume of the service that is not on its way out.
pub open spec fn is_live_volume(v: Volume, service_id: Seq<char>) -> bool {
    &&& opt_view(v.fk_service) == Some(service_id)
    &&& v.status@ != "deleting"@
    &&& v.status@ != "failed"@
}

pub open spec fn live_volume_of(service_id: Seq<char>) -> spec_fn(Volume) -> bool {
    |v: Volume| is_live_volume(v, service_id)
}

/// The volume of a service among those of its project: the first that is
/// neither being deleted nor failed.
pub open spec fn service_volume(volumes: Seq<Volume>, service_id: Seq<char>) -> Option<Volume> {
    first_item(volumes, live_volume_of(service_id))
}

fn is_live(v: &Volume, service_id: &str) -> (r: bool)
    ensures
        r == is_live_volume(*v, service_id@),
{
    match &v.fk_service {
        Some(s) => str_eq(s.as_str(), service_id) && !str_eq(v.status.as_str(), "deleting")
            && !str_eq(v.status.as_str(), "failed"),
        None => false,
    }
}

pub fn find_service_volume<'a>(volumes: &'a [Volume], service_id: &str) -> (r: Option<&'a Volume>)
    ensures
        r is Some <==> service_volume(volumes@, service_id@) is Some,
        r is Some ==> *r->0 == service_volume(volumes@, service_id@)->0,
{
    let ghost p = live_volume_of(service_id@);
    let mut i: usize = 0;
    while i < volumes.len()
        invariant
            i <= volumes@.len(),
            p == live_volume_of(service_id@),
            first_where(volumes@, p, 0) == first_where(volumes@, p, i as int),
        decreases volumes@.len() - i,
    {
        if is_live(&volumes[i], service_id) {
            assert(p(volumes@[i as int]));
            return Some(&volumes[i]);
        }
        assert(!p(volumes@[i as int]));
        i += 1;
    }
    None
}

/// The disk block that describes a volume.
pub fn disk_from_volume(vol: &Volume) -> (r: DiskConfig)
    ensures
        r.mount_path == vol.mount_path,
        r.size == vol.size,
{
    DiskConfig { mount_path: vol.mount_path.clone(), size: vol.size }
}

/// Whether a disk block and a volume agree: same size, and same mount path up
/// to trailing slashes.
pub open spec fn same_disk(vol: Volume, disk: DiskConfig) -> bool {
    vol.size == disk.size && canonical_mount(vol.mount_path@) == canonical_mount(disk.mount_path@)
}

/// The change that brings a volume to a disk block: only what differs.
pub open spec fn is_diff(u: VolumeUpdate, vol: Volume, disk: DiskConfig) -> bool {
    &&& u.size == if disk.size != vol.size {
        Some(disk.size)
    } else {
        None
    }
    &&& opt_view(u.mount_path) == if canonical_mount(disk.mount_path@) != canonical_mount(
        vol.mount_path@,
    ) {
        Some(canonical_mount(disk.mount_path@))
    } else {
        None
    }
}

pub fn diff_volume(vol: &Volume, disk: &DiskConfig) -> (r: VolumeUpdate)
    ensures
        is_diff(r, *vol, *disk),
{
    let desired = canonical_mount_path(disk.mount_path.as_str());
    VolumeUpdate {
        size: if disk.size != vol.size {
            Some(disk.size)
        } else {
            None
        },
        mount_path: if !str_eq(desired, canonical_mount_path(vol.mount_path.as_str())) {
            Some(desired.to_owned())
        } else {
            None
        },
    }
}

// ─── Output ────────────────────────────────────────────────────────────────

/// A row of the table of volumes.
#[derive(Debug)]
pub struct VolumeRow {
    pub name: String,
    pub status: String,
    pub size: u32,
    pub mount_path: String,
    pub fk_service: String,
    pub id: String,
}

pub open spec fn is_row_of(row: VolumeRow, v: Volume) -> bool {
    &&& row.id@ == or_empty(v.id)
    &&& row.name == v.name
    &&& row.status == v.status
    &&& row.size == v.size
    &&& row.mount_path == v.mount_path
    &&& row.fk_service@ == or_empty(v.fk_service)
}

pub fn volume_row(v: &Volume) -> (r: VolumeRow)
    ensures
        is_row_of(r, *v),
{
    VolumeRow {
        name: v.name.clone(),
        status: v.status.clone(),
        size: v.size,
        mount_path: v.mount_path.clone(),
        fk_service: text_or_empty(&v.fk_service),
        id: text_or_empty(&v.id),
    }
}

/// The rows of the table of volumes, one per volume.
fn volume_rows(volumes: &Vec<Volume>) -> (r: Vec<VolumeRow>)
    ensures
        r@.len() == volumes@.len(),
        forall|i: int| 0 <= i < r@.len() ==> is_row_of(#[trigger] r@[i], volumes@[i]),
{
    let mut out: Vec<VolumeRow> = Vec::new();
    for i in 0..volumes.len()
        invariant
            out@.len() == i,
            forall|k: int| 0 <= k < i ==> is_row_of(#[trigger] out@[k], volumes@[k]),
    {
        out.push(volume_row(&volumes[i]));
    }
    out
}

/// `storage list`: the table of the project's volumes.
pub fn run_list(volumes: &Vec<Volume>, ctx: Ctx) -> (r: Listing<VolumeRow>)
    ensures
        volumes@.len() == 0 && !ctx.json ==> r is Message && r->Message_0@
            == "No volumes found in this project."@,
        volumes@.len() == 0 && ctx.json ==> r is Data && r->Data_0@ == JsonView::Obj(
            seq![("data"@, JsonView::Arr(seq![]))],
        ),
        volumes@.len() > 0 ==> r is Rows && r->Rows_0@.len() == volumes@.len() && forall|i: int|
            0 <= i < volumes@.len() ==> is_row_of(#[trigger] r->Rows_0@[i], volumes@[i]),
{
    if volumes.len() == 0 {
        if ctx.json {
            let none: Vec<String> = Vec::new();
            let data = Json::object().with("data", Json::strings(&none));
            assert(data@->Obj_0 =~= seq![("data"@, JsonView::Arr(seq![]))]) by {
                assert(crate::json::strings_view(crate::text::views(none@))->Arr_0 =~= seq![]);
            }
            return Listing::Data(data);
        }
        return Listing::Message("No volumes found in this project.".to_owned());
    }
    Listing::Rows(volume_rows(volumes))
}

/// What is shown of a volume in JSON.
pub open spec fn volume_json_of(v: Volume) -> JsonView {
    JsonView::Obj(
        seq![
            ("id"@, opt_string_view(opt_view(v.id))),
            ("name"@, JsonView::Str(v.name@)),
            ("status"@, JsonView::Str(v.status@)),
            ("size"@, JsonView::Num(decimal_of(v.size as nat))),
            ("mount_path"@, JsonView::Str(v.mount_path@)),
            ("fk_service"@, opt_string_view(opt_view(v.fk_service))),
            ("fk_region"@, JsonView::Str(v.fk_region@)),
            ("fk_project"@, JsonView::Str(v.fk_project@)),
            ("created_at"@, opt_string_view(opt_view(v.created_at))),
        ],
    )
}

pub fn volume_json(v: &Volume) -> (r: Json)
    ensures
        r@ == volume_json_of(*v),
{
    let r = Json::object().with("id", Json::opt(&v.id)).with(
        "name",
        Json::str(v.name.as_str()),
    ).with("status", Json::str(v.status.as_str())).with("size", Json::num(v.size as u64)).with(
        "mount_path",
        Json::str(v.mount_path.as_str()),
    ).with("fk_service", Json::opt(&v.fk_service)).with(
        "fk_region",
        Json::str(v.fk_region.as_str()),
    ).with("fk_project", Json::str(v.fk_project.as_str())).with(
        "created_at",
        Json::opt(&v.created_at),
    );
    assert(r@->Obj_0 =~= volume_json_of(*v)->Obj_0);
    r
}

// ─── Commands ──────────────────────────────────────────────────────────────

/// What `storage create` and `storage update` check before any request: the
/// service exists, and its disk block is there and in order.
pub open spec fn local_problem(config: PartiriConfig, over: Option<Seq<char>>) -> Option<
    FailureView,
> {
    if config.id is None {
        Some(not_created())
    } else {
        match config.service.disk {
            None => Some(FailureView::Cli(no_disk_error(over))),
            Some(d) => match disk_problem(d) {
                Some(e) => Some(FailureView::Cli(e)),
                None => None,
            },
        }
    }
}

fn checked_disk<'a>(config: &'a PartiriConfig, over: &ConfigOverride) -> (r: Result<
    (&'a str, &'a DiskConfig),
    Failure,
>)
    ensures
        r is Ok <==> local_problem(*config, over@) is None,
        r is Ok ==> {
            &&& r->Ok_0.0@ == config.id->0@
            &&& *r->Ok_0.1 == config.service.disk->0
        },
        r is Err ==> r->Err_0@ == local_problem(*config, over@)->0,
{
    match config.id_or_err() {
        Ok(id) => match disk_or_err(config, over) {
            Ok(disk) => match validate_disk(disk) {
                Ok(_) => Ok((id, disk)),
                Err(e) => Err(e),
            },
            Err(e) => Err(e),
        },
        Err(e) => Err(e),
    }
}

/// The first request of `storage create` and `storage update`: the volumes of
/// the project, once the local checks pass.
pub fn list_request(config: &PartiriConfig, over: &ConfigOverride) -> (r: Result<
    ApiRequest,
    Failure,
>)
    ensures
        r is Ok <==> local_problem(*config, over@) is None,
        r is Ok ==> r->Ok_0@ == query("/storage/volumes"@, seq![("project"@, config.fk_project@)]),
        r is Err ==> r->Err_0@ == local_problem(*config, over@)->0,
{
    match checked_disk(config, over) {
        Ok(_) => Ok(ApiClient::list_volumes(config.fk_project.as_str())),
        Err(e) => Err(e),
    }
}

/// The error for a service that has a volume already.
pub open spec fn has_volume_error(service_id: Seq<char>, v: Volume) -> CliErrorView {
    validation_hint_of(
        "Service "@ + service_id + " already has a volume ("@ + or_empty(v.id) + ", "@ + decimal_of(
            v.size as nat,
        ) + " GB at "@ + v.mount_path@ + ", status: "@ + v.status@ + ")."@,
        "Edit the 'service.disk' block and run 'partiri storage update' to resize or remount it (a size decrease is not possible)."@,
    )
}

/// `storage create`: the volume to create, given the volumes of the project.
/// A service that has a live volume gets no second one.
pub fn run_create(config: &PartiriConfig, over: &ConfigOverride, existing: &Vec<Volume>) -> (r:
    Result<Volume, Failure>)
    ensures
        local_problem(*config, over@) matches Some(e) ==> r is Err && r->Err_0@ == e,
        local_problem(*config, over@) is None ==> {
            let id = config.id->0@;
            match service_volume(existing@, id) {
                Some(v) => r is Err && r->Err_0@ == FailureView::Cli(has_volume_error(id, v)),
                None => r is Ok && is_volume_for(r->Ok_0, *config, id, config.service.disk->0),
            }
        },
{
    let (service_id, disk) = match checked_disk(config, over) {
        Ok(pair) => pair,
        Err(e) => {
            return Err(e);
        },
    };
    match find_service_volume(existing.as_slice(), service_id) {
        Some(vol) => {
            let id = text_or_empty(&vol.id);
            let size = decimal(vol.size as u64);
            let mut message = cat7(
                "Service ",
                service_id,
                " already has a volume (",
                id.as_str(),
                ", ",
                size.as_str(),
                " GB at ",
            );
            message.append(vol.mount_path.as_str());
            message.append(", status: ");
            message.append(vol.status.as_str());
            message.append(").");
            Err(
                validation_error_with_hint(
                    message.as_str(),
                    "Edit the 'service.disk' block and run 'partiri storage update' to resize or remount it (a size decrease is not possible).",
                ),
            )
        },
        None => Ok(build_volume(config, service_id, disk)),
    }
}

/// `id (size GB at path, status: s)` of a volume.
pub open spec fn described(id: Seq<char>, did: Seq<char>, v: Volume) -> Seq<char> {
    "Volume "@ + id + did + decimal_of(v.size as nat) + " GB at "@ + v.mount_path@ + ", status: "@
        + v.status@ + ")."@
}

fn describe(id: &str, did: &str, v: &Volume) -> (r: String)
    ensures
        r@ == described(id@, did@, *v),
{
    let size = decimal(v.size as u64);
    let mut out = cat7(
        "Volume ",
        id,
        did,
        size.as_str(),
        " GB at ",
        v.mount_path.as_str(),
        ", status: ",
    );
    out.append(v.status.as_str());
    out.append(").");
    out
}

/// The report on a volume that was created for a service.
pub fn created_report(created: &Volume, service_id: &str) -> (r: Report)
    ensures
        r@ == (ReportView {
            message: described(or_empty(created.id), " created ("@, *created),
            data: Some(volume_json_of(*created)),
            notes: seq![
                "It attaches to service "@ + service_id@
                    + " once provisioning finishes; deploy to mount it."@,
            ],
        }),
{
    let id = text_or_empty(&created.id);
    let note = cat3(
        "It attaches to service ",
        service_id,
        " once provisioning finishes; deploy to mount it.",
    );
    Report {
        message: describe(id.as_str(), " created (", created),
        data: Some(volume_json(created)),
        notes: crate::error::list1(note.as_str()),
    }
}

/// What `storage update` does.
#[derive(Debug)]
pub enum UpdatePlan {
    /// The volume matches already: the message.
    Nothing(String),
    /// Send these changes for the volume with this id.
    Patch(String, VolumeUpdate),
}

pub open spec fn no_volume_error(service_id: Seq<char>) -> CliErrorView {
    validation_hint_of(
        "Service "@ + service_id + " has no volume to update."@,
        "Run 'partiri storage create' to provision the disk declared in .partiri.jsonc."@,
    )
}

pub open spec fn no_volume_id_error() -> CliErrorView {
    validation_hint_of(
        "The volume attached to this service has no id; cannot update it."@,
        "Run 'partiri storage list' to inspect the project's volumes."@,
    )
}

pub open spec fn shrink_error(v: Volume, d: DiskConfig) -> CliErrorView {
    let id = or_empty(v.id);
    let size = decimal_of(v.size as nat);
    validation_hint_of(
        "'disk.size' ("@ + decimal_of(d.size as nat) + " GB) is below volume "@ + id
            + "'s current size ("@ + size + " GB) — Kubernetes cannot shrink a PVC."@,
        "If you only meant to remount, set 'disk.size' back to "@ + size
            + " GB (or higher). To actually start smaller, 'partiri storage detach "@ + id
            + "' then 'partiri storage delete "@ + id
            + "' (this destroys the data) and 'partiri storage create'."@,
    )
}

pub open spec fn matches_message(v: Volume) -> Seq<char> {
    "Volume "@ + or_empty(v.id) + " already matches .partiri.jsonc ("@ + decimal_of(v.size as nat)
        + " GB at "@ + v.mount_path@ + "). Nothing to update."@
}

fn shrink_failure(vol: &Volume, disk: &DiskConfig) -> (r: Failure)
    ensures
        r@ == FailureView::Cli(shrink_error(*vol, *disk)),
{
    let id = text_or_empty(&vol.id);
    let size = decimal(vol.size as u64);
    let want = decimal(disk.size as u64);
    let message = cat7(
        "'disk.size' (",
        want.as_str(),
        " GB) is below volume ",
        id.as_str(),
        "'s current size (",
        size.as_str(),
        " GB) — Kubernetes cannot shrink a PVC.",
    );
    let hint = cat7(
        "If you only meant to remount, set 'disk.size' back to ",
        size.as_str(),
        " GB (or higher). To actually start smaller, 'partiri storage detach ",
        id.as_str(),
        "' then 'partiri storage delete ",
        id.as_str(),
        "' (this destroys the data) and 'partiri storage create'.",
    );
    validation_error_with_hint(message.as_str(), hint.as_str())
}

/// `storage update`: what to change of the service's volume, given the volumes
/// of the project. A volume never shrinks.
pub fn run_update(config: &PartiriConfig, over: &ConfigOverride, volumes: &Vec<Volume>) -> (r:
    Result<UpdatePlan, Failure>)
    ensures
        local_problem(*config, over@) matches Some(e) ==> r is Err && r->Err_0@ == e,
        local_problem(*config, over@) is None ==> {
            let id = config.id->0@;
            let disk = config.service.disk->0;
            match service_volume(volumes@, id) {
                None => r is Err && r->Err_0@ == FailureView::Cli(no_volume_error(id)),
                Some(v) => if or_empty(v.id).len() == 0 {
                    r is Err && r->Err_0@ == FailureView::Cli(no_volume_id_error())
                } else if disk.size < v.size {
                    r is Err && r->Err_0@ == FailureView::Cli(shrink_error(v, disk))
                } else if same_disk(v, disk) {
                    r is Ok && r->Ok_0 is Nothing && r->Ok_0->Nothing_0@ == matches_message(v)
                } else {
                    &&& r is Ok
                    &&& r->Ok_0 is Patch
                    &&& r->Ok_0->Patch_0@ == or_empty(v.id)
                    &&& is_diff(r->Ok_0->Patch_1, v, disk)
                    &&& r->Ok_0->Patch_1.size matches Some(n) ==> n > v.size
                },
            }
        },
{
    let (service_id, disk) = match checked_disk(config, over) {
        Ok(pair) => pair,
        Err(e) => {
            return Err(e);
        },
    };
    let vol = match find_service_volume(volumes.as_slice(), service_id) {
        Some(v) => v,
        None => {
            let message = cat3("Service ", service_id, " has no volume to update.");
            return Err(
                validation_error_with_hint(
                    message.as_str(),
                    "Run 'partiri storage create' to provision the disk declared in .partiri.jsonc.",
                ),
            );
        },
    };
    let vol_id = text_or_empty(&vol.id);
    if vol_id.as_str().is_empty() {
        return Err(
            validation_error_with_hint(
                "The volume attached to this service has no id; cannot update it.",
                "Run 'partiri storage list' to inspect the project's volumes.",
            ),
        );
    }
    if disk.size < vol.size {
        return Err(shrink_failure(vol, disk));
    }
    let changes = diff_volume(vol, disk);
    if changes.is_empty() {
        let size = decimal(vol.size as u64);
        let message = cat7(
            "Volume ",
            vol_id.as_str(),
            " already matches .partiri.jsonc (",
            size.as_str(),
            " GB at ",
            vol.mount_path.as_str(),
            "). Nothing to update.",
        );
        return Ok(UpdatePlan::Nothing(message));
    }
    Ok(UpdatePlan::Patch(vol_id, changes))
}

/// The report on a volume that was updated.
pub fn updated_report(volume_id: &str, updated: &Volume) -> (r: Report)
    ensures
        r@ == (ReportView {
            message: described(volume_id@, " updated ("@, *updated),
            data: Some(volume_json_of(*updated)),
            notes: seq![],
        }),
{
    report_with(describe(volume_id, " updated (", updated), volume_json(updated))
}

/// The report on a volume that was detached.
pub fn detached_report(volume_id: &str, vol: &Volume) -> (r: Report)
    ensures
        r@ == (ReportView {
            message: "Volume "@ + volume_id@ + " detached (status: "@ + vol.status@ + ")."@,
            data: Some(volume_json_of(*vol)),
            notes: seq![],
        }),
{
    report_with(
        cat5("Volume ", volume_id, " detached (status: ", vol.status.as_str(), ")."),
        volume_json(vol),
    )
}

/// The report on a volume that was deleted.
pub fn deleted_report(volume_id: &str) -> (r: Report)
    ensures
        r@ == message_only("Volume "@ + volume_id@ + " deleted."@),
{
    report(cat3("Volume ", volume_id, " deleted."))
}

// ─── Laws ──────────────────────────────────────────────────────────────────

proof fn strip_end_is_stripped(s: Seq<char>, c: char)
    ensures
        strip_end(s, c).len() > 0 ==> strip_end(s, c).last() != c,
        strip_end(strip_end(s, c), c) == strip_end(s, c),
    decreases s.len(),
{
    if s.len() > 0 && s.last() == c {
        strip_end_is_stripped(s.drop_last(), c);
    }
}

/// The canonical form of a canonical path is the path itself.
pub proof fn canonical_mount_is_stable(path: Seq<char>)
    ensures
        canonical_mount(canonical_mount(path)) == canonical_mount(path),
{
    strip_end_is_stripped(path, '/');
    reveal_strlit("/");
    assert("/"@.len() == 1);
    assert("/"@[0] == '/');
    assert("/"@.last() == '/');
    assert("/"@.drop_last() =~= Seq::<char>::empty());
    assert(strip_end(Seq::<char>::empty(), '/').len() == 0);
    assert(strip_end("/"@, '/').len() == 0);
}

/// A trailing slash makes no difference.
pub proof fn trailing_slash_is_ignored(path: Seq<char>)
    ensures
        canonical_mount(path.push('/')) == canonical_mount(path),
{
    assert(path.push('/').drop_last() =~= path);
}

/// There is nothing to change exactly where disk block and volume agree.
pub proof fn no_diff_means_same_disk(u: VolumeUpdate, vol: Volume, disk: DiskConfig)
    requires
        is_diff(u, vol, disk),
    ensures
        u.size is None && u.mount_path is None <==> same_disk(vol, disk),
{
}

/// The disk block read back from a volume asks for no change of it.
pub proof fn pulled_disk_has_no_diff(vol: Volume, disk: DiskConfig)
    requires
        disk.mount_path == vol.mount_path,
        disk.size == vol.size,
    ensures
        same_disk(vol, disk),
{
}

/// A volume that was created for a disk block agrees with it.
pub proof fn created_volume_has_no_diff(
    v: Volume,
    config: PartiriConfig,
    service_id: Seq<char>,
    disk: DiskConfig,
)
    requires
        is_volume_for(v, config, service_id, disk),
    ensures
        same_disk(v, disk),
{
    canonical_mount_is_stable(disk.mount_path@);
}

/// A volume after a change: the fields of the change, the rest as before.
pub open spec fn is_patched(after: Volume, before: Volume, u: VolumeUpdate) -> bool {
    &&& after.size == match u.size {
        Some(n) => n,
        None => before.size,
    }
    &&& after.mount_path@ == match u.mount_path {
        Some(p) => p@,
        None => before.mount_path@,
    }
}

/// Sending the difference brings the volume to the disk block.
pub proof fn diff_reaches_the_disk(before: Volume, disk: DiskConfig, u: VolumeUpdate, after: Volume)
    requires
        is_diff(u, before, disk),
        is_patched(after, before, u),
    ensures
        same_disk(after, disk),
{
    canonical_mount_is_stable(disk.mount_path@);
}

/// A disk block that passes has a size within the bounds and an absolute mount
/// path that is no reserved directory.
pub proof fn valid_disk_meaning(d: DiskConfig)
    ensures
        disk_problem(d) is None <==> {
            &&& DISK_SIZE_MIN <= d.size <= DISK_SIZE_MAX
            &&& trimmed(d.mount_path@) == d.mount_path@
            &&& d.mount_path@.len() > 0
            &&& d.mount_path@[0] == '/'
            &&& !is_reserved_mount(d.mount_path@)
        },
{
}

} // verus!
