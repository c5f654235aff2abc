//! What is shown of resources: rows and results that say each field under its
//! name.
use vstd::prelude::*;
use vstd::string::*;

use crate::client::{
    CreatedSecret, Job, LogLine, Pod, Project, Region, RegionPricing, Service, Volume,
    WorkspaceSecret,
};
use crate::databases::{created_fields, database_fields, is_database_row, DatabaseRow};
use crate::jobs::{is_job_row, listed, short_ref_of, JobRow};
use crate::json::{first_member_is_found, member_of, JsonView};
use crate::laws::bodies::{counted, decided, said};
use crate::listings::{
    is_pod_row, is_project_row, is_region_row, is_service_row, PodRow, ProjectRow, RegionRow,
    ServiceListRow,
};
use crate::secret::{is_secret_row, secret_json_of, SecretKind, SecretRow};
use crate::service::create::Cost;
use crate::service::push::CostChange;
use crate::service::run::{job_json_of, line_json, logs_json_of, metrics_service_of, newest_lines};
use crate::storage::{is_row_of, volume_json_of, VolumeRow};
use crate::text::{byte_len, decimal_of, opt_view};

verus! {

/// What a result says of a text that may be absent: the text, or null.
pub open spec fn shown_text(o: Option<String>) -> Option<JsonView> {
    match o {
        Some(s) => Some(JsonView::Str(s@)),
        None => Some(JsonView::Null),
    }
}

/// What a row shows of a text that may be absent: the text, or nothing.
pub open spec fn shows(cell: Seq<char>, o: Option<String>) -> bool {
    match o {
        Some(s) => cell == s@,
        None => cell.len() == 0,
    }
}

/// The keys of the results differ from each other.
pub proof fn output_keys()
    ensures
        "id"@.len() == 2,
        "name"@.len() == 4 && "name"@[0] == 'n',
        "status"@.len() == 6 && "status"@[0] == 's',
        "size"@.len() == 4 && "size"@[0] == 's',
        "mount_path"@.len() == 10 && "mount_path"@[0] == 'm',
        "fk_service"@.len() == 10 && "fk_service"@[0] == 'f' && "fk_service"@[3] == 's',
        "fk_region"@.len() == 9 && "fk_region"@[0] == 'f',
        "fk_project"@.len() == 10 && "fk_project"@[0] == 'f' && "fk_project"@[3] == 'p',
        "created_at"@.len() == 10 && "created_at"@[0] == 'c',
        "provider"@.len() == 8 && "provider"@[1] == 'r',
        "kind"@.len() == 4 && "kind"@[0] == 'k',
        "external_sd_url"@.len() == 15,
        "monthly_cost_eur"@.len() == 16,
        "current_monthly_pod_cost_eur"@.len() == 28 && "current_monthly_pod_cost_eur"@[0] == 'c',
        "desired_monthly_pod_cost_eur"@.len() == 28 && "desired_monthly_pod_cost_eur"@[0] == 'd',
        "cost_delta_eur"@.len() == 14,
        "disk_hint"@.len() == 9 && "disk_hint"@[0] == 'd',
        "deploy_type"@.len() == 11,
        "runtime"@.len() == 7 && "runtime"@[0] == 'r',
        "deploy_tag"@.len() == 10 && "deploy_tag"@[0] == 'd' && "deploy_tag"@[1] == 'e'
            && "deploy_tag"@[7] == 't',
        "type"@.len() == 4 && "type"@[0] == 't',
        "deploy_ref"@.len() == 10 && "deploy_ref"@[0] == 'd' && "deploy_ref"@[1] == 'e'
            && "deploy_ref"@[7] == 'r',
        "timestamp"@.len() == 9 && "timestamp"@[0] == 't',
        "message"@.len() == 7 && "message"@[0] == 'm',
        "lines"@.len() == 5,
        "db_type"@.len() == 7 && "db_type"@[0] == 'd' && "db_type"@[3] == 't',
        "db_version"@.len() == 10 && "db_version"@[0] == 'd' && "db_version"@[1] == 'b',
        "db_name"@.len() == 7 && "db_name"@[0] == 'd' && "db_name"@[3] == 'n',
        "db_user"@.len() == 7 && "db_user"@[0] == 'd' && "db_user"@[3] == 'u',
        "host"@.len() == 4 && "host"@[0] == 'h',
        "port"@.len() == 4 && "port"@[0] == 'p',
        "connection_string"@.len() == 17,
        "disk_size_gb"@.len() == 12,
        "fk_pod"@.len() == 6 && "fk_pod"@[0] == 'f',
        "active"@.len() == 6 && "active"@[0] == 'a',
        "password"@.len() == 8 && "password"@[1] == 'a',
        "password_generated"@.len() == 18,
{
    reveal_strlit("id");
    reveal_strlit("name");
    reveal_strlit("status");
    reveal_strlit("size");
    reveal_strlit("mount_path");
    reveal_strlit("fk_service");
    reveal_strlit("fk_region");
    reveal_strlit("fk_project");
    reveal_strlit("created_at");
    reveal_strlit("provider");
    reveal_strlit("kind");
    reveal_strlit("external_sd_url");
    reveal_strlit("monthly_cost_eur");
    reveal_strlit("current_monthly_pod_cost_eur");
    reveal_strlit("desired_monthly_pod_cost_eur");
    reveal_strlit("cost_delta_eur");
    reveal_strlit("disk_hint");
    reveal_strlit("deploy_type");
    reveal_strlit("runtime");
    reveal_strlit("deploy_tag");
    reveal_strlit("type");
    reveal_strlit("deploy_ref");
    reveal_strlit("timestamp");
    reveal_strlit("message");
    reveal_strlit("lines");
    reveal_strlit("db_type");
    reveal_strlit("db_version");
    reveal_strlit("db_name");
    reveal_strlit("db_user");
    reveal_strlit("host");
    reveal_strlit("port");
    reveal_strlit("connection_string");
    reveal_strlit("disk_size_gb");
    reveal_strlit("fk_pod");
    reveal_strlit("active");
    reveal_strlit("password");
    reveal_strlit("password_generated");
    assert("id"@.len() == 2);
    assert("name"@.len() == 4);
    assert("status"@.len() == 6);
    assert("size"@.len() == 4);
    assert("mount_path"@.len() == 10);
    assert("fk_service"@.len() == 10);
    assert("fk_region"@.len() == 9);
    assert("fk_project"@.len() == 10);
    assert("created_at"@.len() == 10);
    assert("provider"@.len() == 8);
    assert("kind"@.len() == 4);
    assert("external_sd_url"@.len() == 15);
    assert("monthly_cost_eur"@.len() == 16);
    assert("current_monthly_pod_cost_eur"@.len() == 28);
    assert("desired_monthly_pod_cost_eur"@.len() == 28);
    assert("cost_delta_eur"@.len() == 14);
    assert("disk_hint"@.len() == 9);
    assert("deploy_type"@.len() == 11);
    assert("runtime"@.len() == 7);
    assert("deploy_tag"@.len() == 10);
    assert("type"@.len() == 4);
    assert("deploy_ref"@.len() == 10);
    assert("timestamp"@.len() == 9);
    assert("message"@.len() == 7);
    assert("lines"@.len() == 5);
    assert("db_type"@.len() == 7);
    assert("db_version"@.len() == 10);
    assert("db_name"@.len() == 7);
    assert("db_user"@.len() == 7);
    assert("host"@.len() == 4);
    assert("port"@.len() == 4);
    assert("connection_string"@.len() == 17);
    assert("disk_size_gb"@.len() == 12);
    assert("fk_pod"@.len() == 6);
    assert("active"@.len() == 6);
    assert("password"@.len() == 8);
    assert("password_generated"@.len() == 18);
}

/// A row of the service list shows the service.
pub proof fn service_row_shows_the_service(row: ServiceListRow, s: Service)
    requires
        is_service_row(row, s),
    ensures
        row.id@ == s.id@,
        row.name@ == s.name@,
        row.runtime@ == s.runtime@,
        row.deploy_type@ == s.deploy_type@,
{
}

/// A row of the region list shows the region.
pub proof fn region_row_shows_the_region(row: RegionRow, x: Region)
    requires
        is_region_row(row, x),
    ensures
        row.id@ == x.id@,
        row.name@ == x.name@,
        shows(row.label@, x.label),
        shows(row.country@, x.country_code),
{
}

/// A row of the project list shows the project.
pub proof fn project_row_shows_the_project(row: ProjectRow, p: Project)
    requires
        is_project_row(row, p),
    ensures
        row.id@ == p.id@,
        row.name@ == p.name@,
        row.environment@ == p.environment@,
{
}

/// A row of the secret list shows the secret and which kind it is.
pub proof fn secret_row_shows_the_secret(row: SecretRow, s: WorkspaceSecret, kind: Seq<char>)
    requires
        is_secret_row(row, s, kind),
    ensures
        row.id@ == s.id@,
        shows(row.name@, s.name),
        shows(row.provider@, s.provider),
        row.kind@ == kind,
{
}

/// A row of the volume list shows the volume.
pub proof fn volume_row_shows_the_volume(row: VolumeRow, v: Volume)
    requires
        is_row_of(row, v),
    ensures
        row.name@ == v.name@,
        row.status@ == v.status@,
        row.size == v.size,
        row.mount_path@ == v.mount_path@,
        shows(row.id@, v.id),
        shows(row.fk_service@, v.fk_service),
{
}

/// A row of the job list shows the job, and a dash where it has no reference.
pub proof fn job_row_shows_the_job(row: JobRow, j: Job)
    requires
        is_job_row(row, j),
    ensures
        row.job_type@ == j.job_type@,
        row.status@ == j.status@,
        opt_view(row.created_at) == opt_view(j.created_at),
        j.deploy_ref matches Some(d) ==> row.deploy_ref@.is_prefix_of(d@),
        j.deploy_ref is Some && byte_len(j.deploy_ref->0@) < 7 ==> row.deploy_ref@
            == j.deploy_ref->0@,
        j.deploy_ref is None ==> row.deploy_ref@ == "—"@,
{
    if let Some(d) = j.deploy_ref {
        short_refs_are_prefixes(d@);
    }
}

/// A short reference is the start of the reference: seven bytes where that is
/// between two characters, and all of it otherwise.
pub proof fn short_refs_are_prefixes(s: Seq<char>)
    ensures
        short_ref_of(s).is_prefix_of(s),
        short_ref_of(s) == s || byte_len(short_ref_of(s)) == 7,
        byte_len(s) < 7 ==> short_ref_of(s) == s,
        forall|k: int|
            0 <= k <= s.len() && byte_len(#[trigger] s.take(k)) == 7 ==> byte_len(short_ref_of(s))
                == 7,
{
    if exists|k: int| 0 <= k <= s.len() && byte_len(#[trigger] s.take(k)) == 7 {
        let k = choose|k: int| 0 <= k <= s.len() && byte_len(#[trigger] s.take(k)) == 7;
        crate::lsp::documents::byte_len_monotone(s, k, s.len() as int);
        assert(s.take(s.len() as int) =~= s);
    }
}

/// A row of the pod list shows the pod, and a price exactly where prices were asked for.
pub proof fn pod_row_shows_the_pod(
    row: PodRow,
    p: Pod,
    priced: bool,
    pricing: Option<RegionPricing<String>>,
)
    requires
        is_pod_row(row, p, priced, pricing),
    ensures
        row.id@ == p.id@,
        row.name@ == p.name@,
        shows(row.label@, p.label),
        shows(row.cpu@, p.cpu),
        shows(row.ram@, p.ram),
        row.price_eur_month is Some <==> priced,
        priced && pricing is None ==> row.price_eur_month->0@ == "—"@,
        pricing matches Some(pr) ==> forall|i: int|
            0 <= i < pr.pods@.len() && (#[trigger] pr.pods@[i]).fk_pod@ == p.id@ && (forall|k: int|
                0 <= k < i ==> (#[trigger] pr.pods@[k]).fk_pod@ != p.id@) && priced
                ==> row.price_eur_month->0@ == pr.pods@[i].price@,
{
    if let Some(pr) = pricing {
        assert forall|i: int|
            0 <= i < pr.pods@.len() && (#[trigger] pr.pods@[i]).fk_pod@ == p.id@ && (forall|k: int|
                0 <= k < i ==> (#[trigger] pr.pods@[k]).fk_pod@ != p.id@) && priced implies
            row.price_eur_month->0@ == pr.pods@[i].price@ by {
            first_price(pr.pods@, p.id@, i, 0);
        }
    }
}

/// The first price of a pod is the one that is found.
pub proof fn first_price<P>(v: Seq<crate::client::PodPrice<P>>, id: Seq<char>, i: int, from: int)
    requires
        0 <= from <= i < v.len(),
        v[i].fk_pod@ == id,
        forall|k: int| 0 <= k < i ==> (#[trigger] v[k]).fk_pod@ != id,
    ensures
        crate::seqs::first_where(v, crate::service::push::price_of_pod::<P>(id), from) == i,
    decreases i - from,
{
    let p = crate::service::push::price_of_pod::<P>(id);
    if from < i {
        assert(v[from].fk_pod@ != id);
        assert(!p(v[from]));
        first_price(v, id, i, from + 1);
    } else {
        assert(p(v[from]));
    }
}

/// The price of a pod is that of its first entry, in every list of prices.
pub proof fn price_is_that_of_the_pod(
    pr: RegionPricing<crate::init::Price>,
    id: Seq<char>,
    i: int,
    zero: crate::init::Price,
)
    requires
        0 <= i < pr.pods@.len(),
        pr.pods@[i].fk_pod@ == id,
        forall|k: int| 0 <= k < i ==> (#[trigger] pr.pods@[k]).fk_pod@ != id,
    ensures
        crate::init::price_in(Some(pr), id) == Some(pr.pods@[i].price),
        crate::service::push::pod_cost(Some(id), Some(pr), zero) == Some(pr.pods@[i].price),
{
    first_price(pr.pods@, id, i, 0);
}

/// Cheaper pods stand before dearer ones, and pods without a price behind all
/// that have one.
pub proof fn pods_stand_by_price(
    s: Seq<Pod>,
    pricing: Option<RegionPricing<crate::init::Price>>,
    i: int,
    j: int,
)
    requires
        pricing is Some,
        0 <= i < j < s.len(),
    ensures
        ({
            let out = crate::init::offered_pods(s, pricing);
            let a = crate::init::price_in(pricing, out[i].id@);
            let b = crate::init::price_in(pricing, out[j].id@);
            &&& a is Some && b is Some ==> a->0.rank <= b->0.rank
            &&& b is Some ==> a is Some
        }),
{
    crate::init::cheapest_first_is_sorted(s, pricing);
    crate::init::cheapest_first_is_a_permutation(s, pricing);
    let out = crate::init::cheapest_first(s, pricing);
    assert(!crate::init::costs_more(pricing, out[i], out[j]));
}

/// All jobs are listed in JSON, and at most five in a table.
pub proof fn at_most_five_jobs_in_a_table(n: nat)
    ensures
        listed(n, true) == n,
        listed(n, false) <= 5,
        listed(n, false) == n || listed(n, false) == 5 && n > 5,
{
}

/// The log lines that are shown are the last of those that came, in their order:
/// all of them, or thirty-five.
pub proof fn newest_lines_are_the_last(logs: Seq<LogLine>)
    ensures
        newest_lines(logs).is_suffix_of(logs),
        logs.len() <= 35 ==> newest_lines(logs) == logs,
        logs.len() > 35 ==> newest_lines(logs).len() == 35,
{
}

/// A volume is shown with each field under its name.
pub proof fn volume_result_says_each_field(v: Volume)
    ensures
        ({
            let j = volume_json_of(v);
            &&& member_of(j, "id"@) == shown_text(v.id)
            &&& member_of(j, "name"@) == said(v.name@)
            &&& member_of(j, "status"@) == said(v.status@)
            &&& member_of(j, "size"@) == counted(v.size as nat)
            &&& member_of(j, "mount_path"@) == said(v.mount_path@)
            &&& member_of(j, "fk_service"@) == shown_text(v.fk_service)
            &&& member_of(j, "fk_region"@) == said(v.fk_region@)
            &&& member_of(j, "fk_project"@) == said(v.fk_project@)
            &&& member_of(j, "created_at"@) == shown_text(v.created_at)
        }),
{
    output_keys();
    let m = (volume_json_of(v))->Obj_0;
    first_member_is_found(m, "id"@, 0);
    first_member_is_found(m, "name"@, 1);
    first_member_is_found(m, "status"@, 2);
    first_member_is_found(m, "size"@, 3);
    first_member_is_found(m, "mount_path"@, 4);
    first_member_is_found(m, "fk_service"@, 5);
    first_member_is_found(m, "fk_region"@, 6);
    first_member_is_found(m, "fk_project"@, 7);
    first_member_is_found(m, "created_at"@, 8);
}

/// A secret is shown with its id, its name and its provider, and without its data.
pub proof fn secret_result_says_each_field(s: WorkspaceSecret)
    ensures
        ({
            let j = secret_json_of(s);
            &&& member_of(j, "id"@) == said(s.id@)
            &&& member_of(j, "name"@) == shown_text(s.name)
            &&& member_of(j, "provider"@) == shown_text(s.provider)
            &&& j->Obj_0.len() == 3
        }),
{
    output_keys();
    let m = (secret_json_of(s))->Obj_0;
    first_member_is_found(m, "id"@, 0);
    first_member_is_found(m, "name"@, 1);
    first_member_is_found(m, "provider"@, 2);
}

/// The result of a new secret says its id, its name and its kind.
pub proof fn created_secret_says_its_id(
    s: CreatedSecret,
    name: Seq<char>,
    kind: SecretKind,
    over: Option<Seq<char>>,
)
    ensures
        ({
            let j = crate::secret::created_view(s, name, kind, over).data->0;
            &&& member_of(j, "id"@) == said(s.id@)
            &&& member_of(j, "name"@) == shown_text(s.name)
            &&& member_of(j, "kind"@) == said(match kind { SecretKind::Registry => "registry"@, SecretKind::Repository => "repository"@ })
        }),
{
    output_keys();
    let m = (crate::secret::created_view(s, name, kind, over).data->0)->Obj_0;
    first_member_is_found(m, "id"@, 0);
    first_member_is_found(m, "name"@, 1);
    first_member_is_found(m, "kind"@, 2);
}

/// The result of a new service says its id and its address.
pub proof fn created_service_says_its_id(s: Service, cost: Option<Cost>)
    ensures
        ({
            let j = crate::service::create::created_view(s, cost).data->0;
            &&& member_of(j, "id"@) == said(s.id@)
            &&& member_of(j, "external_sd_url"@) == shown_text(s.external_sd_url)
            &&& member_of(j, "monthly_cost_eur"@) == Some(match cost { Some(c) => JsonView::Num(c.number@), None => JsonView::Null })
        }),
{
    output_keys();
    let m = (crate::service::create::created_view(s, cost).data->0)->Obj_0;
    first_member_is_found(m, "id"@, 0);
    first_member_is_found(m, "external_sd_url"@, 1);
    first_member_is_found(m, "monthly_cost_eur"@, 2);
}

/// The result of a push says what the pod cost, what it will cost, the
/// difference, and the hint on the disk.
pub proof fn pushed_service_says_the_costs(id: Seq<char>, cost: CostChange, hint: Option<String>)
    ensures
        ({
            let j = crate::service::push::pushed_view(id, cost, hint).data->0;
            &&& member_of(j, "id"@) == said(id)
            &&& member_of(j, "current_monthly_pod_cost_eur"@) == Some(match cost.current { Some(n) => JsonView::Num(n@), None => JsonView::Null })
            &&& member_of(j, "desired_monthly_pod_cost_eur"@) == Some(match cost.desired { Some(n) => JsonView::Num(n@), None => JsonView::Null })
            &&& member_of(j, "cost_delta_eur"@) == Some(match cost.delta { Some(n) => JsonView::Num(n@), None => JsonView::Null })
            &&& member_of(j, "disk_hint"@) == shown_text(hint)
        }),
{
    output_keys();
    let m = (crate::service::push::pushed_view(id, cost, hint).data->0)->Obj_0;
    first_member_is_found(m, "id"@, 0);
    first_member_is_found(m, "current_monthly_pod_cost_eur"@, 1);
    first_member_is_found(m, "desired_monthly_pod_cost_eur"@, 2);
    first_member_is_found(m, "cost_delta_eur"@, 3);
    first_member_is_found(m, "disk_hint"@, 4);
}

/// Metrics show the service with each field under its name.
pub proof fn metrics_say_each_field_of_the_service(s: Service)
    ensures
        ({
            let j = metrics_service_of(s);
            &&& member_of(j, "id"@) == said(s.id@)
            &&& member_of(j, "name"@) == said(s.name@)
            &&& member_of(j, "deploy_type"@) == said(s.deploy_type@)
            &&& member_of(j, "runtime"@) == said(s.runtime@)
            &&& member_of(j, "deploy_tag"@) == shown_text(s.deploy_tag)
            &&& member_of(j, "external_sd_url"@) == shown_text(s.external_sd_url)
        }),
{
    output_keys();
    let m = (metrics_service_of(s))->Obj_0;
    first_member_is_found(m, "id"@, 0);
    first_member_is_found(m, "name"@, 1);
    first_member_is_found(m, "deploy_type"@, 2);
    first_member_is_found(m, "runtime"@, 3);
    first_member_is_found(m, "deploy_tag"@, 4);
    first_member_is_found(m, "external_sd_url"@, 5);
}

/// A job is shown with each field under its name.
pub proof fn job_result_says_each_field(x: Job)
    ensures
        ({
            let j = job_json_of(x);
            &&& member_of(j, "type"@) == said(x.job_type@)
            &&& member_of(j, "status"@) == said(x.status@)
            &&& member_of(j, "deploy_ref"@) == shown_text(x.deploy_ref)
            &&& member_of(j, "created_at"@) == shown_text(x.created_at)
        }),
{
    output_keys();
    let m = (job_json_of(x))->Obj_0;
    first_member_is_found(m, "type"@, 0);
    first_member_is_found(m, "status"@, 1);
    first_member_is_found(m, "deploy_ref"@, 2);
    first_member_is_found(m, "created_at"@, 3);
}

/// A log line is shown with its time and its message.
pub proof fn log_line_says_time_and_message(l: LogLine)
    ensures
        ({
            let j = line_json(l);
            &&& member_of(j, "timestamp"@) == said(l.timestamp@)
            &&& member_of(j, "message"@) == said(l.message@)
        }),
{
    output_keys();
    let m = (line_json(l))->Obj_0;
    first_member_is_found(m, "timestamp"@, 0);
    first_member_is_found(m, "message"@, 1);
}

/// Logs are shown with the tag that they are of and the lines in their order.
pub proof fn logs_say_the_tag_and_the_lines(tag: Seq<char>, logs: Seq<LogLine>)
    ensures
        ({
            let j = logs_json_of(tag, logs);
            &&& member_of(j, "deploy_tag"@) == said(tag)
            &&& member_of(j, "lines"@) == Some(JsonView::Arr(newest_lines(logs).map_values(|l: LogLine| line_json(l))))
        }),
{
    output_keys();
    let m = (logs_json_of(tag, logs))->Obj_0;
    first_member_is_found(m, "deploy_tag"@, 0);
    first_member_is_found(m, "lines"@, 1);
}

/// A database is shown with each field under its name.
pub proof fn database_result_says_each_field(s: Service, disk: Option<u32>)
    ensures
        ({
            let j = JsonView::Obj(database_fields(s, disk));
            &&& member_of(j, "id"@) == said(s.id@)
            &&& member_of(j, "name"@) == said(s.name@)
            &&& member_of(j, "deploy_type"@) == said(s.deploy_type@)
            &&& member_of(j, "db_type"@) == shown_text(s.db_type)
            &&& member_of(j, "db_version"@) == shown_text(s.db_version)
            &&& member_of(j, "db_name"@) == shown_text(s.db_name)
            &&& member_of(j, "db_user"@) == shown_text(s.db_user)
            &&& member_of(j, "host"@) == Some(match s.internal_sd_url { Some(h) => JsonView::Str(h@ + "-rw"@), None => JsonView::Null })
            &&& member_of(j, "port"@) == counted(5432)
            &&& member_of(j, "connection_string"@) == Some(match crate::databases::connection_of(s) { Some(c) => JsonView::Str(c), None => JsonView::Null })
            &&& member_of(j, "disk_size_gb"@) == Some(match disk { Some(n) => JsonView::Num(decimal_of(n as nat)), None => JsonView::Null })
            &&& member_of(j, "fk_project"@) == shown_text(s.fk_project)
            &&& member_of(j, "fk_pod"@) == shown_text(s.fk_pod)
            &&& member_of(j, "fk_region"@) == Some(match crate::client::primary_region_of(s) { Some(x) => JsonView::Str(x), None => JsonView::Null })
            &&& member_of(j, "active"@) == Some(match s.active { Some(b) => JsonView::Bool(b), None => JsonView::Null })
            &&& member_of(j, "created_at"@) == shown_text(s.created_at)
        }),
{
    output_keys();
    let m = (JsonView::Obj(database_fields(s, disk)))->Obj_0;
    first_member_is_found(m, "id"@, 0);
    first_member_is_found(m, "name"@, 1);
    first_member_is_found(m, "deploy_type"@, 2);
    first_member_is_found(m, "db_type"@, 3);
    first_member_is_found(m, "db_version"@, 4);
    first_member_is_found(m, "db_name"@, 5);
    first_member_is_found(m, "db_user"@, 6);
    first_member_is_found(m, "host"@, 7);
    first_member_is_found(m, "port"@, 8);
    first_member_is_found(m, "connection_string"@, 9);
    first_member_is_found(m, "disk_size_gb"@, 10);
    first_member_is_found(m, "fk_project"@, 11);
    first_member_is_found(m, "fk_pod"@, 12);
    first_member_is_found(m, "fk_region"@, 13);
    first_member_is_found(m, "active"@, 14);
    first_member_is_found(m, "created_at"@, 15);
}

/// The result of a new database shows the password exactly where it was
/// generated, and says which it was.
pub proof fn new_database_shows_a_generated_password(
    s: Service,
    password: Seq<char>,
    generated: bool,
    disk: u32,
)
    ensures
        ({
            let j = JsonView::Obj(created_fields(s, password, generated, disk));
            &&& member_of(j, "password"@) == Some(
                if generated {
                    JsonView::Str(password)
                } else {
                    JsonView::Null
                },
            )
            &&& member_of(j, "password_generated"@) == decided(generated)
            &&& member_of(j, "id"@) == said(s.id@)
            &&& member_of(j, "disk_size_gb"@) == counted(disk as nat)
        }),
{
    output_keys();
    let m = created_fields(s, password, generated, disk);
    first_member_is_found(m, "password"@, 16);
    first_member_is_found(m, "password_generated"@, 17);
    first_member_is_found(m, "id"@, 0);
    first_member_is_found(m, "disk_size_gb"@, 10);
}

/// The connection string of a database names its user, its host and its name,
/// and never its password; there is none until all three are known.
pub proof fn connection_string_names_the_database(s: Service)
    ensures
        crate::databases::connection_of(s) is Some <==> (s.internal_sd_url matches Some(h) && h@.len()
            > 0) && (s.db_user matches Some(u) && u@.len() > 0) && (s.db_name matches Some(n)
            && n@.len() > 0),
        crate::databases::connection_of(s) is Some ==> crate::databases::connection_of(s)->0
            == "postgresql://"@ + s.db_user->0@ + "@"@ + s.internal_sd_url->0@ + "-rw:5432/"@
            + s.db_name->0@,
{
}

/// A row of the database list shows the database, its engine with the version,
/// and a dash for what is not known.
pub proof fn database_row_shows_the_database(row: DatabaseRow, s: Service)
    requires
        is_database_row(row, s),
    ensures
        row.id@ == s.id@,
        row.name@ == s.name@,
        s.db_name matches Some(n) && n@.len() > 0 ==> row.db_name@ == s.db_name->0@,
        s.db_name is None ==> row.db_name@ == "—"@,
        s.db_user matches Some(n) && n@.len() > 0 ==> row.db_user@ == s.db_user->0@,
        s.db_user is None ==> row.db_user@ == "—"@,
        (s.db_type matches Some(t) && t@.len() > 0) && (s.db_version matches Some(v) && v@.len() > 0)
            ==> row.engine@ == s.db_type->0@ + " "@ + s.db_version->0@,
        s.db_type is None ==> row.engine@ == "—"@,
{
}

} // verus!
