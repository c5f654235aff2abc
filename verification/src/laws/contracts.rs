//! What the operations hand back, stated of every result that they may give.
use vstd::prelude::*;
use vstd::string::*;

use crate::auth;
use crate::client;
use crate::client::{
    service_members, ApiClient, ApiRequest, CreateDatabaseBody, Method, Service, ServiceReplica,
    Volume, VolumeUpdate,
};
use crate::common;
use crate::common::Confirmation;
use crate::config::{
    checks_of, is_valid, ConfigOverride, ConfigRead, EnvVar, FileWrite, PartiriConfig,
    ServiceConfig,
};
use crate::databases;
use crate::databases::CreateArgs as DbArgs;
use crate::databases::{need_of, password_problem, Need};
use crate::error::{CliErrorView, Failure};
use crate::init;
use crate::init::{question_of, Question, WizardAnswers};
use crate::json::{first_member_is_found, lookup_push, member_of, JsonView};
use crate::jsonc::{json_opt_text, json_text};
use crate::laws::bodies::{
    counted, database_body_says_each_field, decided, if_given, said, secret_body_says_each_part,
    service_body_says_each_field, service_lookup, update_body_says_each_change,
    volume_body_says_each_field,
};
use crate::laws::commands::storage_needs_a_service_and_a_disk;
use crate::laws::definition::{
    answered_registry, answers_stand_under_their_names, is_home, link_refuses_half_a_pair,
    link_sets_each_reference, pull_needs_a_region_and_a_pod, pulled_fields_are_the_services,
};
use crate::laws::details::rows_follow_the_checks;
use crate::laws::file::{file_says_each_field, says};
use crate::laws::rules::{accepted_keys, database_needs, serves, volume_of_a_service};
use crate::laws::validation::{
    has_text, lists_branch, lists_name, lists_pod, lists_project, lists_region, lists_workspace,
    name_is_looked_up, remote_checks_follow_the_api, remote_validation_passes_when, reports,
};
use crate::output::Ctx;
use crate::service::create;
use crate::service::env;
use crate::service::link;
use crate::service::link::LinkArgs;
use crate::service::pull;

use crate::service::run;
use crate::service::run::Lifecycle;
use crate::storage;
use crate::storage::{disk_problem, same_disk, service_volume, UpdatePlan};
use crate::text::{decimal_of, is_ctrl, opt_view, or_empty, trimmed};
use crate::validate;
use crate::validate::{
    remote_rows, rows_view, static_rows, CheckRow, RemoteAnswers, RemoteRequests, Status,
};

verus! {

/// The keys differ from each other.
pub proof fn contract_keys()
    ensures
        "name"@.len() == 4 && "name"@[0] == 'n',
        "deploy_type"@.len() == 11 && "deploy_type"@[0] == 'd',
        "runtime"@.len() == 7,
        "root_path"@.len() == 9 && "root_path"@[0] == 'r',
        "fk_region"@.len() == 9 && "fk_region"@[0] == 'f',
        "fk_pod"@.len() == 6 && "fk_pod"@[0] == 'f',
        "repository_url"@.len() == 14,
        "repository_branch"@.len() == 17 && "repository_branch"@[0] == 'r',
        "registry_url"@.len() == 12 && "registry_url"@[0] == 'r',
        "fk_service_secret"@.len() == 17 && "fk_service_secret"@[0] == 'f',
        "build_path"@.len() == 10 && "build_path"@[0] == 'b',
        "build_command"@.len() == 13,
        "pre_deploy_command"@.len() == 18,
        "run_command"@.len() == 11 && "run_command"@[0] == 'r',
        "health_check_path"@.len() == 17 && "health_check_path"@[0] == 'h',
        "maintenance_mode"@.len() == 16,
        "active"@.len() == 6 && "active"@[0] == 'a',
        "disk"@.len() == 4 && "disk"@[0] == 'd',
        "env"@.len() == 3 && "env"@[0] == 'e',
        "fk_project"@.len() == 10 && "fk_project"@[0] == 'f',
        "fk_workspace"@.len() == 12 && "fk_workspace"@[0] == 'f',
        "environment"@.len() == 11 && "environment"@[0] == 'e',
        "username"@.len() == 8 && "username"@[0] == 'u',
        "password"@.len() == 8 && "password"@[0] == 'p',
        "key"@.len() == 3 && "key"@[0] == 'k',
        "value"@.len() == 5,
{
    reveal_strlit("name");
    reveal_strlit("deploy_type");
    reveal_strlit("runtime");
    reveal_strlit("root_path");
    reveal_strlit("fk_region");
    reveal_strlit("fk_pod");
    reveal_strlit("repository_url");
    reveal_strlit("repository_branch");
    reveal_strlit("registry_url");
    reveal_strlit("fk_service_secret");
    reveal_strlit("build_path");
    reveal_strlit("build_command");
    reveal_strlit("pre_deploy_command");
    reveal_strlit("run_command");
    reveal_strlit("health_check_path");
    reveal_strlit("maintenance_mode");
    reveal_strlit("active");
    reveal_strlit("disk");
    reveal_strlit("env");
    reveal_strlit("fk_project");
    reveal_strlit("fk_workspace");
    reveal_strlit("environment");
    reveal_strlit("username");
    reveal_strlit("password");
    reveal_strlit("key");
    reveal_strlit("value");
    assert("name"@.len() == 4);
    assert("deploy_type"@.len() == 11);
    assert("runtime"@.len() == 7);
    assert("root_path"@.len() == 9);
    assert("fk_region"@.len() == 9);
    assert("fk_pod"@.len() == 6);
    assert("repository_url"@.len() == 14);
    assert("repository_branch"@.len() == 17);
    assert("registry_url"@.len() == 12);
    assert("fk_service_secret"@.len() == 17);
    assert("build_path"@.len() == 10);
    assert("build_command"@.len() == 13);
    assert("pre_deploy_command"@.len() == 18);
    assert("run_command"@.len() == 11);
    assert("health_check_path"@.len() == 17);
    assert("maintenance_mode"@.len() == 16);
    assert("active"@.len() == 6);
    assert("disk"@.len() == 4);
    assert("env"@.len() == 3);
    assert("fk_project"@.len() == 10);
    assert("fk_workspace"@.len() == 12);
    assert("environment"@.len() == 11);
    assert("username"@.len() == 8);
    assert("password"@.len() == 8);
    assert("key"@.len() == 3);
    assert("value"@.len() == 5);
}

/// The definition of a service does not say where it belongs.
proof fn no_place_in_the_definition(s: ServiceConfig)
    ensures
        member_of(JsonView::Obj(service_members(s)), "fk_project"@) is None,
        member_of(JsonView::Obj(service_members(s)), "fk_workspace"@) is None,
{
    crate::laws::bodies::key_shapes();
    service_lookup(s, "fk_project"@);
    service_lookup(s, "fk_workspace"@);
}

/// A volume that is found for a service is attached to it.
proof fn found_volumes_serve(v: Seq<Volume>, id: Seq<char>)
    ensures
        service_volume(v, id) is Some ==> serves(service_volume(v, id)->0, id),
        service_volume(v, id) is Some ==> exists|k: int| 0 <= k < v.len()
            && serves(#[trigger] v[k], id),
        service_volume(v, id) is None ==> forall|k: int| 0 <= k < v.len()
            ==> !serves(#[trigger] v[k], id),
{
    let p = storage::live_volume_of(id);
    crate::seqs::first_where_range(v, p, 0);
    let at = crate::seqs::first_where(v, p, 0);
    if at < v.len() {
        assert(p(v[at]));
        assert(serves(v[at], id));
    } else {
        assert forall|k: int| 0 <= k < v.len() implies !serves(#[trigger] v[k], id) by {
            assert(!p(v[k]));
        }
    }
}

/// The workspaces are asked for.
pub proof fn request_list_workspaces(r: ApiRequest)
    requires
        call_ensures(ApiClient::list_workspaces, (), r),
    ensures
        r@.method == Method::Get,
        r@.path == "/workspaces"@,
        r@.query.len() == 0,
        r@.body is None,
{
}

/// The projects of a workspace are asked for.
pub proof fn request_list_projects(id: &str, r: ApiRequest)
    requires
        call_ensures(ApiClient::list_projects, (id,), r),
    ensures
        r@.method == Method::Get,
        r@.path == "/projects"@,
        r@.query == seq![("workspace"@, id@)],
        r@.body is None,
{
}

/// The regions of a workspace are asked for.
pub proof fn request_list_regions(id: &str, r: ApiRequest)
    requires
        call_ensures(ApiClient::list_regions, (id,), r),
    ensures
        r@.method == Method::Get,
        r@.path == "/resources/regions"@,
        r@.query == seq![("workspace"@, id@)],
        r@.body is None,
{
}

/// The pods of a workspace are asked for.
pub proof fn request_list_pods(id: &str, r: ApiRequest)
    requires
        call_ensures(ApiClient::list_pods, (id,), r),
    ensures
        r@.method == Method::Get,
        r@.path == "/resources/pods"@,
        r@.query == seq![("workspace"@, id@)],
        r@.body is None,
{
}

/// The services of a project are asked for, up to a limit.
pub proof fn request_list_services(id: &str, limit: usize, r: ApiRequest)
    requires
        call_ensures(ApiClient::list_services, (id, limit), r),
    ensures
        r@.method == Method::Get,
        r@.path == "/services"@,
        r@.query == seq![("project"@, id@), ("limit"@, decimal_of(limit as nat))],
        r@.body is None,
{
}

/// The registry secrets of a workspace are asked for.
pub proof fn request_list_registry_secrets(id: &str, r: ApiRequest)
    requires
        call_ensures(ApiClient::list_registry_secrets, (id,), r),
    ensures
        r@.method == Method::Get,
        r@.path == "/workspaces/secrets/registry/"@ + id@,
        r@.query.len() == 0,
        r@.body is None,
{
}

/// The repository secrets of a workspace are asked for.
pub proof fn request_list_repository_secrets(id: &str, r: ApiRequest)
    requires
        call_ensures(ApiClient::list_repository_secrets, (id,), r),
    ensures
        r@.method == Method::Get,
        r@.path == "/workspaces/secrets/repository/"@ + id@,
        r@.query.len() == 0,
        r@.body is None,
{
}

/// A service is asked for by its id.
pub proof fn request_read_service(id: &str, r: ApiRequest)
    requires
        call_ensures(ApiClient::read_service, (id,), r),
    ensures
        r@.method == Method::Get,
        r@.path == "/services/"@ + id@,
        r@.query.len() == 0,
        r@.body is None,
{
}

/// A service is deleted by its id.
pub proof fn request_delete_service(id: &str, r: ApiRequest)
    requires
        call_ensures(ApiClient::delete_service, (id,), r),
    ensures
        r@.method == Method::Delete,
        r@.path == "/services/"@ + id@,
        r@.query.len() == 0,
        r@.body is None,
{
}

/// The jobs of a service are asked for.
pub proof fn request_list_service_jobs(id: &str, r: ApiRequest)
    requires
        call_ensures(ApiClient::list_service_jobs, (id,), r),
    ensures
        r@.method == Method::Get,
        r@.path == "/jobs/services/"@ + id@,
        r@.query.len() == 0,
        r@.body is None,
{
}

/// A service is deployed by a job of that name.
pub proof fn request_deploy_service(id: &str, r: ApiRequest)
    requires
        call_ensures(ApiClient::deploy_service, (id,), r),
    ensures
        r@.method == Method::Post,
        r@.path == "/jobs/services/"@ + "deploy"@ + "/"@ + id@,
        r@.query.len() == 0,
        r@.body == Some(JsonView::Obj(seq![])),
{
}

/// A service is paused by a job of that name.
pub proof fn request_pause_service(id: &str, r: ApiRequest)
    requires
        call_ensures(ApiClient::pause_service, (id,), r),
    ensures
        r@.method == Method::Post,
        r@.path == "/jobs/services/"@ + "pause"@ + "/"@ + id@,
        r@.query.len() == 0,
        r@.body == Some(JsonView::Obj(seq![])),
{
}

/// A service is resumed by a job of that name.
pub proof fn request_unpause_service(id: &str, r: ApiRequest)
    requires
        call_ensures(ApiClient::unpause_service, (id,), r),
    ensures
        r@.method == Method::Post,
        r@.path == "/jobs/services/"@ + "unpause"@ + "/"@ + id@,
        r@.query.len() == 0,
        r@.body == Some(JsonView::Obj(seq![])),
{
}

/// A service is killed by a job of that name.
pub proof fn request_kill_service(id: &str, r: ApiRequest)
    requires
        call_ensures(ApiClient::kill_service, (id,), r),
    ensures
        r@.method == Method::Post,
        r@.path == "/jobs/services/"@ + "kill"@ + "/"@ + id@,
        r@.query.len() == 0,
        r@.body == Some(JsonView::Obj(seq![])),
{
}

/// The prices of a region are asked for.
pub proof fn request_get_pricing(id: &str, r: ApiRequest)
    requires
        call_ensures(ApiClient::get_pricing, (id,), r),
    ensures
        r@.method == Method::Get,
        r@.path == "/resources/pricing"@,
        r@.query == seq![("region"@, id@)],
        r@.body is None,
{
}

/// The balance of a workspace is asked for.
pub proof fn request_get_balance(id: &str, r: ApiRequest)
    requires
        call_ensures(ApiClient::get_balance, (id,), r),
    ensures
        r@.method == Method::Get,
        r@.path == "/balances/"@ + id@,
        r@.query.len() == 0,
        r@.body is None,
{
}

/// The volumes of a project are asked for.
pub proof fn request_list_volumes(id: &str, r: ApiRequest)
    requires
        call_ensures(ApiClient::list_volumes, (id,), r),
    ensures
        r@.method == Method::Get,
        r@.path == "/storage/volumes"@,
        r@.query == seq![("project"@, id@)],
        r@.body is None,
{
}

/// A volume is asked for by its id.
pub proof fn request_read_volume(id: &str, r: ApiRequest)
    requires
        call_ensures(ApiClient::read_volume, (id,), r),
    ensures
        r@.method == Method::Get,
        r@.path == "/storage/volumes/"@ + id@,
        r@.query.len() == 0,
        r@.body is None,
{
}

/// A volume is deleted by its id.
pub proof fn request_delete_volume(id: &str, r: ApiRequest)
    requires
        call_ensures(ApiClient::delete_volume, (id,), r),
    ensures
        r@.method == Method::Delete,
        r@.path == "/storage/volumes/"@ + id@,
        r@.query.len() == 0,
        r@.body is None,
{
}

/// A volume is detached by its id.
pub proof fn request_detach_volume(id: &str, r: ApiRequest)
    requires
        call_ensures(ApiClient::detach_volume, (id,), r),
    ensures
        r@.method == Method::Put,
        r@.path == "/storage/volumes/"@ + id@ + "/detach"@,
        r@.query.len() == 0,
        r@.body == Some(JsonView::Obj(seq![])),
{
}

/// A volume is tried again by its id.
pub proof fn request_retry_volume(id: &str, r: ApiRequest)
    requires
        call_ensures(ApiClient::retry_volume, (id,), r),
    ensures
        r@.method == Method::Put,
        r@.path == "/storage/volumes/"@ + id@ + "/retry"@,
        r@.query.len() == 0,
        r@.body == Some(JsonView::Obj(seq![])),
{
}

/// A health check is probed for a workspace.
pub proof fn request_probe_health_check(workspace: &str, path: &str, r: ApiRequest)
    requires
        call_ensures(ApiClient::probe_health_check, (workspace, path), r),
    ensures
        r@.method == Method::Get,
        r@.path == "/resources/utils/health-check"@,
        r@.query == seq![("workspace"@, workspace@), ("health_check_path"@, path@)],
        r@.body is None,
{
}

/// The cpu samples of a service are asked for, of its tag where it is known.
pub proof fn request_metrics_cpu(id: &str, tag: Option<&str>, r: ApiRequest)
    requires
        call_ensures(ApiClient::read_metrics_cpu, (id, tag), r),
    ensures
        r@.method == Method::Get,
        r@.path == "/metrics/cpu/"@ + id@,
        tag is None ==> r@.query.len() == 0,
        tag is Some ==> r@.query == seq![("deployTag"@, tag->0@)],
{
}

/// The memory samples of a service are asked for, of its tag where it is known.
pub proof fn request_metrics_memory(id: &str, tag: Option<&str>, r: ApiRequest)
    requires
        call_ensures(ApiClient::read_metrics_memory, (id, tag), r),
    ensures
        r@.method == Method::Get,
        r@.path == "/metrics/memory/"@ + id@,
        tag is None ==> r@.query.len() == 0,
        tag is Some ==> r@.query == seq![("deployTag"@, tag->0@)],
{
}

/// The network samples of a service are asked for, of its tag where it is known.
pub proof fn request_metrics_network(id: &str, tag: Option<&str>, r: ApiRequest)
    requires
        call_ensures(ApiClient::read_metrics_network, (id, tag), r),
    ensures
        r@.method == Method::Get,
        r@.path == "/metrics/network/"@ + id@,
        tag is None ==> r@.query.len() == 0,
        tag is Some ==> r@.query == seq![("deployTag"@, tag->0@)],
{
}

/// The logs of a service are asked for, of its tag where it is known.
pub proof fn request_logs(id: &str, tag: Option<&str>, r: ApiRequest)
    requires
        call_ensures(ApiClient::read_service_logs, (id, tag), r),
    ensures
        r@.method == Method::Get,
        r@.path == "/logs/"@ + id@,
        tag is None ==> r@.query.len() == 0,
        tag is Some ==> r@.query == seq![("deployTag"@, tag->0@)],
{
}

/// A source is tried, with its secret where there is one.
pub proof fn request_validate_registry(url: &str, secret: Option<&str>, r: ApiRequest)
    requires
        call_ensures(ApiClient::validate_registry, (url, secret), r),
    ensures
        r@.method == Method::Get,
        r@.path == "/resources/utils/reg"@,
        secret is None ==> r@.query == seq![("registry_url"@, url@)],
        secret is Some ==> r@.query == seq![("registry_url"@, url@), ("id"@, secret->0@)],
        r@.body is None,
{
}

/// A source is tried, with its secret where there is one.
pub proof fn request_load_repository_branches(url: &str, secret: Option<&str>, r: ApiRequest)
    requires
        call_ensures(ApiClient::load_repository_branches, (url, secret), r),
    ensures
        r@.method == Method::Get,
        r@.path == "/resources/utils/git"@,
        secret is None ==> r@.query == seq![("url"@, url@)],
        secret is Some ==> r@.query == seq![("url"@, url@), ("id"@, secret->0@)],
        r@.body is None,
{
}

/// A project is created with its name and its environment, in its workspace.
pub proof fn request_create_project(name: &str, environment: &str, workspace: &str, r: ApiRequest)
    requires
        call_ensures(ApiClient::create_project, (name, environment, workspace), r),
    ensures
        r@.method == Method::Post,
        r@.path == "/projects"@,
        r@.body is Some,
        member_of(r@.body->0, "name"@) == said(name@),
        member_of(r@.body->0, "environment"@) == said(environment@),
        member_of(r@.body->0, "fk_workspace"@) == said(workspace@),
{
    contract_keys();
    let m = r@.body->0->Obj_0;
    first_member_is_found(m, "name"@, 0);
    first_member_is_found(m, "environment"@, 1);
    first_member_is_found(m, "fk_workspace"@, 2);
}

/// A volume is attached to a service.
pub proof fn request_attach_volume(id: &str, service: &str, r: ApiRequest)
    requires
        call_ensures(ApiClient::attach_volume, (id, service), r),
    ensures
        r@.method == Method::Put,
        r@.path == "/storage/volumes/"@ + id@ + "/attach"@,
        r@.body is Some,
        member_of(r@.body->0, "serviceId"@) == said(service@),
{
    first_member_is_found(r@.body->0->Obj_0, "serviceId"@, 0);
}

/// A volume is created with each of its fields.
pub proof fn request_create_volume(v: &Volume, r: ApiRequest)
    requires
        call_ensures(ApiClient::create_volume, (v,), r),
    ensures
        r@.method == Method::Post,
        r@.path == "/storage/volumes"@,
        r@.body is Some,
        member_of(r@.body->0, "name"@) == said(v.name@),
        member_of(r@.body->0, "fk_project"@) == said(v.fk_project@),
        member_of(r@.body->0, "fk_workspace"@) == said(v.fk_workspace@),
        member_of(r@.body->0, "fk_region"@) == said(v.fk_region@),
        member_of(r@.body->0, "mount_path"@) == said(v.mount_path@),
        member_of(r@.body->0, "status"@) == said(v.status@),
        member_of(r@.body->0, "size"@) == counted(v.size as nat),
        member_of(r@.body->0, "fk_service"@) == if_given(v.fk_service),
{
    volume_body_says_each_field(*v);
}

/// A volume is changed in what the update says.
pub proof fn request_update_volume(id: &str, u: &VolumeUpdate, r: ApiRequest)
    requires
        call_ensures(ApiClient::update_volume, (id, u), r),
    ensures
        r@.method == Method::Patch,
        r@.path == "/storage/volumes/"@ + id@,
        r@.body is Some,
        member_of(r@.body->0, "mount_path"@) == if_given(u.mount_path),
        u.size is None ==> member_of(r@.body->0, "size"@) is None,
        u.size is Some ==> member_of(r@.body->0, "size"@) == counted(u.size->0 as nat),
{
    update_body_says_each_change(*u);
}

/// A database is created as a service, with each of its fields.
pub proof fn request_create_database(b: &CreateDatabaseBody, r: ApiRequest)
    requires
        call_ensures(ApiClient::create_database, (b,), r),
    ensures
        r@.method == Method::Post,
        r@.path == "/services"@,
        r@.body is Some,
        member_of(r@.body->0, "name"@) == said(b.name@),
        member_of(r@.body->0, "deploy_type"@) == said(b.deploy_type@),
        member_of(r@.body->0, "db_version"@) == said(b.db_version@),
        member_of(r@.body->0, "db_name"@) == said(b.db_name@),
        member_of(r@.body->0, "db_user"@) == said(b.db_user@),
        member_of(r@.body->0, "db_password"@) == said(b.db_password@),
        member_of(r@.body->0, "fk_project"@) == said(b.fk_project@),
        member_of(r@.body->0, "fk_region"@) == said(b.fk_region@),
        member_of(r@.body->0, "fk_pod"@) == said(b.fk_pod@),
{
    database_body_says_each_field(*b);
}

/// A registry secret is created with the user and the password.
pub proof fn request_registry_secret(
    name: &str,
    workspace: &str,
    provider: &str,
    username: &str,
    password: &str,
    r: ApiRequest,
)
    requires
        call_ensures(ApiClient::create_registry_secret, (name, workspace, provider, username, password), r),
    ensures
        r@.method == Method::Post,
        r@.path == "/workspaces/secrets/registry"@,
        r@.body is Some,
        member_of(r@.body->0, "name"@) == said(name@),
        member_of(r@.body->0, "fk_workspace"@) == said(workspace@),
        member_of(r@.body->0, "provider"@) == said(provider@),
        member_of(r@.body->0, "data"@) is Some,
        member_of(member_of(r@.body->0, "data"@)->0, "username"@) == said(username@),
        member_of(member_of(r@.body->0, "data"@)->0, "password"@) == said(password@),
{
    contract_keys();
    let data = seq![
        ("username"@, JsonView::Str(username@)),
        ("password"@, JsonView::Str(password@)),
    ];
    secret_body_says_each_part(name@, workspace@, provider@, data);
    first_member_is_found(data, "username"@, 0);
    first_member_is_found(data, "password"@, 1);
}

/// A repository secret is created with the token, and the user as its key.
pub proof fn request_repository_secret(
    name: &str,
    workspace: &str,
    provider: &str,
    token: &str,
    username: &str,
    r: ApiRequest,
)
    requires
        call_ensures(ApiClient::create_repository_secret, (name, workspace, provider, token, username), r),
    ensures
        r@.method == Method::Post,
        r@.path == "/workspaces/secrets/repository"@,
        r@.body is Some,
        member_of(r@.body->0, "name"@) == said(name@),
        member_of(r@.body->0, "fk_workspace"@) == said(workspace@),
        member_of(r@.body->0, "provider"@) == said(provider@),
        member_of(r@.body->0, "data"@) is Some,
        member_of(member_of(r@.body->0, "data"@)->0, "key"@) == said(username@),
        member_of(member_of(r@.body->0, "data"@)->0, "value"@) == said(token@),
{
    contract_keys();
    let data = seq![("key"@, JsonView::Str(username@)), ("value"@, JsonView::Str(token@))];
    secret_body_says_each_part(name@, workspace@, provider@, data);
    first_member_is_found(data, "key"@, 0);
    first_member_is_found(data, "value"@, 1);
}

/// A push puts the definition of the file to its service, each field under
/// its name, and never the disk.
pub proof fn push_sends_the_definition(config: &PartiriConfig, r: Result<ApiRequest, Failure>)
    requires
        call_ensures(crate::service::push::run, (config,), r),
    ensures
        r is Ok <==> config.id is Some,
        r is Ok ==> r->Ok_0@.method == Method::Put,
        r is Ok ==> r->Ok_0@.path == "/services/"@ + config.id->0@,
        r is Ok ==> r->Ok_0@.body is Some,
        r is Ok ==> member_of(r->Ok_0@.body->0, "name"@) == said(config.service.name@),
        r is Ok ==> member_of(r->Ok_0@.body->0, "deploy_type"@)
            == said(config.service.deploy_type@),
        r is Ok ==> member_of(r->Ok_0@.body->0, "runtime"@) == said(config.service.runtime@),
        r is Ok ==> member_of(r->Ok_0@.body->0, "root_path"@) == said(config.service.root_path@),
        r is Ok ==> member_of(r->Ok_0@.body->0, "fk_region"@) == said(config.service.fk_region@),
        r is Ok ==> member_of(r->Ok_0@.body->0, "fk_pod"@) == said(config.service.fk_pod@),
        r is Ok ==> member_of(r->Ok_0@.body->0, "repository_url"@)
            == if_given(config.service.repository_url),
        r is Ok ==> member_of(r->Ok_0@.body->0, "repository_branch"@)
            == if_given(config.service.repository_branch),
        r is Ok ==> member_of(r->Ok_0@.body->0, "registry_url"@)
            == if_given(config.service.registry_url),
        r is Ok ==> member_of(r->Ok_0@.body->0, "fk_service_secret"@)
            == if_given(config.service.fk_service_secret),
        r is Ok ==> member_of(r->Ok_0@.body->0, "build_path"@)
            == if_given(config.service.build_path),
        r is Ok ==> member_of(r->Ok_0@.body->0, "build_command"@)
            == if_given(config.service.build_command),
        r is Ok ==> member_of(r->Ok_0@.body->0, "pre_deploy_command"@)
            == if_given(config.service.pre_deploy_command),
        r is Ok ==> member_of(r->Ok_0@.body->0, "run_command"@)
            == if_given(config.service.run_command),
        r is Ok ==> member_of(r->Ok_0@.body->0, "health_check_path"@)
            == if_given(config.service.health_check_path),
        r is Ok ==> member_of(r->Ok_0@.body->0, "maintenance_mode"@)
            == decided(config.service.maintenance_mode),
        r is Ok ==> member_of(r->Ok_0@.body->0, "active"@) == decided(config.service.active),
        r is Ok ==> member_of(r->Ok_0@.body->0, "disk"@) is None,
        r is Ok ==> config.service.env is None ==> member_of(r->Ok_0@.body->0, "env"@) is None,
{
    service_body_says_each_field(config.service);
}

/// A service is created from a valid file that has none yet: the definition
/// is posted with its project and its workspace.
pub proof fn create_sends_the_definition(config: &PartiriConfig, r: Result<ApiRequest, Failure>)
    requires
        call_ensures(create::run, (config,), r),
    ensures
        r is Ok <==> config.id is None && is_valid(*config),
        r is Ok ==> r->Ok_0@.method == Method::Post,
        r is Ok ==> r->Ok_0@.path == "/services"@,
        r is Ok ==> r->Ok_0@.body is Some,
        r is Ok ==> member_of(r->Ok_0@.body->0, "fk_project"@) == said(config.fk_project@),
        r is Ok ==> member_of(r->Ok_0@.body->0, "fk_workspace"@) == said(config.fk_workspace@),
        r is Ok ==> member_of(r->Ok_0@.body->0, "name"@) == said(config.service.name@),
        r is Ok ==> member_of(r->Ok_0@.body->0, "deploy_type"@)
            == said(config.service.deploy_type@),
        r is Ok ==> member_of(r->Ok_0@.body->0, "runtime"@) == said(config.service.runtime@),
        r is Ok ==> member_of(r->Ok_0@.body->0, "root_path"@) == said(config.service.root_path@),
        r is Ok ==> member_of(r->Ok_0@.body->0, "fk_region"@) == said(config.service.fk_region@),
        r is Ok ==> member_of(r->Ok_0@.body->0, "fk_pod"@) == said(config.service.fk_pod@),
        r is Ok ==> member_of(r->Ok_0@.body->0, "repository_url"@)
            == if_given(config.service.repository_url),
        r is Ok ==> member_of(r->Ok_0@.body->0, "repository_branch"@)
            == if_given(config.service.repository_branch),
        r is Ok ==> member_of(r->Ok_0@.body->0, "registry_url"@)
            == if_given(config.service.registry_url),
        r is Ok ==> member_of(r->Ok_0@.body->0, "fk_service_secret"@)
            == if_given(config.service.fk_service_secret),
        r is Ok ==> member_of(r->Ok_0@.body->0, "build_path"@)
            == if_given(config.service.build_path),
        r is Ok ==> member_of(r->Ok_0@.body->0, "build_command"@)
            == if_given(config.service.build_command),
        r is Ok ==> member_of(r->Ok_0@.body->0, "pre_deploy_command"@)
            == if_given(config.service.pre_deploy_command),
        r is Ok ==> member_of(r->Ok_0@.body->0, "run_command"@)
            == if_given(config.service.run_command),
        r is Ok ==> member_of(r->Ok_0@.body->0, "health_check_path"@)
            == if_given(config.service.health_check_path),
        r is Ok ==> member_of(r->Ok_0@.body->0, "maintenance_mode"@)
            == decided(config.service.maintenance_mode),
        r is Ok ==> member_of(r->Ok_0@.body->0, "active"@) == decided(config.service.active),
        r is Ok ==> member_of(r->Ok_0@.body->0, "disk"@) is None,
        r is Ok ==> config.service.env is None ==> member_of(r->Ok_0@.body->0, "env"@) is None,
{
    contract_keys();
    service_body_says_each_field(config.service);
    let m = service_members(config.service);
    let p = JsonView::Str(config.fk_project@);
    let w = JsonView::Str(config.fk_workspace@);
    lookup_push(m, "fk_project"@, p, "name"@);
    lookup_push(m.push(("fk_project"@, p)), "fk_workspace"@, w, "name"@);
    lookup_push(m, "fk_project"@, p, "deploy_type"@);
    lookup_push(m.push(("fk_project"@, p)), "fk_workspace"@, w, "deploy_type"@);
    lookup_push(m, "fk_project"@, p, "runtime"@);
    lookup_push(m.push(("fk_project"@, p)), "fk_workspace"@, w, "runtime"@);
    lookup_push(m, "fk_project"@, p, "root_path"@);
    lookup_push(m.push(("fk_project"@, p)), "fk_workspace"@, w, "root_path"@);
    lookup_push(m, "fk_project"@, p, "fk_region"@);
    lookup_push(m.push(("fk_project"@, p)), "fk_workspace"@, w, "fk_region"@);
    lookup_push(m, "fk_project"@, p, "fk_pod"@);
    lookup_push(m.push(("fk_project"@, p)), "fk_workspace"@, w, "fk_pod"@);
    lookup_push(m, "fk_project"@, p, "repository_url"@);
    lookup_push(m.push(("fk_project"@, p)), "fk_workspace"@, w, "repository_url"@);
    lookup_push(m, "fk_project"@, p, "repository_branch"@);
    lookup_push(m.push(("fk_project"@, p)), "fk_workspace"@, w, "repository_branch"@);
    lookup_push(m, "fk_project"@, p, "registry_url"@);
    lookup_push(m.push(("fk_project"@, p)), "fk_workspace"@, w, "registry_url"@);
    lookup_push(m, "fk_project"@, p, "fk_service_secret"@);
    lookup_push(m.push(("fk_project"@, p)), "fk_workspace"@, w, "fk_service_secret"@);
    lookup_push(m, "fk_project"@, p, "build_path"@);
    lookup_push(m.push(("fk_project"@, p)), "fk_workspace"@, w, "build_path"@);
    lookup_push(m, "fk_project"@, p, "build_command"@);
    lookup_push(m.push(("fk_project"@, p)), "fk_workspace"@, w, "build_command"@);
    lookup_push(m, "fk_project"@, p, "pre_deploy_command"@);
    lookup_push(m.push(("fk_project"@, p)), "fk_workspace"@, w, "pre_deploy_command"@);
    lookup_push(m, "fk_project"@, p, "run_command"@);
    lookup_push(m.push(("fk_project"@, p)), "fk_workspace"@, w, "run_command"@);
    lookup_push(m, "fk_project"@, p, "health_check_path"@);
    lookup_push(m.push(("fk_project"@, p)), "fk_workspace"@, w, "health_check_path"@);
    lookup_push(m, "fk_project"@, p, "maintenance_mode"@);
    lookup_push(m.push(("fk_project"@, p)), "fk_workspace"@, w, "maintenance_mode"@);
    lookup_push(m, "fk_project"@, p, "active"@);
    lookup_push(m.push(("fk_project"@, p)), "fk_workspace"@, w, "active"@);
    lookup_push(m, "fk_project"@, p, "disk"@);
    lookup_push(m.push(("fk_project"@, p)), "fk_workspace"@, w, "disk"@);
    lookup_push(m, "fk_project"@, p, "env"@);
    lookup_push(m.push(("fk_project"@, p)), "fk_workspace"@, w, "env"@);
    lookup_push(m, "fk_project"@, p, "fk_project"@);
    lookup_push(m.push(("fk_project"@, p)), "fk_workspace"@, w, "fk_project"@);
    lookup_push(m, "fk_project"@, p, "fk_workspace"@);
    lookup_push(m.push(("fk_project"@, p)), "fk_workspace"@, w, "fk_workspace"@);
    no_place_in_the_definition(config.service);
}

/// A pulled configuration has each field of the service under the same name.
pub proof fn pull_takes_each_field(
    svc: Service,
    id: String,
    w: String,
    p: String,
    r: Result<PartiriConfig, Failure>,
)
    requires
        call_ensures(pull::map_to_config, (svc, id, w, p), r),
    ensures
        r is Ok ==> r->Ok_0.id == Some(id),
        r is Ok ==> r->Ok_0.deploy_tag == svc.deploy_tag,
        r is Ok && svc.fk_workspace is Some ==> r->Ok_0.fk_workspace == svc.fk_workspace->0,
        r is Ok && svc.fk_workspace is None ==> r->Ok_0.fk_workspace == w,
        r is Ok && svc.fk_project is Some ==> r->Ok_0.fk_project == svc.fk_project->0,
        r is Ok && svc.fk_project is None ==> r->Ok_0.fk_project == p,
        r is Ok ==> r->Ok_0.service.name == svc.name,
        r is Ok ==> r->Ok_0.service.deploy_type == svc.deploy_type,
        r is Ok ==> r->Ok_0.service.runtime == svc.runtime,
        r is Ok ==> r->Ok_0.service.repository_url == svc.repository_url,
        r is Ok ==> r->Ok_0.service.repository_branch == svc.repository_branch,
        r is Ok ==> r->Ok_0.service.registry_url == svc.registry_url,
        r is Ok ==> r->Ok_0.service.fk_service_secret == svc.fk_service_secret,
        r is Ok ==> r->Ok_0.service.build_path == svc.build_path,
        r is Ok ==> r->Ok_0.service.build_command == svc.build_command,
        r is Ok ==> r->Ok_0.service.pre_deploy_command == svc.pre_deploy_command,
        r is Ok ==> r->Ok_0.service.run_command == svc.run_command,
        r is Ok ==> r->Ok_0.service.health_check_path == svc.health_check_path,
        r is Ok ==> svc.fk_pod == Some(r->Ok_0.service.fk_pod),
        r is Ok ==> forall|x: ServiceReplica|
            #[trigger] is_home(svc, x) ==> r->Ok_0.service.fk_region@ == x.fk_region@,
        forall|x: ServiceReplica|
            #[trigger] is_home(svc, x) && x.fk_region@.len() > 0 && svc.fk_pod is Some && svc.fk_pod->0@.len() > 0
                ==> r is Ok,
{
    pull_needs_a_region_and_a_pod(svc);
    if let Ok(c) = r {
        pulled_fields_are_the_services(c, svc, id, w, p);
    }
}

/// A service that is pulled by its id stays in its own place.
pub proof fn pull_by_id_takes_each_field(svc: Service, id: &str, r: Result<PartiriConfig, Failure>)
    requires
        call_ensures(pull::run_by_id, (svc, id), r),
    ensures
        r is Ok ==> opt_view(r->Ok_0.id) == Some(id@),
        r is Ok ==> svc.fk_workspace == Some(r->Ok_0.fk_workspace),
        r is Ok ==> svc.fk_project == Some(r->Ok_0.fk_project),
        r is Ok ==> r->Ok_0.service.name == svc.name,
        r is Ok ==> r->Ok_0.service.deploy_type == svc.deploy_type,
        r is Ok ==> r->Ok_0.service.runtime == svc.runtime,
        r is Ok ==> r->Ok_0.service.repository_url == svc.repository_url,
        r is Ok ==> r->Ok_0.service.repository_branch == svc.repository_branch,
        r is Ok ==> r->Ok_0.service.registry_url == svc.registry_url,
        r is Ok ==> r->Ok_0.service.fk_service_secret == svc.fk_service_secret,
        r is Ok ==> r->Ok_0.service.build_path == svc.build_path,
        r is Ok ==> r->Ok_0.service.build_command == svc.build_command,
        r is Ok ==> r->Ok_0.service.pre_deploy_command == svc.pre_deploy_command,
        r is Ok ==> r->Ok_0.service.run_command == svc.run_command,
        r is Ok ==> r->Ok_0.service.health_check_path == svc.health_check_path,
        r is Ok ==> svc.fk_pod == Some(r->Ok_0.service.fk_pod),
{
}

/// The wizard puts each answer under its own name.
pub proof fn wizard_assembles_the_answers(a: WizardAnswers, r: PartiriConfig)
    requires
        question_of(a) == Question::Done,
        call_ensures(init::assemble, (a,), r),
    ensures
        a.workspace == Some(r.fk_workspace),
        a.project == Some(r.fk_project),
        a.region == Some(r.service.fk_region),
        a.pod == Some(r.service.fk_pod),
        a.name == Some(r.service.name),
        a.deploy_type == Some(r.service.deploy_type),
        a.token == Some(r.service.fk_service_secret),
        !answered_registry(a) ==> r.service.repository_url == a.repository_url
            && r.service.repository_branch == a.repository_branch && r.service.build_command
            == a.build_command && opt_view(a.runtime) == Some(r.service.runtime@)
            && r.service.registry_url is None,
        answered_registry(a) ==> r.service.repository_url is None
            && r.service.build_command is None && r.service.run_command is None
            && opt_view(r.service.registry_url) == Some(trimmed(a.image->0@)),
        !answered_registry(a) && r.service.deploy_type@ != "static"@ ==> r.service.run_command
            == a.run_command,
        r.id is None,
{
    answers_stand_under_their_names(r, a);
}

/// Linking sets the references that were given, or refuses half a pair.
pub proof fn link_sets_the_flags(
    c: PartiriConfig,
    a: LinkArgs,
    r: Result<(PartiriConfig, bool), Failure>,
)
    requires
        call_ensures(link::run_with_flags, (c, a), r),
    ensures
        r is Err <==> (a.workspace is Some && a.project is None) || (a.region is Some
            && a.pod is None),
        r is Ok && a.workspace is Some ==> r->Ok_0.0.fk_workspace == a.workspace->0,
        r is Ok && a.workspace is None ==> r->Ok_0.0.fk_workspace == c.fk_workspace,
        r is Ok && a.project is Some ==> r->Ok_0.0.fk_project == a.project->0,
        r is Ok && a.project is None ==> r->Ok_0.0.fk_project == c.fk_project,
        r is Ok && a.region is Some ==> r->Ok_0.0.service.fk_region == a.region->0,
        r is Ok && a.region is None ==> r->Ok_0.0.service.fk_region == c.service.fk_region,
        r is Ok && a.pod is Some ==> r->Ok_0.0.service.fk_pod == a.pod->0,
        r is Ok && a.pod is None ==> r->Ok_0.0.service.fk_pod == c.service.fk_pod,
        r is Ok && a.token is Some ==> r->Ok_0.0.service.fk_service_secret == a.token,
        r is Ok && a.token is None && a.clear_token ==> r->Ok_0.0.service.fk_service_secret is None,
        r is Ok && a.token is None && !a.clear_token ==> r->Ok_0.0.service.fk_service_secret
            == c.service.fk_service_secret,
        r is Ok ==> r->Ok_0.0.id == c.id && r->Ok_0.0.service.name == c.service.name
            && r->Ok_0.0.service.disk == c.service.disk,
{
    link_sets_each_reference(c, a);
    link_refuses_half_a_pair(a);
}

/// Validation passes exactly the valid configurations.
pub proof fn validation_passes_valid_files(
    c: &PartiriConfig,
    over: &ConfigOverride,
    r: (Vec<CheckRow>, Result<String, Failure>),
)
    requires
        call_ensures(validate::run, (c, over), r),
    ensures
        r.1 is Ok <==> is_valid(*c),
        r.0@.len() == checks_of(*c).len(),
        forall|i: int| 0 <= i < r.0@.len() ==> (#[trigger] r.0@[i]).field@
            == checks_of(*c)[i].field && (r.0@[i].status == Status::Pass <==> checks_of(*c)[i].ok),
{
    assert(rows_view(r.0@).len() == r.0@.len());
    assert(static_rows(*c).len() == checks_of(*c).len());
    assert forall|i: int| 0 <= i < r.0@.len() implies (#[trigger] r.0@[i]).field@ == checks_of(
        *c,
    )[i].field && (r.0@[i].status == Status::Pass <==> checks_of(*c)[i].ok) by {
        assert(rows_view(r.0@)[i] == r.0@[i]@);
        rows_follow_the_checks(*c, i);
    }
}

/// Remote validation passes where the file is valid, everything that it names
/// is listed, and its source can be reached and holds the branch.
pub proof fn remote_validation_passes_what_is_there(
    c: &PartiriConfig,
    a: &RemoteAnswers,
    r: (Vec<CheckRow>, Result<String, Failure>),
)
    requires
        call_ensures(validate::run_remote, (c, a), r),
    ensures
        r.1 is Ok <==> {
            let s = c.service;
            &&& is_valid(*c)
            &&& lists_workspace(*a, c.fk_workspace@)
            &&& c.fk_workspace@.len() > 0 ==> {
                &&& lists_project(*a, c.fk_project@)
                &&& lists_region(*a, s.fk_region@)
                &&& lists_pod(*a, s.fk_pod@)
            }
            &&& name_is_looked_up(*c) ==> !lists_name(*a, s.name@)
            &&& has_text(s.repository_url) ==> a.branches is Ok && (has_text(s.repository_branch)
                ==> lists_branch(*a, s.repository_branch->0@))
            &&& has_text(s.registry_url) ==> a.registry is Ok
        },
        has_text(c.service.repository_url) && a.branches is Ok && has_text(c.service.repository_branch) && !lists_branch(*a, c.service.repository_branch->0@) ==> exists|i: int|
            0 <= i < r.0@.len() && (#[trigger] r.0@[i]).field@ == "remote.repository_branch"@
                && r.0@[i].status == Status::Fail,
{
    remote_validation_passes_when(*c, *a);
    remote_checks_follow_the_api(*c, *a);
    if has_text(c.service.repository_url) && a.branches is Ok && has_text(
        c.service.repository_branch,
    ) && !lists_branch(*a, c.service.repository_branch->0@) {
        let rows = remote_rows(*c, *a);
        let f = "remote.repository_branch"@;
        assert(reports(rows, f, Status::Fail));
        let k = choose|k: int|
            0 <= k < rows.len() && (#[trigger] rows[k]).field == f && rows[k].status == Status::Fail;
        let i = static_rows(*c).len() + k;
        assert(rows_view(r.0@)[i] == rows[k]);
        assert(r.0@[i]@ == rows[k]);
        assert(r.0@[i].field@ == f);
    }
}

/// A service that was created gives the file its id, and leaves the rest.
pub proof fn new_service_gets_its_id(c: PartiriConfig, s: &Service, r: PartiriConfig)
    requires
        call_ensures(create::with_assigned_id, (c, s), r),
    ensures
        opt_view(r.id) == Some(s.id@),
        r == (PartiriConfig { id: r.id, ..c }),
{
}

/// A silent refresh takes the deploy tag and nothing else.
pub proof fn refresh_takes_the_tag_alone(c: PartiriConfig, s: &Service, r: (PartiriConfig, bool))
    requires
        call_ensures(pull::silent_refresh, (c, s), r),
    ensures
        r.0.deploy_tag == s.deploy_tag,
        r.0.id == c.id && r.0.fk_workspace == c.fk_workspace && r.0.fk_project == c.fk_project
            && r.0.service == c.service,
        r.1 <==> opt_view(c.deploy_tag) != opt_view(s.deploy_tag),
{
}

/// A file is replaced where there is none, where it is that of the service,
/// or where the user says so.
pub proof fn pull_overwrites_only_its_own(
    path_exists: bool,
    existing: Option<&PartiriConfig>,
    id: &str,
    yes: bool,
    over: &ConfigOverride,
    r: Result<(), Failure>,
)
    requires
        call_ensures(pull::overwrite_guard, (path_exists, existing, id, yes, over), r),
    ensures
        !path_exists ==> r is Ok,
        yes ==> r is Ok,
        existing is Some && opt_view(existing->0.id) == Some(id@) ==> r is Ok,
        path_exists && !yes && existing is None ==> r is Err,
        path_exists && !yes && existing is Some && opt_view(existing->0.id) != Some(id@)
            ==> r is Err,
{
}

/// Replacing the variables sets them and leaves the rest.
pub proof fn replaced_variables_are_sent(c: PartiriConfig, v: Vec<EnvVar>, r: PartiriConfig)
    requires
        call_ensures(env::with_env, (c, v), r),
    ensures
        r.service.env == Some(v),
        r.id == c.id && r.service.name == c.service.name && r.service.run_command
            == c.service.run_command,
{
}

/// A stored key is not replaced without force, and what is written is the key
/// that was given.
pub proof fn key_is_kept_without_force(
    raw: &str,
    force: bool,
    has_key: bool,
    r: Result<String, Failure>,
)
    requires
        call_ensures(auth::write_validated_key, (raw, force, has_key), r),
    ensures
        has_key && !force ==> r is Err,
        r is Ok ==> r->Ok_0@ == trimmed(raw@),
        r is Ok ==> trimmed(raw@).len() >= 64,
        r is Ok <==> trimmed(raw@).len() >= 64 && (forall|i: int| 0 <= i < trimmed(raw@).len()
            ==> !is_ctrl(#[trigger] trimmed(raw@)[i])) && (force || !has_key),
{
    accepted_keys(raw@, force, has_key);
}

/// A destructive action goes ahead unasked only where the user said yes beforehand.
pub proof fn destructive_actions_are_confirmed(
    ctx: Ctx,
    action: &str,
    subject: &str,
    id: &str,
    r: Confirmation,
)
    requires
        call_ensures(common::confirm_action, (ctx, action, subject, id), r),
    ensures
        r is Proceed <==> ctx.yes,
        r is Refuse <==> !ctx.yes && ctx.no_input,
        r is Ask <==> !ctx.yes && !ctx.no_input,
{
}

/// Only a yes confirms.
pub proof fn confirmation_is_a_yes(answer: Option<bool>, r: Result<(), Failure>)
    requires
        call_ensures(common::confirmed, (answer,), r),
    ensures
        r is Ok <==> answer == Some(true),
{
}

/// Pausing, resuming and killing are confirmed first, for a service that exists.
pub proof fn lifecycle_confirms_first(
    a: Lifecycle,
    c: &PartiriConfig,
    ctx: Ctx,
    r: Result<Confirmation, Failure>,
)
    requires
        call_ensures(run::confirm_lifecycle, (a, c, ctx), r),
    ensures
        r is Ok <==> c.id is Some,
        r is Ok ==> (r->Ok_0 is Proceed <==> ctx.yes),
        r is Ok ==> (r->Ok_0 is Ask <==> !ctx.yes && !ctx.no_input),
{
}

/// Pausing, resuming and killing ask for the job of that name.
pub proof fn lifecycle_asks_for_its_job(a: Lifecycle, id: &str, r: ApiRequest)
    requires
        call_ensures(run::lifecycle_request, (a, id), r),
    ensures
        r@.method == Method::Post,
        r@.path == "/jobs/services/"@ + (match a { Lifecycle::Pause => "pause"@, Lifecycle::Unpause => "unpause"@, Lifecycle::Kill => "kill"@ }) + "/"@ + id@,
{
}

/// Logs are asked for the service and the tag of the file, and not without either.
pub proof fn logs_are_those_of_the_tag(c: &PartiriConfig, r: Result<ApiRequest, Failure>)
    requires
        call_ensures(run::logs_request, (c,), r),
    ensures
        r is Ok <==> c.id is Some && c.deploy_tag is Some,
        r is Ok ==> r->Ok_0@.path == "/logs/"@ + c.id->0@,
        r is Ok ==> r->Ok_0@.query == seq![("deployTag"@, c.deploy_tag->0@)],
{
}

/// A volume is created from the disk block, where the service has none.
pub proof fn storage_creates_the_disk(
    c: &PartiriConfig,
    over: &ConfigOverride,
    v: &Vec<Volume>,
    r: Result<Volume, Failure>,
)
    requires
        call_ensures(storage::run_create, (c, over, v), r),
    ensures
        r is Ok <==> c.id is Some && c.service.disk is Some
            && disk_problem(c.service.disk->0) is None && service_volume(v@, c.id->0@) is None,
        r is Ok ==> r->Ok_0.size == c.service.disk->0.size,
        r is Ok ==> opt_view(r->Ok_0.fk_service) == opt_view(c.id),
        r is Ok ==> r->Ok_0.fk_project@ == c.fk_project@ && r->Ok_0.fk_workspace@
            == c.fk_workspace@ && r->Ok_0.fk_region@ == c.service.fk_region@,
{
    storage_needs_a_service_and_a_disk(*c, over@);
}

/// A volume is only ever grown or remounted, and left alone where it matches.
pub proof fn storage_never_shrinks(
    c: &PartiriConfig,
    over: &ConfigOverride,
    v: &Vec<Volume>,
    r: Result<UpdatePlan, Failure>,
)
    requires
        call_ensures(storage::run_update, (c, over, v), r),
    ensures
        r is Ok ==> c.id is Some && c.service.disk is Some && service_volume(v@, c.id->0@) is Some,
        r is Ok ==> c.service.disk->0.size >= service_volume(v@, c.id->0@)->0.size,
        r is Ok && r->Ok_0 is Patch ==> r->Ok_0->Patch_0@
            == or_empty(service_volume(v@, c.id->0@)->0.id),
        r is Ok && r->Ok_0 is Patch && r->Ok_0->Patch_1.size is Some ==> r->Ok_0->Patch_1.size
            == Some(c.service.disk->0.size),
        r is Ok && r->Ok_0 is Nothing <==> r is Ok
            && same_disk(service_volume(v@, c.id->0@)->0, c.service.disk->0),
{
    storage_needs_a_service_and_a_disk(*c, over@);
}

/// The volume of a service is found among those of its project.
pub proof fn volume_of_a_service_is_found(v: &[Volume], id: &str, r: Option<&Volume>)
    requires
        call_ensures(storage::find_service_volume, (v, id), r),
    ensures
        r is Some ==> serves(*r->0, id@),
        r is None <==> forall|k: int| 0 <= k < v@.len() ==> !serves(#[trigger] v@[k], id@),
{
    volume_of_a_service(v@, id@);
    found_volumes_serve(v@, id@);
}

/// A database is created with what was asked for.
pub proof fn database_is_created_as_asked(
    a: &DbArgs,
    password: &str,
    ctx: Ctx,
    r: Result<CreateDatabaseBody, Failure>,
)
    requires
        need_of(*a, ctx.no_input) == Ok::<Need, CliErrorView>(Need::Password),
        call_ensures(databases::run_create, (a, password, ctx), r),
    ensures
        r is Ok <==> password_problem(password@) is None,
        r is Ok ==> opt_view(a.name) == Some(r->Ok_0.name@),
        r is Ok ==> opt_view(a.db_name) == Some(r->Ok_0.db_name@),
        r is Ok ==> opt_view(a.db_user) == Some(r->Ok_0.db_user@),
        r is Ok ==> opt_view(a.version) == Some(r->Ok_0.db_version@),
        r is Ok ==> opt_view(a.project) == Some(r->Ok_0.fk_project@),
        r is Ok ==> opt_view(a.region) == Some(r->Ok_0.fk_region@),
        r is Ok ==> opt_view(a.pod) == Some(r->Ok_0.fk_pod@),
        r is Ok ==> r->Ok_0.db_password@ == password@,
        r is Ok && a.disk is Some ==> r->Ok_0.db_disk_size == a.disk->0,
        r is Ok && a.disk is None ==> r->Ok_0.db_disk_size == 1,
{
    database_needs(*a, ctx.no_input);
}

/// A configuration is written to the path that was named, and the file says each field.
pub proof fn file_is_written_where_it_belongs(c: &PartiriConfig, path: &str, r: FileWrite)
    requires
        call_ensures(PartiriConfig::save_to, (c, path), r),
    ensures
        r.path@ == path@,
        says(r.contents@, "\"run_command\": "@, json_opt_text(opt_view(c.service.run_command))),
        says(r.contents@, "\"build_command\": "@, json_opt_text(opt_view(c.service.build_command))),
        says(r.contents@, "\"name\": "@, json_text(c.service.name@)),
        says(r.contents@, "\"fk_workspace\": "@, json_text(c.fk_workspace@)),
        says(r.contents@, "\"fk_project\": "@, json_text(c.fk_project@)),
        says(r.contents@, "\"id\": "@, json_opt_text(opt_view(c.id))),
{
    file_says_each_field(*c);
}

/// What is loaded is what was parsed, and nothing else is a success.
pub proof fn loaded_file_is_the_parsed_one(
    over: &ConfigOverride,
    read: ConfigRead,
    r: Result<PartiriConfig, Failure>,
)
    requires
        call_ensures(PartiriConfig::load, (over, read), r),
    ensures
        r is Ok <==> read is Parsed,
        read is Parsed ==> r->Ok_0 == read->Parsed_0,
{
}

/// A response is taken where it succeeds and parses.
pub proof fn response_is_taken(
    status: u16,
    body: Result<String, String>,
    parsed: Result<bool, String>,
    r: Result<bool, Failure>,
)
    requires
        call_ensures(client::handle_response::<bool>, (status, body, parsed), r),
    ensures
        r is Ok <==> 200 <= status <= 299 && body is Ok && parsed is Ok,
        r is Ok ==> r->Ok_0 == parsed->Ok_0,
{
}

/// Remote validation asks only for what applies.
pub proof fn requests_of_remote_validation(c: &PartiriConfig, r: RemoteRequests)
    requires
        call_ensures(validate::remote_requests, (c,), r),
    ensures
        r.workspaces@.path == "/workspaces"@,
        r.projects is Some <==> c.fk_workspace@.len() > 0,
        r.regions is Some <==> c.fk_workspace@.len() > 0,
        r.pods is Some <==> c.fk_workspace@.len() > 0,
        r.balance is Some <==> c.fk_workspace@.len() > 0,
        r.services is Some <==> name_is_looked_up(*c),
        r.branches is Some <==> has_text(c.service.repository_url),
        r.registry is Some <==> has_text(c.service.registry_url),
        r.projects is Some ==> r.projects->0@.path == "/projects"@ && r.projects->0@.query
            == seq![("workspace"@, c.fk_workspace@)],
        r.regions is Some ==> r.regions->0@.path == "/resources/regions"@ && r.regions->0@.query
            == seq![("workspace"@, c.fk_workspace@)],
        r.pods is Some ==> r.pods->0@.path == "/resources/pods"@ && r.pods->0@.query
            == seq![("workspace"@, c.fk_workspace@)],
        r.services is Some ==> r.services->0@.path == "/services"@ && r.services->0@.query[0]
            == ("project"@, c.fk_project@),
        r.branches is Some ==> r.branches->0@.path == "/resources/utils/git"@
            && r.branches->0@.query[0] == ("url"@, c.service.repository_url->0@),
        r.registry is Some ==> r.registry->0@.path == "/resources/utils/reg"@
            && r.registry->0@.query[0] == ("registry_url"@, c.service.registry_url->0@),
        r.balance is Some ==> r.balance->0@.path == "/balances/"@ + c.fk_workspace@,
{
}

} // verus!
