//! What the configuration file says: each field under its key.
use vstd::prelude::*;
use vstd::string::*;

use crate::config::PartiriConfig;
use crate::jsonc::{
    bool_text, disk_section, json_opt_text, json_text, jsonc_of, optional_line, source_section,
};
use crate::jsonc::{
    AT_ACTIVE, AT_BUILD_COMMAND, AT_BUILD_PATH, AT_DEPLOY_TAG, AT_DEPLOY_TYPE, AT_DISK, AT_END,
    AT_FK_POD, AT_FK_PROJECT, AT_FK_REGION, AT_FK_WORKSPACE, AT_HEALTH, AT_ID, AT_MAINTENANCE,
    AT_NAME, AT_PRE_DEPLOY, AT_ROOT_PATH, AT_RUNTIME, AT_RUN_COMMAND, AT_SECRET, AT_SOURCE,
    BUILD_PATH, BUILD_PATH_NONE, DISK_END, DISK_MOUNT, DISK_SIZE, HEALTH, PRE_DEPLOY,
    PRE_DEPLOY_NONE, REGISTRY_END, REGISTRY_URL, REPOSITORY_BRANCH, REPOSITORY_END, REPOSITORY_URL,
    SECRET, SECRET_NONE,
};
use crate::text::{decimal_of, opt_view};

verus! {

/// Whether a text says a value behind a head, and the value ends there.
pub open spec fn says(text: Seq<char>, head: Seq<char>, value: Seq<char>) -> bool {
    exists|a: Seq<char>, b: Seq<char>|
        {
            &&& text == #[trigger] (a + (head + value) + b)
            &&& b.len() > 0
            &&& b[0] == ',' || b[0] == '\n'
        }
}

/// What a part says the whole says.
proof fn part_says(q: Seq<char>, part: Seq<char>, r: Seq<char>, head: Seq<char>, value: Seq<char>)
    requires
        says(part, head, value),
    ensures
        says(q + part + r, head, value),
{
    let (a, b) = choose|a: Seq<char>, b: Seq<char>|
        {
            &&& part == #[trigger] (a + (head + value) + b)
            &&& b.len() > 0
            &&& b[0] == ',' || b[0] == '\n'
        };
    assert(q + part + r =~= (q + a) + (head + value) + (b + r));
    assert((b + r)[0] == b[0]);
}

/// What stands behind a head that ends a text is said by it.
proof fn chunk_says(
    at: Seq<char>,
    value: Seq<char>,
    next: Seq<char>,
    head: Seq<char>,
)
    requires
        head.is_suffix_of(at),
        next.len() > 0,
        next[0] == ',' || next[0] == '\n',
    ensures
        says(at + value + next, head, value),
{
    let a = at.take(at.len() - head.len());
    assert(at =~= a + head);
    assert(at + value + next =~= a + (head + value) + next);
}

proof fn at_id_ends()
    ensures
        "\"id\": "@.is_suffix_of(AT_ID@),
{
    reveal_strlit(r#"{
  // The service ID assigned by Partiri after running 'partiri service create'.
  // Leave as null until you have created the service.
  "id": "#);
    reveal_strlit("\"id\": ");
    assert(AT_ID@.len() == 145);
    assert("\"id\": "@.len() == 6);
    assert(AT_ID@.skip(139) =~= "\"id\": "@);
}

proof fn at_deploy_tag_ends()
    ensures
        "\"deploy_tag\": "@.is_suffix_of(AT_DEPLOY_TAG@),
{
    reveal_strlit(r#",

  // Set by Partiri after each deployment. Required for 'partiri service logs' and metrics.
  // Run 'partiri service pull' to refresh this value after a new deployment.
  "deploy_tag": "#);
    reveal_strlit("\"deploy_tag\": ");
    assert(AT_DEPLOY_TAG@.len() == 189);
    assert("\"deploy_tag\": "@.len() == 14);
    assert(AT_DEPLOY_TAG@.skip(175) =~= "\"deploy_tag\": "@);
}

proof fn at_fk_workspace_ends()
    ensures
        "\"fk_workspace\": "@.is_suffix_of(AT_FK_WORKSPACE@),
{
    reveal_strlit(r#",

  // The workspace this service belongs to (selected during init).
  "fk_workspace": "#);
    reveal_strlit("\"fk_workspace\": ");
    assert(AT_FK_WORKSPACE@.len() == 88);
    assert("\"fk_workspace\": "@.len() == 16);
    assert(AT_FK_WORKSPACE@.skip(72) =~= "\"fk_workspace\": "@);
}

proof fn at_fk_project_ends()
    ensures
        "\"fk_project\": "@.is_suffix_of(AT_FK_PROJECT@),
{
    reveal_strlit(r#",

  // The project this service belongs to (selected during init).
  "fk_project": "#);
    reveal_strlit("\"fk_project\": ");
    assert(AT_FK_PROJECT@.len() == 84);
    assert("\"fk_project\": "@.len() == 14);
    assert(AT_FK_PROJECT@.skip(70) =~= "\"fk_project\": "@);
}

proof fn at_name_ends()
    ensures
        "\"name\": "@.is_suffix_of(AT_NAME@),
{
    reveal_strlit(r#",

  "service": {
    // Display name for your service on Partiri Cloud.
    "name": "#);
    reveal_strlit("\"name\": ");
    assert(AT_NAME@.len() == 85);
    assert("\"name\": "@.len() == 8);
    assert(AT_NAME@.skip(77) =~= "\"name\": "@);
}

proof fn at_deploy_type_ends()
    ensures
        "\"deploy_type\": "@.is_suffix_of(AT_DEPLOY_TYPE@),
{
    reveal_strlit(r#",

    // Service type. Supported values: "webservice" | "static" | "private-service" | "worker"
    // - webservice:      public HTTP service with an external URL
    // - static:          static file hosting (repository only — registry not supported)
    // - private-service: internal HTTP service, not publicly accessible
    // - worker:          long-running background process with no inbound network
    "deploy_type": "#);
    reveal_strlit("\"deploy_type\": ");
    assert(AT_DEPLOY_TYPE@.len() == 427);
    assert("\"deploy_type\": "@.len() == 15);
    assert(AT_DEPLOY_TYPE@.skip(412) =~= "\"deploy_type\": "@);
}

proof fn at_runtime_ends()
    ensures
        "\"runtime\": "@.is_suffix_of(AT_RUNTIME@),
{
    reveal_strlit(r#",

    // Runtime environment. Supported: "node" | "deno" | "rust" | "python" | "go" | "ruby" | "elixir" | "php" | "jvm" | "dotnet" | "cpp" | "static" | "registry"
    "runtime": "#);
    reveal_strlit("\"runtime\": ");
    assert(AT_RUNTIME@.len() == 179);
    assert("\"runtime\": "@.len() == 11);
    assert(AT_RUNTIME@.skip(168) =~= "\"runtime\": "@);
}

proof fn at_root_path_ends()
    ensures
        "\"root_path\": "@.is_suffix_of(AT_ROOT_PATH@),
{
    reveal_strlit(r#",

    // Path to the root of your application within the repository.
    "root_path": "#);
    reveal_strlit("\"root_path\": ");
    assert(AT_ROOT_PATH@.len() == 87);
    assert("\"root_path\": "@.len() == 13);
    assert(AT_ROOT_PATH@.skip(74) =~= "\"root_path\": "@);
}

proof fn at_build_command_ends()
    ensures
        "\"build_command\": "@.is_suffix_of(AT_BUILD_COMMAND@),
{
    reveal_strlit(r#"

    // Command to build the project (leave empty if not needed).
    "build_command": "#);
    reveal_strlit("\"build_command\": ");
    assert(AT_BUILD_COMMAND@.len() == 88);
    assert("\"build_command\": "@.len() == 17);
    assert(AT_BUILD_COMMAND@.skip(71) =~= "\"build_command\": "@);
}

proof fn at_run_command_ends()
    ensures
        "\"run_command\": "@.is_suffix_of(AT_RUN_COMMAND@),
{
    reveal_strlit(r#"

    // Command to start the service at runtime.
    "run_command": "#);
    reveal_strlit("\"run_command\": ");
    assert(AT_RUN_COMMAND@.len() == 69);
    assert("\"run_command\": "@.len() == 15);
    assert(AT_RUN_COMMAND@.skip(54) =~= "\"run_command\": "@);
}

proof fn at_fk_region_ends()
    ensures
        "\"fk_region\": "@.is_suffix_of(AT_FK_REGION@),
{
    reveal_strlit(r#",

    // Region where the service will be deployed.
    "fk_region": "#);
    reveal_strlit("\"fk_region\": ");
    assert(AT_FK_REGION@.len() == 70);
    assert("\"fk_region\": "@.len() == 13);
    assert(AT_FK_REGION@.skip(57) =~= "\"fk_region\": "@);
}

proof fn at_fk_pod_ends()
    ensures
        "\"fk_pod\": "@.is_suffix_of(AT_FK_POD@),
{
    reveal_strlit(r#",

    // Compute pod — determines CPU and RAM allocated to the service.
    "fk_pod": "#);
    reveal_strlit("\"fk_pod\": ");
    assert(AT_FK_POD@.len() == 87);
    assert("\"fk_pod\": "@.len() == 10);
    assert(AT_FK_POD@.skip(77) =~= "\"fk_pod\": "@);
}

proof fn at_maintenance_ends()
    ensures
        "\"maintenance_mode\": "@.is_suffix_of(AT_MAINTENANCE@),
{
    reveal_strlit(r#"

    // Enable maintenance mode (serves a maintenance page instead of the app).
    "maintenance_mode": "#);
    reveal_strlit("\"maintenance_mode\": ");
    assert(AT_MAINTENANCE@.len() == 105);
    assert("\"maintenance_mode\": "@.len() == 20);
    assert(AT_MAINTENANCE@.skip(85) =~= "\"maintenance_mode\": "@);
}

proof fn at_active_ends()
    ensures
        "\"active\": "@.is_suffix_of(AT_ACTIVE@),
{
    reveal_strlit(r#",

    // Whether the service is active.
    "active": "#);
    reveal_strlit("\"active\": ");
    assert(AT_ACTIVE@.len() == 55);
    assert("\"active\": "@.len() == 10);
    assert(AT_ACTIVE@.skip(45) =~= "\"active\": "@);
}

proof fn repository_url_ends()
    ensures
        "\"repository_url\": "@.is_suffix_of(REPOSITORY_URL@),
{
    reveal_strlit(r#"
    // ─── Repository source ─────────────────────────────────────────────────────
    // Required for deploy_type "static" (registry not supported for static).
    "repository_url": "#);
    reveal_strlit("\"repository_url\": ");
    assert(REPOSITORY_URL@.len() == 184);
    assert("\"repository_url\": "@.len() == 18);
    assert(REPOSITORY_URL@.skip(166) =~= "\"repository_url\": "@);
}

proof fn repository_branch_ends()
    ensures
        "\"repository_branch\": "@.is_suffix_of(REPOSITORY_BRANCH@),
{
    reveal_strlit(r#",
    "repository_branch": "#);
    reveal_strlit("\"repository_branch\": ");
    assert(REPOSITORY_BRANCH@.len() == 27);
    assert("\"repository_branch\": "@.len() == 21);
    assert(REPOSITORY_BRANCH@.skip(6) =~= "\"repository_branch\": "@);
}

proof fn registry_url_ends()
    ensures
        "\"registry_url\": "@.is_suffix_of(REGISTRY_URL@),
{
    reveal_strlit(r#"
    // ─── Registry source (not available for deploy_type "static") ──────────────
    // Full image reference (e.g. "ghcr.io/owner/image:tag"). The API splits
    // this into registry host + repository + tag server-side.
    "registry_url": "#);
    reveal_strlit("\"registry_url\": ");
    assert(REGISTRY_URL@.len() == 244);
    assert("\"registry_url\": "@.len() == 16);
    assert(REGISTRY_URL@.skip(228) =~= "\"registry_url\": "@);
}

proof fn secret_ends()
    ensures
        "\"fk_service_secret\": "@.is_suffix_of(SECRET@),
{
    reveal_strlit(r#"    // Authentication token for private repository / registry access.
    "fk_service_secret": "#);
    reveal_strlit("\"fk_service_secret\": ");
    assert(SECRET@.len() == 95);
    assert("\"fk_service_secret\": "@.len() == 21);
    assert(SECRET@.skip(74) =~= "\"fk_service_secret\": "@);
}

proof fn build_path_ends()
    ensures
        "\"build_path\": "@.is_suffix_of(BUILD_PATH@),
{
    reveal_strlit(r#"    "build_path": "#);
    reveal_strlit("\"build_path\": ");
    assert(BUILD_PATH@.len() == 18);
    assert("\"build_path\": "@.len() == 14);
    assert(BUILD_PATH@.skip(4) =~= "\"build_path\": "@);
}

proof fn pre_deploy_ends()
    ensures
        "\"pre_deploy_command\": "@.is_suffix_of(PRE_DEPLOY@),
{
    reveal_strlit(r#"    "pre_deploy_command": "#);
    reveal_strlit("\"pre_deploy_command\": ");
    assert(PRE_DEPLOY@.len() == 26);
    assert("\"pre_deploy_command\": "@.len() == 22);
    assert(PRE_DEPLOY@.skip(4) =~= "\"pre_deploy_command\": "@);
}

proof fn health_ends()
    ensures
        "\"health_check_path\": "@.is_suffix_of(HEALTH@),
{
    reveal_strlit(r#"
    // Health check path (GET). Set to null to disable.
    "health_check_path": "#);
    reveal_strlit("\"health_check_path\": ");
    assert(HEALTH@.len() == 82);
    assert("\"health_check_path\": "@.len() == 21);
    assert(HEALTH@.skip(61) =~= "\"health_check_path\": "@);
}

proof fn disk_mount_ends()
    ensures
        "\"mount_path\": "@.is_suffix_of(DISK_MOUNT@),
{
    reveal_strlit(r#"
    // Persistent disk attached to this service. Remove or set to null to detach on next push.
    "disk": {
      "mount_path": "#);
    reveal_strlit("\"mount_path\": ");
    assert(DISK_MOUNT@.len() == 130);
    assert("\"mount_path\": "@.len() == 14);
    assert(DISK_MOUNT@.skip(116) =~= "\"mount_path\": "@);
}

proof fn disk_size_ends()
    ensures
        "\"size\": "@.is_suffix_of(DISK_SIZE@),
{
    reveal_strlit(r#",
      "size": "#);
    reveal_strlit("\"size\": ");
    assert(DISK_SIZE@.len() == 16);
    assert("\"size\": "@.len() == 8);
    assert(DISK_SIZE@.skip(8) =~= "\"size\": "@);
}

proof fn at_deploy_tag_starts()
    ensures
        AT_DEPLOY_TAG@.len() > 0,
        AT_DEPLOY_TAG@[0] == ',',
{
    reveal_strlit(r#",

  // Set by Partiri after each deployment. Required for 'partiri service logs' and metrics.
  // Run 'partiri service pull' to refresh this value after a new deployment.
  "deploy_tag": "#);
    assert(AT_DEPLOY_TAG@.len() == 189);
}

proof fn at_fk_workspace_starts()
    ensures
        AT_FK_WORKSPACE@.len() > 0,
        AT_FK_WORKSPACE@[0] == ',',
{
    reveal_strlit(r#",

  // The workspace this service belongs to (selected during init).
  "fk_workspace": "#);
    assert(AT_FK_WORKSPACE@.len() == 88);
}

proof fn at_fk_project_starts()
    ensures
        AT_FK_PROJECT@.len() > 0,
        AT_FK_PROJECT@[0] == ',',
{
    reveal_strlit(r#",

  // The project this service belongs to (selected during init).
  "fk_project": "#);
    assert(AT_FK_PROJECT@.len() == 84);
}

proof fn at_name_starts()
    ensures
        AT_NAME@.len() > 0,
        AT_NAME@[0] == ',',
{
    reveal_strlit(r#",

  "service": {
    // Display name for your service on Partiri Cloud.
    "name": "#);
    assert(AT_NAME@.len() == 85);
}

proof fn at_deploy_type_starts()
    ensures
        AT_DEPLOY_TYPE@.len() > 0,
        AT_DEPLOY_TYPE@[0] == ',',
{
    reveal_strlit(r#",

    // Service type. Supported values: "webservice" | "static" | "private-service" | "worker"
    // - webservice:      public HTTP service with an external URL
    // - static:          static file hosting (repository only — registry not supported)
    // - private-service: internal HTTP service, not publicly accessible
    // - worker:          long-running background process with no inbound network
    "deploy_type": "#);
    assert(AT_DEPLOY_TYPE@.len() == 427);
}

proof fn at_runtime_starts()
    ensures
        AT_RUNTIME@.len() > 0,
        AT_RUNTIME@[0] == ',',
{
    reveal_strlit(r#",

    // Runtime environment. Supported: "node" | "deno" | "rust" | "python" | "go" | "ruby" | "elixir" | "php" | "jvm" | "dotnet" | "cpp" | "static" | "registry"
    "runtime": "#);
    assert(AT_RUNTIME@.len() == 179);
}

proof fn at_root_path_starts()
    ensures
        AT_ROOT_PATH@.len() > 0,
        AT_ROOT_PATH@[0] == ',',
{
    reveal_strlit(r#",

    // Path to the root of your application within the repository.
    "root_path": "#);
    assert(AT_ROOT_PATH@.len() == 87);
}

proof fn at_source_starts()
    ensures
        AT_SOURCE@.len() > 0,
        AT_SOURCE@[0] == ',',
{
    reveal_strlit(r#",
"#);
    assert(AT_SOURCE@.len() == 2);
}

proof fn at_secret_starts()
    ensures
        AT_SECRET@.len() > 0,
        AT_SECRET@[0] == '\n',
{
    reveal_strlit(r#"

"#);
    assert(AT_SECRET@.len() == 2);
}

proof fn at_build_command_starts()
    ensures
        AT_BUILD_COMMAND@.len() > 0,
        AT_BUILD_COMMAND@[0] == '\n',
{
    reveal_strlit(r#"

    // Command to build the project (leave empty if not needed).
    "build_command": "#);
    assert(AT_BUILD_COMMAND@.len() == 88);
}

proof fn at_build_path_starts()
    ensures
        AT_BUILD_PATH@.len() > 0,
        AT_BUILD_PATH@[0] == ',',
{
    reveal_strlit(r#",
"#);
    assert(AT_BUILD_PATH@.len() == 2);
}

proof fn at_pre_deploy_starts()
    ensures
        AT_PRE_DEPLOY@.len() > 0,
        AT_PRE_DEPLOY@[0] == '\n',
{
    reveal_strlit(r#"
"#);
    assert(AT_PRE_DEPLOY@.len() == 1);
}

proof fn at_run_command_starts()
    ensures
        AT_RUN_COMMAND@.len() > 0,
        AT_RUN_COMMAND@[0] == '\n',
{
    reveal_strlit(r#"

    // Command to start the service at runtime.
    "run_command": "#);
    assert(AT_RUN_COMMAND@.len() == 69);
}

proof fn at_fk_region_starts()
    ensures
        AT_FK_REGION@.len() > 0,
        AT_FK_REGION@[0] == ',',
{
    reveal_strlit(r#",

    // Region where the service will be deployed.
    "fk_region": "#);
    assert(AT_FK_REGION@.len() == 70);
}

proof fn at_fk_pod_starts()
    ensures
        AT_FK_POD@.len() > 0,
        AT_FK_POD@[0] == ',',
{
    reveal_strlit(r#",

    // Compute pod — determines CPU and RAM allocated to the service.
    "fk_pod": "#);
    assert(AT_FK_POD@.len() == 87);
}

proof fn at_health_starts()
    ensures
        AT_HEALTH@.len() > 0,
        AT_HEALTH@[0] == ',',
{
    reveal_strlit(r#",

"#);
    assert(AT_HEALTH@.len() == 3);
}

proof fn at_disk_starts()
    ensures
        AT_DISK@.len() > 0,
        AT_DISK@[0] == '\n',
{
    reveal_strlit(r#"
"#);
    assert(AT_DISK@.len() == 1);
}

proof fn at_maintenance_starts()
    ensures
        AT_MAINTENANCE@.len() > 0,
        AT_MAINTENANCE@[0] == '\n',
{
    reveal_strlit(r#"

    // Enable maintenance mode (serves a maintenance page instead of the app).
    "maintenance_mode": "#);
    assert(AT_MAINTENANCE@.len() == 105);
}

proof fn at_active_starts()
    ensures
        AT_ACTIVE@.len() > 0,
        AT_ACTIVE@[0] == ',',
{
    reveal_strlit(r#",

    // Whether the service is active.
    "active": "#);
    assert(AT_ACTIVE@.len() == 55);
}

proof fn at_end_starts()
    ensures
        AT_END@.len() > 0,
        AT_END@[0] == '\n',
{
    reveal_strlit(r#"

    // Environment variables are managed via 'partiri service env --path <.env>'.
    // They are never stored in this file.
  }
}
"#);
    assert(AT_END@.len() == 133);
}

proof fn repository_branch_starts()
    ensures
        REPOSITORY_BRANCH@.len() > 0,
        REPOSITORY_BRANCH@[0] == ',',
{
    reveal_strlit(r#",
    "repository_branch": "#);
    assert(REPOSITORY_BRANCH@.len() == 27);
}

proof fn repository_end_starts()
    ensures
        REPOSITORY_END@.len() > 0,
        REPOSITORY_END@[0] == ',',
{
    reveal_strlit(r#",
    // "registry_url": null,           // not used when deploying from a repository"#);
    assert(REPOSITORY_END@.len() == 85);
}

proof fn registry_end_starts()
    ensures
        REGISTRY_END@.len() > 0,
        REGISTRY_END@[0] == ',',
{
    reveal_strlit(r#",
    // "repository_url": null,          // not used when deploying from a registry
    // "repository_branch": null,"#);
    assert(REGISTRY_END@.len() == 118);
}

proof fn disk_size_starts()
    ensures
        DISK_SIZE@.len() > 0,
        DISK_SIZE@[0] == ',',
{
    reveal_strlit(r#",
      "size": "#);
    assert(DISK_SIZE@.len() == 16);
}

proof fn disk_end_starts()
    ensures
        DISK_END@.len() > 0,
        DISK_END@[0] == '\n',
{
    reveal_strlit(r#"
    },"#);
    assert(DISK_END@.len() == 7);
}

/// The file up to each of its values, and what is behind it.
proof fn prefix_of_more(a: Seq<char>, b: Seq<char>, whole: Seq<char>)
    requires
        (a + b).is_prefix_of(whole),
    ensures
        a.is_prefix_of(whole),
{
    assert(a =~= (a + b).take(a.len() as int));
    assert(a =~= whole.take(a.len() as int));
}

/// A text that begins with `q`, a part and more holds the part.
proof fn holds_part(
    q: Seq<char>,
    at: Seq<char>,
    value: Seq<char>,
    next: Seq<char>,
    whole: Seq<char>,
)
    requires
        (q + at + value + next).is_prefix_of(whole),
    ensures
        whole == q + (at + value + next) + whole.skip((q + at + value + next).len() as int),
{
    let p = q + at + value + next;
    assert(p =~= q + (at + value + next));
    assert(whole =~= p + whole.skip(p.len() as int));
}

/// The file before its `i`th value.
spec fn before(c: PartiriConfig, i: int) -> Seq<char> {
    let svc = c.service;
    let e0 = AT_ID@;
    let v0 = e0 + json_opt_text(opt_view(c.id));
    let e1 = v0 + AT_DEPLOY_TAG@;
    let v1 = e1 + json_opt_text(opt_view(c.deploy_tag));
    let e2 = v1 + AT_FK_WORKSPACE@;
    let v2 = e2 + json_text(c.fk_workspace@);
    let e3 = v2 + AT_FK_PROJECT@;
    let v3 = e3 + json_text(c.fk_project@);
    let e4 = v3 + AT_NAME@;
    let v4 = e4 + json_text(svc.name@);
    let e5 = v4 + AT_DEPLOY_TYPE@;
    let v5 = e5 + json_text(svc.deploy_type@);
    let e6 = v5 + AT_RUNTIME@;
    let v6 = e6 + json_text(svc.runtime@);
    let e7 = v6 + AT_ROOT_PATH@;
    let v7 = e7 + json_text(svc.root_path@);
    let e8 = v7 + AT_SOURCE@;
    let v8 = e8 + source_section(svc);
    let e9 = v8 + AT_SECRET@;
    let v9 = e9 + optional_line(svc.fk_service_secret, SECRET@, SECRET_NONE@);
    let e10 = v9 + AT_BUILD_COMMAND@;
    let v10 = e10 + json_opt_text(opt_view(svc.build_command));
    let e11 = v10 + AT_BUILD_PATH@;
    let v11 = e11 + optional_line(svc.build_path, BUILD_PATH@, BUILD_PATH_NONE@);
    let e12 = v11 + AT_PRE_DEPLOY@;
    let v12 = e12 + optional_line(svc.pre_deploy_command, PRE_DEPLOY@, PRE_DEPLOY_NONE@);
    let e13 = v12 + AT_RUN_COMMAND@;
    let v13 = e13 + json_opt_text(opt_view(svc.run_command));
    let e14 = v13 + AT_FK_REGION@;
    let v14 = e14 + json_text(svc.fk_region@);
    let e15 = v14 + AT_FK_POD@;
    let v15 = e15 + json_text(svc.fk_pod@);
    let e16 = v15 + AT_HEALTH@;
    let v16 = e16 + (HEALTH@ + json_opt_text(opt_view(svc.health_check_path)) + ","@);
    let e17 = v16 + AT_DISK@;
    let v17 = e17 + disk_section(svc.disk);
    let e18 = v17 + AT_MAINTENANCE@;
    let v18 = e18 + bool_text(svc.maintenance_mode);
    let e19 = v18 + AT_ACTIVE@;
    let v19 = e19 + bool_text(svc.active);
    let e20 = v19 + AT_END@;
    if i == 0 {
        e0
    } else if i == 1 {
        e1
    } else if i == 2 {
        e2
    } else if i == 3 {
        e3
    } else if i == 4 {
        e4
    } else if i == 5 {
        e5
    } else if i == 6 {
        e6
    } else if i == 7 {
        e7
    } else if i == 8 {
        e8
    } else if i == 9 {
        e9
    } else if i == 10 {
        e10
    } else if i == 11 {
        e11
    } else if i == 12 {
        e12
    } else if i == 13 {
        e13
    } else if i == 14 {
        e14
    } else if i == 15 {
        e15
    } else if i == 16 {
        e16
    } else if i == 17 {
        e17
    } else if i == 18 {
        e18
    } else if i == 19 {
        e19
    } else if i == 20 {
        e20
    } else {
        Seq::empty()
    }
}

proof fn file_is_the_last(c: PartiriConfig)
    ensures
        jsonc_of(c) == before(c, 20),
{
}

proof fn step_0(c: PartiriConfig)
    ensures
        ({
            let svc = c.service;
            before(c, 1) == before(c, 0) + json_opt_text(opt_view(c.id)) + AT_DEPLOY_TAG@
        }),
{
}

proof fn step_1(c: PartiriConfig)
    ensures
        ({
            let svc = c.service;
            before(c, 2) == before(c, 1) + json_opt_text(opt_view(c.deploy_tag)) + AT_FK_WORKSPACE@
        }),
{
}

proof fn step_2(c: PartiriConfig)
    ensures
        ({
            let svc = c.service;
            before(c, 3) == before(c, 2) + json_text(c.fk_workspace@) + AT_FK_PROJECT@
        }),
{
}

proof fn step_3(c: PartiriConfig)
    ensures
        ({
            let svc = c.service;
            before(c, 4) == before(c, 3) + json_text(c.fk_project@) + AT_NAME@
        }),
{
}

proof fn step_4(c: PartiriConfig)
    ensures
        ({
            let svc = c.service;
            before(c, 5) == before(c, 4) + json_text(svc.name@) + AT_DEPLOY_TYPE@
        }),
{
}

proof fn step_5(c: PartiriConfig)
    ensures
        ({
            let svc = c.service;
            before(c, 6) == before(c, 5) + json_text(svc.deploy_type@) + AT_RUNTIME@
        }),
{
}

proof fn step_6(c: PartiriConfig)
    ensures
        ({
            let svc = c.service;
            before(c, 7) == before(c, 6) + json_text(svc.runtime@) + AT_ROOT_PATH@
        }),
{
}

proof fn step_7(c: PartiriConfig)
    ensures
        ({
            let svc = c.service;
            before(c, 8) == before(c, 7) + json_text(svc.root_path@) + AT_SOURCE@
        }),
{
}

proof fn step_8(c: PartiriConfig)
    ensures
        ({
            let svc = c.service;
            before(c, 9) == before(c, 8) + source_section(svc) + AT_SECRET@
        }),
{
}

proof fn step_9(c: PartiriConfig)
    ensures
        ({
            let svc = c.service;
            before(c, 10) == before(c, 9) + optional_line(svc.fk_service_secret, SECRET@, SECRET_NONE@) + AT_BUILD_COMMAND@
        }),
{
}

proof fn step_10(c: PartiriConfig)
    ensures
        ({
            let svc = c.service;
            before(c, 11) == before(c, 10) + json_opt_text(opt_view(svc.build_command)) + AT_BUILD_PATH@
        }),
{
}

proof fn step_11(c: PartiriConfig)
    ensures
        ({
            let svc = c.service;
            before(c, 12) == before(c, 11) + optional_line(svc.build_path, BUILD_PATH@, BUILD_PATH_NONE@) + AT_PRE_DEPLOY@
        }),
{
}

proof fn step_12(c: PartiriConfig)
    ensures
        ({
            let svc = c.service;
            before(c, 13) == before(c, 12) + optional_line(svc.pre_deploy_command, PRE_DEPLOY@, PRE_DEPLOY_NONE@) + AT_RUN_COMMAND@
        }),
{
}

proof fn step_13(c: PartiriConfig)
    ensures
        ({
            let svc = c.service;
            before(c, 14) == before(c, 13) + json_opt_text(opt_view(svc.run_command)) + AT_FK_REGION@
        }),
{
}

proof fn step_14(c: PartiriConfig)
    ensures
        ({
            let svc = c.service;
            before(c, 15) == before(c, 14) + json_text(svc.fk_region@) + AT_FK_POD@
        }),
{
}

proof fn step_15(c: PartiriConfig)
    ensures
        ({
            let svc = c.service;
            before(c, 16) == before(c, 15) + json_text(svc.fk_pod@) + AT_HEALTH@
        }),
{
}

proof fn step_16(c: PartiriConfig)
    ensures
        ({
            let svc = c.service;
            before(c, 17) == before(c, 16) + (HEALTH@ + json_opt_text(opt_view(svc.health_check_path)) + ","@) + AT_DISK@
        }),
{
}

proof fn step_17(c: PartiriConfig)
    ensures
        ({
            let svc = c.service;
            before(c, 18) == before(c, 17) + disk_section(svc.disk) + AT_MAINTENANCE@
        }),
{
}

proof fn step_18(c: PartiriConfig)
    ensures
        ({
            let svc = c.service;
            before(c, 19) == before(c, 18) + bool_text(svc.maintenance_mode) + AT_ACTIVE@
        }),
{
}

proof fn step_19(c: PartiriConfig)
    ensures
        ({
            let svc = c.service;
            before(c, 20) == before(c, 19) + bool_text(svc.active) + AT_END@
        }),
{
}

/// The file begins with what is before each of its values.
proof fn beginnings(c: PartiriConfig)
    ensures
        forall|i: int| 0 <= i <= 20 ==> (#[trigger] before(c, i)).is_prefix_of(jsonc_of(c)),
{
    let svc = c.service;
    let whole = jsonc_of(c);
    file_is_the_last(c);
    assert(before(c, 20).is_prefix_of(whole));
    step_19(c);
    prefix_of_more(before(c, 19) + bool_text(svc.active), AT_END@, whole);
    prefix_of_more(before(c, 19), bool_text(svc.active), whole);
    step_18(c);
    prefix_of_more(before(c, 18) + bool_text(svc.maintenance_mode), AT_ACTIVE@, whole);
    prefix_of_more(before(c, 18), bool_text(svc.maintenance_mode), whole);
    step_17(c);
    prefix_of_more(before(c, 17) + disk_section(svc.disk), AT_MAINTENANCE@, whole);
    prefix_of_more(before(c, 17), disk_section(svc.disk), whole);
    step_16(c);
    prefix_of_more(before(c, 16) + (HEALTH@ + json_opt_text(opt_view(svc.health_check_path)) + ","@), AT_DISK@, whole);
    prefix_of_more(before(c, 16), (HEALTH@ + json_opt_text(opt_view(svc.health_check_path)) + ","@), whole);
    step_15(c);
    prefix_of_more(before(c, 15) + json_text(svc.fk_pod@), AT_HEALTH@, whole);
    prefix_of_more(before(c, 15), json_text(svc.fk_pod@), whole);
    step_14(c);
    prefix_of_more(before(c, 14) + json_text(svc.fk_region@), AT_FK_POD@, whole);
    prefix_of_more(before(c, 14), json_text(svc.fk_region@), whole);
    step_13(c);
    prefix_of_more(before(c, 13) + json_opt_text(opt_view(svc.run_command)), AT_FK_REGION@, whole);
    prefix_of_more(before(c, 13), json_opt_text(opt_view(svc.run_command)), whole);
    step_12(c);
    prefix_of_more(before(c, 12) + optional_line(svc.pre_deploy_command, PRE_DEPLOY@, PRE_DEPLOY_NONE@), AT_RUN_COMMAND@, whole);
    prefix_of_more(before(c, 12), optional_line(svc.pre_deploy_command, PRE_DEPLOY@, PRE_DEPLOY_NONE@), whole);
    step_11(c);
    prefix_of_more(before(c, 11) + optional_line(svc.build_path, BUILD_PATH@, BUILD_PATH_NONE@), AT_PRE_DEPLOY@, whole);
    prefix_of_more(before(c, 11), optional_line(svc.build_path, BUILD_PATH@, BUILD_PATH_NONE@), whole);
    step_10(c);
    prefix_of_more(before(c, 10) + json_opt_text(opt_view(svc.build_command)), AT_BUILD_PATH@, whole);
    prefix_of_more(before(c, 10), json_opt_text(opt_view(svc.build_command)), whole);
    step_9(c);
    prefix_of_more(before(c, 9) + optional_line(svc.fk_service_secret, SECRET@, SECRET_NONE@), AT_BUILD_COMMAND@, whole);
    prefix_of_more(before(c, 9), optional_line(svc.fk_service_secret, SECRET@, SECRET_NONE@), whole);
    step_8(c);
    prefix_of_more(before(c, 8) + source_section(svc), AT_SECRET@, whole);
    prefix_of_more(before(c, 8), source_section(svc), whole);
    step_7(c);
    prefix_of_more(before(c, 7) + json_text(svc.root_path@), AT_SOURCE@, whole);
    prefix_of_more(before(c, 7), json_text(svc.root_path@), whole);
    step_6(c);
    prefix_of_more(before(c, 6) + json_text(svc.runtime@), AT_ROOT_PATH@, whole);
    prefix_of_more(before(c, 6), json_text(svc.runtime@), whole);
    step_5(c);
    prefix_of_more(before(c, 5) + json_text(svc.deploy_type@), AT_RUNTIME@, whole);
    prefix_of_more(before(c, 5), json_text(svc.deploy_type@), whole);
    step_4(c);
    prefix_of_more(before(c, 4) + json_text(svc.name@), AT_DEPLOY_TYPE@, whole);
    prefix_of_more(before(c, 4), json_text(svc.name@), whole);
    step_3(c);
    prefix_of_more(before(c, 3) + json_text(c.fk_project@), AT_NAME@, whole);
    prefix_of_more(before(c, 3), json_text(c.fk_project@), whole);
    step_2(c);
    prefix_of_more(before(c, 2) + json_text(c.fk_workspace@), AT_FK_PROJECT@, whole);
    prefix_of_more(before(c, 2), json_text(c.fk_workspace@), whole);
    step_1(c);
    prefix_of_more(before(c, 1) + json_opt_text(opt_view(c.deploy_tag)), AT_FK_WORKSPACE@, whole);
    prefix_of_more(before(c, 1), json_opt_text(opt_view(c.deploy_tag)), whole);
    step_0(c);
    prefix_of_more(before(c, 0) + json_opt_text(opt_view(c.id)), AT_DEPLOY_TAG@, whole);
    prefix_of_more(before(c, 0), json_opt_text(opt_view(c.id)), whole);
    assert forall|i: int| 0 <= i <= 20 implies (#[trigger] before(c, i)).is_prefix_of(whole) by {
        if i == 0 {
            assert(before(c, 0).is_prefix_of(whole));
        }
        if i == 1 {
            assert(before(c, 1).is_prefix_of(whole));
        }
        if i == 2 {
            assert(before(c, 2).is_prefix_of(whole));
        }
        if i == 3 {
            assert(before(c, 3).is_prefix_of(whole));
        }
        if i == 4 {
            assert(before(c, 4).is_prefix_of(whole));
        }
        if i == 5 {
            assert(before(c, 5).is_prefix_of(whole));
        }
        if i == 6 {
            assert(before(c, 6).is_prefix_of(whole));
        }
        if i == 7 {
            assert(before(c, 7).is_prefix_of(whole));
        }
        if i == 8 {
            assert(before(c, 8).is_prefix_of(whole));
        }
        if i == 9 {
            assert(before(c, 9).is_prefix_of(whole));
        }
        if i == 10 {
            assert(before(c, 10).is_prefix_of(whole));
        }
        if i == 11 {
            assert(before(c, 11).is_prefix_of(whole));
        }
        if i == 12 {
            assert(before(c, 12).is_prefix_of(whole));
        }
        if i == 13 {
            assert(before(c, 13).is_prefix_of(whole));
        }
        if i == 14 {
            assert(before(c, 14).is_prefix_of(whole));
        }
        if i == 15 {
            assert(before(c, 15).is_prefix_of(whole));
        }
        if i == 16 {
            assert(before(c, 16).is_prefix_of(whole));
        }
        if i == 17 {
            assert(before(c, 17).is_prefix_of(whole));
        }
        if i == 18 {
            assert(before(c, 18).is_prefix_of(whole));
        }
        if i == 19 {
            assert(before(c, 19).is_prefix_of(whole));
        }
        if i == 20 {
            assert(before(c, 20).is_prefix_of(whole));
        }
    }
}

proof fn chunk_0(c: PartiriConfig)
    ensures
        ({
            let svc = c.service;
            let q = Seq::<char>::empty();
            let part = AT_ID@ + json_opt_text(opt_view(c.id)) + AT_DEPLOY_TAG@;
            jsonc_of(c) == q + part + jsonc_of(c).skip((q + AT_ID@ + json_opt_text(opt_view(c.id)) + AT_DEPLOY_TAG@).len() as int)
        }),
{
    let svc = c.service;
    beginnings(c);
    let whole = jsonc_of(c);
    let q = Seq::<char>::empty();
    step_0(c);
    assert(before(c, 0) =~= q + AT_ID@);
    assert(before(c, 1).is_prefix_of(whole));
    holds_part(q, AT_ID@, json_opt_text(opt_view(c.id)), AT_DEPLOY_TAG@, whole);
}

proof fn chunk_1(c: PartiriConfig)
    ensures
        ({
            let svc = c.service;
            let q = (before(c, 0) + json_opt_text(opt_view(c.id)));
            let part = AT_DEPLOY_TAG@ + json_opt_text(opt_view(c.deploy_tag)) + AT_FK_WORKSPACE@;
            jsonc_of(c) == q + part + jsonc_of(c).skip((q + AT_DEPLOY_TAG@ + json_opt_text(opt_view(c.deploy_tag)) + AT_FK_WORKSPACE@).len() as int)
        }),
{
    let svc = c.service;
    beginnings(c);
    let whole = jsonc_of(c);
    let q = (before(c, 0) + json_opt_text(opt_view(c.id)));
    step_1(c);
    step_0(c);
    assert(before(c, 1) == q + AT_DEPLOY_TAG@);
    assert(before(c, 2).is_prefix_of(whole));
    holds_part(q, AT_DEPLOY_TAG@, json_opt_text(opt_view(c.deploy_tag)), AT_FK_WORKSPACE@, whole);
}

proof fn chunk_2(c: PartiriConfig)
    ensures
        ({
            let svc = c.service;
            let q = (before(c, 1) + json_opt_text(opt_view(c.deploy_tag)));
            let part = AT_FK_WORKSPACE@ + json_text(c.fk_workspace@) + AT_FK_PROJECT@;
            jsonc_of(c) == q + part + jsonc_of(c).skip((q + AT_FK_WORKSPACE@ + json_text(c.fk_workspace@) + AT_FK_PROJECT@).len() as int)
        }),
{
    let svc = c.service;
    beginnings(c);
    let whole = jsonc_of(c);
    let q = (before(c, 1) + json_opt_text(opt_view(c.deploy_tag)));
    step_2(c);
    step_1(c);
    assert(before(c, 2) == q + AT_FK_WORKSPACE@);
    assert(before(c, 3).is_prefix_of(whole));
    holds_part(q, AT_FK_WORKSPACE@, json_text(c.fk_workspace@), AT_FK_PROJECT@, whole);
}

proof fn chunk_3(c: PartiriConfig)
    ensures
        ({
            let svc = c.service;
            let q = (before(c, 2) + json_text(c.fk_workspace@));
            let part = AT_FK_PROJECT@ + json_text(c.fk_project@) + AT_NAME@;
            jsonc_of(c) == q + part + jsonc_of(c).skip((q + AT_FK_PROJECT@ + json_text(c.fk_project@) + AT_NAME@).len() as int)
        }),
{
    let svc = c.service;
    beginnings(c);
    let whole = jsonc_of(c);
    let q = (before(c, 2) + json_text(c.fk_workspace@));
    step_3(c);
    step_2(c);
    assert(before(c, 3) == q + AT_FK_PROJECT@);
    assert(before(c, 4).is_prefix_of(whole));
    holds_part(q, AT_FK_PROJECT@, json_text(c.fk_project@), AT_NAME@, whole);
}

proof fn chunk_4(c: PartiriConfig)
    ensures
        ({
            let svc = c.service;
            let q = (before(c, 3) + json_text(c.fk_project@));
            let part = AT_NAME@ + json_text(svc.name@) + AT_DEPLOY_TYPE@;
            jsonc_of(c) == q + part + jsonc_of(c).skip((q + AT_NAME@ + json_text(svc.name@) + AT_DEPLOY_TYPE@).len() as int)
        }),
{
    let svc = c.service;
    beginnings(c);
    let whole = jsonc_of(c);
    let q = (before(c, 3) + json_text(c.fk_project@));
    step_4(c);
    step_3(c);
    assert(before(c, 4) == q + AT_NAME@);
    assert(before(c, 5).is_prefix_of(whole));
    holds_part(q, AT_NAME@, json_text(svc.name@), AT_DEPLOY_TYPE@, whole);
}

proof fn chunk_5(c: PartiriConfig)
    ensures
        ({
            let svc = c.service;
            let q = (before(c, 4) + json_text(svc.name@));
            let part = AT_DEPLOY_TYPE@ + json_text(svc.deploy_type@) + AT_RUNTIME@;
            jsonc_of(c) == q + part + jsonc_of(c).skip((q + AT_DEPLOY_TYPE@ + json_text(svc.deploy_type@) + AT_RUNTIME@).len() as int)
        }),
{
    let svc = c.service;
    beginnings(c);
    let whole = jsonc_of(c);
    let q = (before(c, 4) + json_text(svc.name@));
    step_5(c);
    step_4(c);
    assert(before(c, 5) == q + AT_DEPLOY_TYPE@);
    assert(before(c, 6).is_prefix_of(whole));
    holds_part(q, AT_DEPLOY_TYPE@, json_text(svc.deploy_type@), AT_RUNTIME@, whole);
}

proof fn chunk_6(c: PartiriConfig)
    ensures
        ({
            let svc = c.service;
            let q = (before(c, 5) + json_text(svc.deploy_type@));
            let part = AT_RUNTIME@ + json_text(svc.runtime@) + AT_ROOT_PATH@;
            jsonc_of(c) == q + part + jsonc_of(c).skip((q + AT_RUNTIME@ + json_text(svc.runtime@) + AT_ROOT_PATH@).len() as int)
        }),
{
    let svc = c.service;
    beginnings(c);
    let whole = jsonc_of(c);
    let q = (before(c, 5) + json_text(svc.deploy_type@));
    step_6(c);
    step_5(c);
    assert(before(c, 6) == q + AT_RUNTIME@);
    assert(before(c, 7).is_prefix_of(whole));
    holds_part(q, AT_RUNTIME@, json_text(svc.runtime@), AT_ROOT_PATH@, whole);
}

proof fn chunk_7(c: PartiriConfig)
    ensures
        ({
            let svc = c.service;
            let q = (before(c, 6) + json_text(svc.runtime@));
            let part = AT_ROOT_PATH@ + json_text(svc.root_path@) + AT_SOURCE@;
            jsonc_of(c) == q + part + jsonc_of(c).skip((q + AT_ROOT_PATH@ + json_text(svc.root_path@) + AT_SOURCE@).len() as int)
        }),
{
    let svc = c.service;
    beginnings(c);
    let whole = jsonc_of(c);
    let q = (before(c, 6) + json_text(svc.runtime@));
    step_7(c);
    step_6(c);
    assert(before(c, 7) == q + AT_ROOT_PATH@);
    assert(before(c, 8).is_prefix_of(whole));
    holds_part(q, AT_ROOT_PATH@, json_text(svc.root_path@), AT_SOURCE@, whole);
}

proof fn chunk_8(c: PartiriConfig)
    ensures
        ({
            let svc = c.service;
            let q = (before(c, 7) + json_text(svc.root_path@));
            let part = AT_SOURCE@ + source_section(svc) + AT_SECRET@;
            jsonc_of(c) == q + part + jsonc_of(c).skip((q + AT_SOURCE@ + source_section(svc) + AT_SECRET@).len() as int)
        }),
{
    let svc = c.service;
    beginnings(c);
    let whole = jsonc_of(c);
    let q = (before(c, 7) + json_text(svc.root_path@));
    step_8(c);
    step_7(c);
    assert(before(c, 8) == q + AT_SOURCE@);
    assert(before(c, 9).is_prefix_of(whole));
    holds_part(q, AT_SOURCE@, source_section(svc), AT_SECRET@, whole);
}

proof fn chunk_9(c: PartiriConfig)
    ensures
        ({
            let svc = c.service;
            let q = (before(c, 8) + source_section(svc));
            let part = AT_SECRET@ + optional_line(svc.fk_service_secret, SECRET@, SECRET_NONE@) + AT_BUILD_COMMAND@;
            jsonc_of(c) == q + part + jsonc_of(c).skip((q + AT_SECRET@ + optional_line(svc.fk_service_secret, SECRET@, SECRET_NONE@) + AT_BUILD_COMMAND@).len() as int)
        }),
{
    let svc = c.service;
    beginnings(c);
    let whole = jsonc_of(c);
    let q = (before(c, 8) + source_section(svc));
    step_9(c);
    step_8(c);
    assert(before(c, 9) == q + AT_SECRET@);
    assert(before(c, 10).is_prefix_of(whole));
    holds_part(q, AT_SECRET@, optional_line(svc.fk_service_secret, SECRET@, SECRET_NONE@), AT_BUILD_COMMAND@, whole);
}

proof fn chunk_10(c: PartiriConfig)
    ensures
        ({
            let svc = c.service;
            let q = (before(c, 9) + optional_line(svc.fk_service_secret, SECRET@, SECRET_NONE@));
            let part = AT_BUILD_COMMAND@ + json_opt_text(opt_view(svc.build_command)) + AT_BUILD_PATH@;
            jsonc_of(c) == q + part + jsonc_of(c).skip((q + AT_BUILD_COMMAND@ + json_opt_text(opt_view(svc.build_command)) + AT_BUILD_PATH@).len() as int)
        }),
{
    let svc = c.service;
    beginnings(c);
    let whole = jsonc_of(c);
    let q = (before(c, 9) + optional_line(svc.fk_service_secret, SECRET@, SECRET_NONE@));
    step_10(c);
    step_9(c);
    assert(before(c, 10) == q + AT_BUILD_COMMAND@);
    assert(before(c, 11).is_prefix_of(whole));
    holds_part(q, AT_BUILD_COMMAND@, json_opt_text(opt_view(svc.build_command)), AT_BUILD_PATH@, whole);
}

proof fn chunk_11(c: PartiriConfig)
    ensures
        ({
            let svc = c.service;
            let q = (before(c, 10) + json_opt_text(opt_view(svc.build_command)));
            let part = AT_BUILD_PATH@ + optional_line(svc.build_path, BUILD_PATH@, BUILD_PATH_NONE@) + AT_PRE_DEPLOY@;
            jsonc_of(c) == q + part + jsonc_of(c).skip((q + AT_BUILD_PATH@ + optional_line(svc.build_path, BUILD_PATH@, BUILD_PATH_NONE@) + AT_PRE_DEPLOY@).len() as int)
        }),
{
    let svc = c.service;
    beginnings(c);
    let whole = jsonc_of(c);
    let q = (before(c, 10) + json_opt_text(opt_view(svc.build_command)));
    step_11(c);
    step_10(c);
    assert(before(c, 11) == q + AT_BUILD_PATH@);
    assert(before(c, 12).is_prefix_of(whole));
    holds_part(q, AT_BUILD_PATH@, optional_line(svc.build_path, BUILD_PATH@, BUILD_PATH_NONE@), AT_PRE_DEPLOY@, whole);
}

proof fn chunk_12(c: PartiriConfig)
    ensures
        ({
            let svc = c.service;
            let q = (before(c, 11) + optional_line(svc.build_path, BUILD_PATH@, BUILD_PATH_NONE@));
            let part = AT_PRE_DEPLOY@ + optional_line(svc.pre_deploy_command, PRE_DEPLOY@, PRE_DEPLOY_NONE@) + AT_RUN_COMMAND@;
            jsonc_of(c) == q + part + jsonc_of(c).skip((q + AT_PRE_DEPLOY@ + optional_line(svc.pre_deploy_command, PRE_DEPLOY@, PRE_DEPLOY_NONE@) + AT_RUN_COMMAND@).len() as int)
        }),
{
    let svc = c.service;
    beginnings(c);
    let whole = jsonc_of(c);
    let q = (before(c, 11) + optional_line(svc.build_path, BUILD_PATH@, BUILD_PATH_NONE@));
    step_12(c);
    step_11(c);
    assert(before(c, 12) == q + AT_PRE_DEPLOY@);
    assert(before(c, 13).is_prefix_of(whole));
    holds_part(q, AT_PRE_DEPLOY@, optional_line(svc.pre_deploy_command, PRE_DEPLOY@, PRE_DEPLOY_NONE@), AT_RUN_COMMAND@, whole);
}

proof fn chunk_13(c: PartiriConfig)
    ensures
        ({
            let svc = c.service;
            let q = (before(c, 12) + optional_line(svc.pre_deploy_command, PRE_DEPLOY@, PRE_DEPLOY_NONE@));
            let part = AT_RUN_COMMAND@ + json_opt_text(opt_view(svc.run_command)) + AT_FK_REGION@;
            jsonc_of(c) == q + part + jsonc_of(c).skip((q + AT_RUN_COMMAND@ + json_opt_text(opt_view(svc.run_command)) + AT_FK_REGION@).len() as int)
        }),
{
    let svc = c.service;
    beginnings(c);
    let whole = jsonc_of(c);
    let q = (before(c, 12) + optional_line(svc.pre_deploy_command, PRE_DEPLOY@, PRE_DEPLOY_NONE@));
    step_13(c);
    step_12(c);
    assert(before(c, 13) == q + AT_RUN_COMMAND@);
    assert(before(c, 14).is_prefix_of(whole));
    holds_part(q, AT_RUN_COMMAND@, json_opt_text(opt_view(svc.run_command)), AT_FK_REGION@, whole);
}

proof fn chunk_14(c: PartiriConfig)
    ensures
        ({
            let svc = c.service;
            let q = (before(c, 13) + json_opt_text(opt_view(svc.run_command)));
            let part = AT_FK_REGION@ + json_text(svc.fk_region@) + AT_FK_POD@;
            jsonc_of(c) == q + part + jsonc_of(c).skip((q + AT_FK_REGION@ + json_text(svc.fk_region@) + AT_FK_POD@).len() as int)
        }),
{
    let svc = c.service;
    beginnings(c);
    let whole = jsonc_of(c);
    let q = (before(c, 13) + json_opt_text(opt_view(svc.run_command)));
    step_14(c);
    step_13(c);
    assert(before(c, 14) == q + AT_FK_REGION@);
    assert(before(c, 15).is_prefix_of(whole));
    holds_part(q, AT_FK_REGION@, json_text(svc.fk_region@), AT_FK_POD@, whole);
}

proof fn chunk_15(c: PartiriConfig)
    ensures
        ({
            let svc = c.service;
            let q = (before(c, 14) + json_text(svc.fk_region@));
            let part = AT_FK_POD@ + json_text(svc.fk_pod@) + AT_HEALTH@;
            jsonc_of(c) == q + part + jsonc_of(c).skip((q + AT_FK_POD@ + json_text(svc.fk_pod@) + AT_HEALTH@).len() as int)
        }),
{
    let svc = c.service;
    beginnings(c);
    let whole = jsonc_of(c);
    let q = (before(c, 14) + json_text(svc.fk_region@));
    step_15(c);
    step_14(c);
    assert(before(c, 15) == q + AT_FK_POD@);
    assert(before(c, 16).is_prefix_of(whole));
    holds_part(q, AT_FK_POD@, json_text(svc.fk_pod@), AT_HEALTH@, whole);
}

proof fn chunk_16(c: PartiriConfig)
    ensures
        ({
            let svc = c.service;
            let q = (before(c, 15) + json_text(svc.fk_pod@));
            let part = AT_HEALTH@ + (HEALTH@ + json_opt_text(opt_view(svc.health_check_path)) + ","@) + AT_DISK@;
            jsonc_of(c) == q + part + jsonc_of(c).skip((q + AT_HEALTH@ + (HEALTH@ + json_opt_text(opt_view(svc.health_check_path)) + ","@) + AT_DISK@).len() as int)
        }),
{
    let svc = c.service;
    beginnings(c);
    let whole = jsonc_of(c);
    let q = (before(c, 15) + json_text(svc.fk_pod@));
    step_16(c);
    step_15(c);
    assert(before(c, 16) == q + AT_HEALTH@);
    assert(before(c, 17).is_prefix_of(whole));
    holds_part(q, AT_HEALTH@, (HEALTH@ + json_opt_text(opt_view(svc.health_check_path)) + ","@), AT_DISK@, whole);
}

proof fn chunk_17(c: PartiriConfig)
    ensures
        ({
            let svc = c.service;
            let q = (before(c, 16) + (HEALTH@ + json_opt_text(opt_view(svc.health_check_path)) + ","@));
            let part = AT_DISK@ + disk_section(svc.disk) + AT_MAINTENANCE@;
            jsonc_of(c) == q + part + jsonc_of(c).skip((q + AT_DISK@ + disk_section(svc.disk) + AT_MAINTENANCE@).len() as int)
        }),
{
    let svc = c.service;
    beginnings(c);
    let whole = jsonc_of(c);
    let q = (before(c, 16) + (HEALTH@ + json_opt_text(opt_view(svc.health_check_path)) + ","@));
    step_17(c);
    step_16(c);
    assert(before(c, 17) == q + AT_DISK@);
    assert(before(c, 18).is_prefix_of(whole));
    holds_part(q, AT_DISK@, disk_section(svc.disk), AT_MAINTENANCE@, whole);
}

proof fn chunk_18(c: PartiriConfig)
    ensures
        ({
            let svc = c.service;
            let q = (before(c, 17) + disk_section(svc.disk));
            let part = AT_MAINTENANCE@ + bool_text(svc.maintenance_mode) + AT_ACTIVE@;
            jsonc_of(c) == q + part + jsonc_of(c).skip((q + AT_MAINTENANCE@ + bool_text(svc.maintenance_mode) + AT_ACTIVE@).len() as int)
        }),
{
    let svc = c.service;
    beginnings(c);
    let whole = jsonc_of(c);
    let q = (before(c, 17) + disk_section(svc.disk));
    step_18(c);
    step_17(c);
    assert(before(c, 18) == q + AT_MAINTENANCE@);
    assert(before(c, 19).is_prefix_of(whole));
    holds_part(q, AT_MAINTENANCE@, bool_text(svc.maintenance_mode), AT_ACTIVE@, whole);
}

proof fn chunk_19(c: PartiriConfig)
    ensures
        ({
            let svc = c.service;
            let q = (before(c, 18) + bool_text(svc.maintenance_mode));
            let part = AT_ACTIVE@ + bool_text(svc.active) + AT_END@;
            jsonc_of(c) == q + part + jsonc_of(c).skip((q + AT_ACTIVE@ + bool_text(svc.active) + AT_END@).len() as int)
        }),
{
    let svc = c.service;
    beginnings(c);
    let whole = jsonc_of(c);
    let q = (before(c, 18) + bool_text(svc.maintenance_mode));
    step_19(c);
    step_18(c);
    assert(before(c, 19) == q + AT_ACTIVE@);
    assert(before(c, 20).is_prefix_of(whole));
    holds_part(q, AT_ACTIVE@, bool_text(svc.active), AT_END@, whole);
}

proof fn says_id(c: PartiriConfig)
    ensures
        says(jsonc_of(c), "\"id\": "@, json_opt_text(opt_view(c.id))),
{
    let svc = c.service;
    let q = Seq::<char>::empty();
    chunk_0(c);
    at_id_ends();
    at_deploy_tag_starts();
    chunk_says(AT_ID@, json_opt_text(opt_view(c.id)), AT_DEPLOY_TAG@, "\"id\": "@);
    part_says(
        q,
        AT_ID@ + json_opt_text(opt_view(c.id)) + AT_DEPLOY_TAG@,
        jsonc_of(c).skip((q + AT_ID@ + json_opt_text(opt_view(c.id)) + AT_DEPLOY_TAG@).len() as int),
        "\"id\": "@,
        json_opt_text(opt_view(c.id)),
    );
}

proof fn says_deploy_tag(c: PartiriConfig)
    ensures
        says(jsonc_of(c), "\"deploy_tag\": "@, json_opt_text(opt_view(c.deploy_tag))),
{
    let svc = c.service;
    let q = (before(c, 0) + json_opt_text(opt_view(c.id)));
    chunk_1(c);
    at_deploy_tag_ends();
    at_fk_workspace_starts();
    chunk_says(AT_DEPLOY_TAG@, json_opt_text(opt_view(c.deploy_tag)), AT_FK_WORKSPACE@, "\"deploy_tag\": "@);
    part_says(
        q,
        AT_DEPLOY_TAG@ + json_opt_text(opt_view(c.deploy_tag)) + AT_FK_WORKSPACE@,
        jsonc_of(c).skip((q + AT_DEPLOY_TAG@ + json_opt_text(opt_view(c.deploy_tag)) + AT_FK_WORKSPACE@).len() as int),
        "\"deploy_tag\": "@,
        json_opt_text(opt_view(c.deploy_tag)),
    );
}

proof fn says_fk_workspace(c: PartiriConfig)
    ensures
        says(jsonc_of(c), "\"fk_workspace\": "@, json_text(c.fk_workspace@)),
{
    let svc = c.service;
    let q = (before(c, 1) + json_opt_text(opt_view(c.deploy_tag)));
    chunk_2(c);
    at_fk_workspace_ends();
    at_fk_project_starts();
    chunk_says(AT_FK_WORKSPACE@, json_text(c.fk_workspace@), AT_FK_PROJECT@, "\"fk_workspace\": "@);
    part_says(
        q,
        AT_FK_WORKSPACE@ + json_text(c.fk_workspace@) + AT_FK_PROJECT@,
        jsonc_of(c).skip((q + AT_FK_WORKSPACE@ + json_text(c.fk_workspace@) + AT_FK_PROJECT@).len() as int),
        "\"fk_workspace\": "@,
        json_text(c.fk_workspace@),
    );
}

proof fn says_fk_project(c: PartiriConfig)
    ensures
        says(jsonc_of(c), "\"fk_project\": "@, json_text(c.fk_project@)),
{
    let svc = c.service;
    let q = (before(c, 2) + json_text(c.fk_workspace@));
    chunk_3(c);
    at_fk_project_ends();
    at_name_starts();
    chunk_says(AT_FK_PROJECT@, json_text(c.fk_project@), AT_NAME@, "\"fk_project\": "@);
    part_says(
        q,
        AT_FK_PROJECT@ + json_text(c.fk_project@) + AT_NAME@,
        jsonc_of(c).skip((q + AT_FK_PROJECT@ + json_text(c.fk_project@) + AT_NAME@).len() as int),
        "\"fk_project\": "@,
        json_text(c.fk_project@),
    );
}

proof fn says_name(c: PartiriConfig)
    ensures
        says(jsonc_of(c), "\"name\": "@, json_text(c.service.name@)),
{
    let svc = c.service;
    let q = (before(c, 3) + json_text(c.fk_project@));
    chunk_4(c);
    at_name_ends();
    at_deploy_type_starts();
    chunk_says(AT_NAME@, json_text(svc.name@), AT_DEPLOY_TYPE@, "\"name\": "@);
    part_says(
        q,
        AT_NAME@ + json_text(svc.name@) + AT_DEPLOY_TYPE@,
        jsonc_of(c).skip((q + AT_NAME@ + json_text(svc.name@) + AT_DEPLOY_TYPE@).len() as int),
        "\"name\": "@,
        json_text(svc.name@),
    );
}

proof fn says_deploy_type(c: PartiriConfig)
    ensures
        says(jsonc_of(c), "\"deploy_type\": "@, json_text(c.service.deploy_type@)),
{
    let svc = c.service;
    let q = (before(c, 4) + json_text(svc.name@));
    chunk_5(c);
    at_deploy_type_ends();
    at_runtime_starts();
    chunk_says(AT_DEPLOY_TYPE@, json_text(svc.deploy_type@), AT_RUNTIME@, "\"deploy_type\": "@);
    part_says(
        q,
        AT_DEPLOY_TYPE@ + json_text(svc.deploy_type@) + AT_RUNTIME@,
        jsonc_of(c).skip((q + AT_DEPLOY_TYPE@ + json_text(svc.deploy_type@) + AT_RUNTIME@).len() as int),
        "\"deploy_type\": "@,
        json_text(svc.deploy_type@),
    );
}

proof fn says_runtime(c: PartiriConfig)
    ensures
        says(jsonc_of(c), "\"runtime\": "@, json_text(c.service.runtime@)),
{
    let svc = c.service;
    let q = (before(c, 5) + json_text(svc.deploy_type@));
    chunk_6(c);
    at_runtime_ends();
    at_root_path_starts();
    chunk_says(AT_RUNTIME@, json_text(svc.runtime@), AT_ROOT_PATH@, "\"runtime\": "@);
    part_says(
        q,
        AT_RUNTIME@ + json_text(svc.runtime@) + AT_ROOT_PATH@,
        jsonc_of(c).skip((q + AT_RUNTIME@ + json_text(svc.runtime@) + AT_ROOT_PATH@).len() as int),
        "\"runtime\": "@,
        json_text(svc.runtime@),
    );
}

proof fn says_root_path(c: PartiriConfig)
    ensures
        says(jsonc_of(c), "\"root_path\": "@, json_text(c.service.root_path@)),
{
    let svc = c.service;
    let q = (before(c, 6) + json_text(svc.runtime@));
    chunk_7(c);
    at_root_path_ends();
    at_source_starts();
    chunk_says(AT_ROOT_PATH@, json_text(svc.root_path@), AT_SOURCE@, "\"root_path\": "@);
    part_says(
        q,
        AT_ROOT_PATH@ + json_text(svc.root_path@) + AT_SOURCE@,
        jsonc_of(c).skip((q + AT_ROOT_PATH@ + json_text(svc.root_path@) + AT_SOURCE@).len() as int),
        "\"root_path\": "@,
        json_text(svc.root_path@),
    );
}

proof fn says_build_command(c: PartiriConfig)
    ensures
        says(jsonc_of(c), "\"build_command\": "@, json_opt_text(opt_view(c.service.build_command))),
{
    let svc = c.service;
    let q = (before(c, 9) + optional_line(svc.fk_service_secret, SECRET@, SECRET_NONE@));
    chunk_10(c);
    at_build_command_ends();
    at_build_path_starts();
    chunk_says(AT_BUILD_COMMAND@, json_opt_text(opt_view(svc.build_command)), AT_BUILD_PATH@, "\"build_command\": "@);
    part_says(
        q,
        AT_BUILD_COMMAND@ + json_opt_text(opt_view(svc.build_command)) + AT_BUILD_PATH@,
        jsonc_of(c).skip((q + AT_BUILD_COMMAND@ + json_opt_text(opt_view(svc.build_command)) + AT_BUILD_PATH@).len() as int),
        "\"build_command\": "@,
        json_opt_text(opt_view(svc.build_command)),
    );
}

proof fn says_run_command(c: PartiriConfig)
    ensures
        says(jsonc_of(c), "\"run_command\": "@, json_opt_text(opt_view(c.service.run_command))),
{
    let svc = c.service;
    let q = (before(c, 12) + optional_line(svc.pre_deploy_command, PRE_DEPLOY@, PRE_DEPLOY_NONE@));
    chunk_13(c);
    at_run_command_ends();
    at_fk_region_starts();
    chunk_says(AT_RUN_COMMAND@, json_opt_text(opt_view(svc.run_command)), AT_FK_REGION@, "\"run_command\": "@);
    part_says(
        q,
        AT_RUN_COMMAND@ + json_opt_text(opt_view(svc.run_command)) + AT_FK_REGION@,
        jsonc_of(c).skip((q + AT_RUN_COMMAND@ + json_opt_text(opt_view(svc.run_command)) + AT_FK_REGION@).len() as int),
        "\"run_command\": "@,
        json_opt_text(opt_view(svc.run_command)),
    );
}

proof fn says_fk_region(c: PartiriConfig)
    ensures
        says(jsonc_of(c), "\"fk_region\": "@, json_text(c.service.fk_region@)),
{
    let svc = c.service;
    let q = (before(c, 13) + json_opt_text(opt_view(svc.run_command)));
    chunk_14(c);
    at_fk_region_ends();
    at_fk_pod_starts();
    chunk_says(AT_FK_REGION@, json_text(svc.fk_region@), AT_FK_POD@, "\"fk_region\": "@);
    part_says(
        q,
        AT_FK_REGION@ + json_text(svc.fk_region@) + AT_FK_POD@,
        jsonc_of(c).skip((q + AT_FK_REGION@ + json_text(svc.fk_region@) + AT_FK_POD@).len() as int),
        "\"fk_region\": "@,
        json_text(svc.fk_region@),
    );
}

proof fn says_fk_pod(c: PartiriConfig)
    ensures
        says(jsonc_of(c), "\"fk_pod\": "@, json_text(c.service.fk_pod@)),
{
    let svc = c.service;
    let q = (before(c, 14) + json_text(svc.fk_region@));
    chunk_15(c);
    at_fk_pod_ends();
    at_health_starts();
    chunk_says(AT_FK_POD@, json_text(svc.fk_pod@), AT_HEALTH@, "\"fk_pod\": "@);
    part_says(
        q,
        AT_FK_POD@ + json_text(svc.fk_pod@) + AT_HEALTH@,
        jsonc_of(c).skip((q + AT_FK_POD@ + json_text(svc.fk_pod@) + AT_HEALTH@).len() as int),
        "\"fk_pod\": "@,
        json_text(svc.fk_pod@),
    );
}

proof fn says_maintenance_mode(c: PartiriConfig)
    ensures
        says(jsonc_of(c), "\"maintenance_mode\": "@, bool_text(c.service.maintenance_mode)),
{
    let svc = c.service;
    let q = (before(c, 17) + disk_section(svc.disk));
    chunk_18(c);
    at_maintenance_ends();
    at_active_starts();
    chunk_says(AT_MAINTENANCE@, bool_text(svc.maintenance_mode), AT_ACTIVE@, "\"maintenance_mode\": "@);
    part_says(
        q,
        AT_MAINTENANCE@ + bool_text(svc.maintenance_mode) + AT_ACTIVE@,
        jsonc_of(c).skip((q + AT_MAINTENANCE@ + bool_text(svc.maintenance_mode) + AT_ACTIVE@).len() as int),
        "\"maintenance_mode\": "@,
        bool_text(svc.maintenance_mode),
    );
}

proof fn says_active(c: PartiriConfig)
    ensures
        says(jsonc_of(c), "\"active\": "@, bool_text(c.service.active)),
{
    let svc = c.service;
    let q = (before(c, 18) + bool_text(svc.maintenance_mode));
    chunk_19(c);
    at_active_ends();
    at_end_starts();
    chunk_says(AT_ACTIVE@, bool_text(svc.active), AT_END@, "\"active\": "@);
    part_says(
        q,
        AT_ACTIVE@ + bool_text(svc.active) + AT_END@,
        jsonc_of(c).skip((q + AT_ACTIVE@ + bool_text(svc.active) + AT_END@).len() as int),
        "\"active\": "@,
        bool_text(svc.active),
    );
}

proof fn says_repository_url(c: PartiriConfig)
    requires
        c.service.repository_url is Some,
    ensures
        says(jsonc_of(c), "\"repository_url\": "@, json_opt_text(opt_view(c.service.repository_url))),
{
    let svc = c.service;
    let q = (before(c, 7) + json_text(svc.root_path@));
    chunk_8(c);
    repository_url_ends();
    repository_branch_starts();
    chunk_says(REPOSITORY_URL@, json_opt_text(opt_view(svc.repository_url)), REPOSITORY_BRANCH@, "\"repository_url\": "@);
    let part = REPOSITORY_URL@ + json_opt_text(opt_view(svc.repository_url)) + REPOSITORY_BRANCH@;
    let pre = Seq::<char>::empty();
    let post = json_opt_text(opt_view(svc.repository_branch)) + REPOSITORY_END@;
    part_says(pre, part, post, "\"repository_url\": "@, json_opt_text(opt_view(svc.repository_url)));
    let section = source_section(svc);
    assert(section =~= pre + part + post);
    part_says(AT_SOURCE@, section, AT_SECRET@, "\"repository_url\": "@, json_opt_text(opt_view(svc.repository_url)));
    part_says(
        q,
        AT_SOURCE@ + section + AT_SECRET@,
        jsonc_of(c).skip((q + AT_SOURCE@ + section + AT_SECRET@).len() as int),
        "\"repository_url\": "@,
        json_opt_text(opt_view(svc.repository_url)),
    );
}

proof fn says_repository_branch(c: PartiriConfig)
    requires
        c.service.repository_url is Some,
    ensures
        says(jsonc_of(c), "\"repository_branch\": "@, json_opt_text(opt_view(c.service.repository_branch))),
{
    let svc = c.service;
    let q = (before(c, 7) + json_text(svc.root_path@));
    chunk_8(c);
    repository_branch_ends();
    repository_end_starts();
    chunk_says(REPOSITORY_BRANCH@, json_opt_text(opt_view(svc.repository_branch)), REPOSITORY_END@, "\"repository_branch\": "@);
    let part = REPOSITORY_BRANCH@ + json_opt_text(opt_view(svc.repository_branch)) + REPOSITORY_END@;
    let pre = REPOSITORY_URL@ + json_opt_text(opt_view(svc.repository_url));
    let post = Seq::<char>::empty();
    part_says(pre, part, post, "\"repository_branch\": "@, json_opt_text(opt_view(svc.repository_branch)));
    let section = source_section(svc);
    assert(section =~= pre + part + post);
    part_says(AT_SOURCE@, section, AT_SECRET@, "\"repository_branch\": "@, json_opt_text(opt_view(svc.repository_branch)));
    part_says(
        q,
        AT_SOURCE@ + section + AT_SECRET@,
        jsonc_of(c).skip((q + AT_SOURCE@ + section + AT_SECRET@).len() as int),
        "\"repository_branch\": "@,
        json_opt_text(opt_view(svc.repository_branch)),
    );
}

proof fn says_registry_url(c: PartiriConfig)
    requires
        c.service.repository_url is None,
    ensures
        says(jsonc_of(c), "\"registry_url\": "@, json_opt_text(opt_view(c.service.registry_url))),
{
    let svc = c.service;
    let q = (before(c, 7) + json_text(svc.root_path@));
    chunk_8(c);
    registry_url_ends();
    registry_end_starts();
    chunk_says(REGISTRY_URL@, json_opt_text(opt_view(svc.registry_url)), REGISTRY_END@, "\"registry_url\": "@);
    let part = REGISTRY_URL@ + json_opt_text(opt_view(svc.registry_url)) + REGISTRY_END@;
    let pre = Seq::<char>::empty();
    let post = Seq::<char>::empty();
    part_says(pre, part, post, "\"registry_url\": "@, json_opt_text(opt_view(svc.registry_url)));
    let section = source_section(svc);
    assert(section =~= pre + part + post);
    part_says(AT_SOURCE@, section, AT_SECRET@, "\"registry_url\": "@, json_opt_text(opt_view(svc.registry_url)));
    part_says(
        q,
        AT_SOURCE@ + section + AT_SECRET@,
        jsonc_of(c).skip((q + AT_SOURCE@ + section + AT_SECRET@).len() as int),
        "\"registry_url\": "@,
        json_opt_text(opt_view(svc.registry_url)),
    );
}

proof fn says_fk_service_secret(c: PartiriConfig)
    requires
        c.service.fk_service_secret is Some,
    ensures
        says(jsonc_of(c), "\"fk_service_secret\": "@, json_text(c.service.fk_service_secret->0@)),
{
    let svc = c.service;
    let q = (before(c, 8) + source_section(svc));
    chunk_9(c);
    secret_ends();
    reveal_strlit(",");
    assert(","@.len() == 1 && ","@[0] == ',');
    chunk_says(SECRET@, json_text(svc.fk_service_secret->0@), ","@, "\"fk_service_secret\": "@);
    let part = SECRET@ + json_text(svc.fk_service_secret->0@) + ","@;
    let pre = Seq::<char>::empty();
    let post = Seq::<char>::empty();
    part_says(pre, part, post, "\"fk_service_secret\": "@, json_text(svc.fk_service_secret->0@));
    let section = optional_line(svc.fk_service_secret, SECRET@, SECRET_NONE@);
    assert(section =~= pre + part + post);
    part_says(AT_SECRET@, section, AT_BUILD_COMMAND@, "\"fk_service_secret\": "@, json_text(svc.fk_service_secret->0@));
    part_says(
        q,
        AT_SECRET@ + section + AT_BUILD_COMMAND@,
        jsonc_of(c).skip((q + AT_SECRET@ + section + AT_BUILD_COMMAND@).len() as int),
        "\"fk_service_secret\": "@,
        json_text(svc.fk_service_secret->0@),
    );
}

proof fn says_build_path(c: PartiriConfig)
    requires
        c.service.build_path is Some,
    ensures
        says(jsonc_of(c), "\"build_path\": "@, json_text(c.service.build_path->0@)),
{
    let svc = c.service;
    let q = (before(c, 10) + json_opt_text(opt_view(svc.build_command)));
    chunk_11(c);
    build_path_ends();
    reveal_strlit(",");
    assert(","@.len() == 1 && ","@[0] == ',');
    chunk_says(BUILD_PATH@, json_text(svc.build_path->0@), ","@, "\"build_path\": "@);
    let part = BUILD_PATH@ + json_text(svc.build_path->0@) + ","@;
    let pre = Seq::<char>::empty();
    let post = Seq::<char>::empty();
    part_says(pre, part, post, "\"build_path\": "@, json_text(svc.build_path->0@));
    let section = optional_line(svc.build_path, BUILD_PATH@, BUILD_PATH_NONE@);
    assert(section =~= pre + part + post);
    part_says(AT_BUILD_PATH@, section, AT_PRE_DEPLOY@, "\"build_path\": "@, json_text(svc.build_path->0@));
    part_says(
        q,
        AT_BUILD_PATH@ + section + AT_PRE_DEPLOY@,
        jsonc_of(c).skip((q + AT_BUILD_PATH@ + section + AT_PRE_DEPLOY@).len() as int),
        "\"build_path\": "@,
        json_text(svc.build_path->0@),
    );
}

proof fn says_pre_deploy_command(c: PartiriConfig)
    requires
        c.service.pre_deploy_command is Some,
    ensures
        says(jsonc_of(c), "\"pre_deploy_command\": "@, json_text(c.service.pre_deploy_command->0@)),
{
    let svc = c.service;
    let q = (before(c, 11) + optional_line(svc.build_path, BUILD_PATH@, BUILD_PATH_NONE@));
    chunk_12(c);
    pre_deploy_ends();
    reveal_strlit(",");
    assert(","@.len() == 1 && ","@[0] == ',');
    chunk_says(PRE_DEPLOY@, json_text(svc.pre_deploy_command->0@), ","@, "\"pre_deploy_command\": "@);
    let part = PRE_DEPLOY@ + json_text(svc.pre_deploy_command->0@) + ","@;
    let pre = Seq::<char>::empty();
    let post = Seq::<char>::empty();
    part_says(pre, part, post, "\"pre_deploy_command\": "@, json_text(svc.pre_deploy_command->0@));
    let section = optional_line(svc.pre_deploy_command, PRE_DEPLOY@, PRE_DEPLOY_NONE@);
    assert(section =~= pre + part + post);
    part_says(AT_PRE_DEPLOY@, section, AT_RUN_COMMAND@, "\"pre_deploy_command\": "@, json_text(svc.pre_deploy_command->0@));
    part_says(
        q,
        AT_PRE_DEPLOY@ + section + AT_RUN_COMMAND@,
        jsonc_of(c).skip((q + AT_PRE_DEPLOY@ + section + AT_RUN_COMMAND@).len() as int),
        "\"pre_deploy_command\": "@,
        json_text(svc.pre_deploy_command->0@),
    );
}

proof fn says_health_check_path(c: PartiriConfig)
    ensures
        says(jsonc_of(c), "\"health_check_path\": "@, json_opt_text(opt_view(c.service.health_check_path))),
{
    let svc = c.service;
    let q = (before(c, 15) + json_text(svc.fk_pod@));
    chunk_16(c);
    health_ends();
    reveal_strlit(",");
    assert(","@.len() == 1 && ","@[0] == ',');
    chunk_says(HEALTH@, json_opt_text(opt_view(svc.health_check_path)), ","@, "\"health_check_path\": "@);
    let part = HEALTH@ + json_opt_text(opt_view(svc.health_check_path)) + ","@;
    let pre = Seq::<char>::empty();
    let post = Seq::<char>::empty();
    part_says(pre, part, post, "\"health_check_path\": "@, json_opt_text(opt_view(svc.health_check_path)));
    let section = (HEALTH@ + json_opt_text(opt_view(svc.health_check_path)) + ","@);
    assert(section =~= pre + part + post);
    part_says(AT_HEALTH@, section, AT_DISK@, "\"health_check_path\": "@, json_opt_text(opt_view(svc.health_check_path)));
    part_says(
        q,
        AT_HEALTH@ + section + AT_DISK@,
        jsonc_of(c).skip((q + AT_HEALTH@ + section + AT_DISK@).len() as int),
        "\"health_check_path\": "@,
        json_opt_text(opt_view(svc.health_check_path)),
    );
}

proof fn says_mount_path(c: PartiriConfig)
    requires
        c.service.disk is Some,
    ensures
        says(jsonc_of(c), "\"mount_path\": "@, json_text(c.service.disk->0.mount_path@)),
{
    let svc = c.service;
    let q = (before(c, 16) + (HEALTH@ + json_opt_text(opt_view(svc.health_check_path)) + ","@));
    chunk_17(c);
    disk_mount_ends();
    disk_size_starts();
    chunk_says(DISK_MOUNT@, json_text(svc.disk->0.mount_path@), DISK_SIZE@, "\"mount_path\": "@);
    let part = DISK_MOUNT@ + json_text(svc.disk->0.mount_path@) + DISK_SIZE@;
    let pre = Seq::<char>::empty();
    let post = decimal_of(svc.disk->0.size as nat) + DISK_END@;
    part_says(pre, part, post, "\"mount_path\": "@, json_text(svc.disk->0.mount_path@));
    let section = disk_section(svc.disk);
    assert(section =~= pre + part + post);
    part_says(AT_DISK@, section, AT_MAINTENANCE@, "\"mount_path\": "@, json_text(svc.disk->0.mount_path@));
    part_says(
        q,
        AT_DISK@ + section + AT_MAINTENANCE@,
        jsonc_of(c).skip((q + AT_DISK@ + section + AT_MAINTENANCE@).len() as int),
        "\"mount_path\": "@,
        json_text(svc.disk->0.mount_path@),
    );
}

proof fn says_size(c: PartiriConfig)
    requires
        c.service.disk is Some,
    ensures
        says(jsonc_of(c), "\"size\": "@, decimal_of(c.service.disk->0.size as nat)),
{
    let svc = c.service;
    let q = (before(c, 16) + (HEALTH@ + json_opt_text(opt_view(svc.health_check_path)) + ","@));
    chunk_17(c);
    disk_size_ends();
    disk_end_starts();
    chunk_says(DISK_SIZE@, decimal_of(svc.disk->0.size as nat), DISK_END@, "\"size\": "@);
    let part = DISK_SIZE@ + decimal_of(svc.disk->0.size as nat) + DISK_END@;
    let pre = DISK_MOUNT@ + json_text(svc.disk->0.mount_path@);
    let post = Seq::<char>::empty();
    part_says(pre, part, post, "\"size\": "@, decimal_of(svc.disk->0.size as nat));
    let section = disk_section(svc.disk);
    assert(section =~= pre + part + post);
    part_says(AT_DISK@, section, AT_MAINTENANCE@, "\"size\": "@, decimal_of(svc.disk->0.size as nat));
    part_says(
        q,
        AT_DISK@ + section + AT_MAINTENANCE@,
        jsonc_of(c).skip((q + AT_DISK@ + section + AT_MAINTENANCE@).len() as int),
        "\"size\": "@,
        decimal_of(svc.disk->0.size as nat),
    );
}

/// The file says each field of the configuration under its key: as JSON text, or
/// as null where a field that is always written is absent. The source is written
/// that there is, and what may be left out is written where it is given.
pub proof fn file_says_each_field(c: PartiriConfig)
    ensures
        says(jsonc_of(c), "\"id\": "@, json_opt_text(opt_view(c.id))),
        says(jsonc_of(c), "\"deploy_tag\": "@, json_opt_text(opt_view(c.deploy_tag))),
        says(jsonc_of(c), "\"fk_workspace\": "@, json_text(c.fk_workspace@)),
        says(jsonc_of(c), "\"fk_project\": "@, json_text(c.fk_project@)),
        says(jsonc_of(c), "\"name\": "@, json_text(c.service.name@)),
        says(jsonc_of(c), "\"deploy_type\": "@, json_text(c.service.deploy_type@)),
        says(jsonc_of(c), "\"runtime\": "@, json_text(c.service.runtime@)),
        says(jsonc_of(c), "\"root_path\": "@, json_text(c.service.root_path@)),
        says(jsonc_of(c), "\"build_command\": "@, json_opt_text(opt_view(c.service.build_command))),
        says(jsonc_of(c), "\"run_command\": "@, json_opt_text(opt_view(c.service.run_command))),
        says(jsonc_of(c), "\"fk_region\": "@, json_text(c.service.fk_region@)),
        says(jsonc_of(c), "\"fk_pod\": "@, json_text(c.service.fk_pod@)),
        says(jsonc_of(c), "\"maintenance_mode\": "@, bool_text(c.service.maintenance_mode)),
        says(jsonc_of(c), "\"active\": "@, bool_text(c.service.active)),
        says(jsonc_of(c), "\"health_check_path\": "@, json_opt_text(opt_view(c.service.health_check_path))),
        c.service.repository_url is Some
            ==> says(jsonc_of(c), "\"repository_url\": "@, json_opt_text(opt_view(c.service.repository_url))),
        c.service.repository_url is Some
            ==> says(jsonc_of(c), "\"repository_branch\": "@, json_opt_text(opt_view(c.service.repository_branch))),
        c.service.repository_url is None
            ==> says(jsonc_of(c), "\"registry_url\": "@, json_opt_text(opt_view(c.service.registry_url))),
        c.service.fk_service_secret matches Some(v)
            ==> says(jsonc_of(c), "\"fk_service_secret\": "@, json_text(v@)),
        c.service.build_path matches Some(v)
            ==> says(jsonc_of(c), "\"build_path\": "@, json_text(v@)),
        c.service.pre_deploy_command matches Some(v)
            ==> says(jsonc_of(c), "\"pre_deploy_command\": "@, json_text(v@)),
        c.service.disk matches Some(d)
            ==> says(jsonc_of(c), "\"mount_path\": "@, json_text(d.mount_path@))
            && says(jsonc_of(c), "\"size\": "@, decimal_of(d.size as nat)),
{
    says_id(c);
    says_deploy_tag(c);
    says_fk_workspace(c);
    says_fk_project(c);
    says_name(c);
    says_deploy_type(c);
    says_runtime(c);
    says_root_path(c);
    says_build_command(c);
    says_run_command(c);
    says_fk_region(c);
    says_fk_pod(c);
    says_maintenance_mode(c);
    says_active(c);
    says_health_check_path(c);
    if c.service.repository_url is Some {
        says_repository_url(c);
        says_repository_branch(c);
    } else {
        says_registry_url(c);
    }
    if c.service.fk_service_secret is Some {
        says_fk_service_secret(c);
    }
    if c.service.build_path is Some {
        says_build_path(c);
    }
    if c.service.pre_deploy_command is Some {
        says_pre_deploy_command(c);
    }
    if c.service.disk is Some {
        says_mount_path(c);
        says_size(c);
    }
}

/// A switch is written as `true` where it is on and as `false` where it is off.
pub proof fn switches_are_written(b: bool)
    ensures
        bool_text(b) == if b {
            "true"@
        } else {
            "false"@
        },
{
}

} // verus!
