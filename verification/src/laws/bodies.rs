//! What the bodies of requests say: under each key stands the field of that
//! name.
use vstd::prelude::*;
use vstd::string::*;

use crate::client::{
    database_members, env_member, env_var_json, opt_member, replica_json, secret_body,
    service_members, update_members, volume_members, CreateDatabaseBody, ReplicaBody, Volume,
    VolumeUpdate,
};
use crate::config::{EnvVar, ServiceConfig};
use crate::json::{
    absent_member_is_not_found, first_member_is_found, lookup_concat, member_of, JsonView,
};
use crate::text::decimal_of;

verus! {

/// What a body says of a text that may be absent: the text, or nothing.
pub open spec fn if_given(o: Option<String>) -> Option<JsonView> {
    match o {
        Some(s) => Some(JsonView::Str(s@)),
        None => None,
    }
}

/// What a body says of a text.
pub open spec fn said(s: Seq<char>) -> Option<JsonView> {
    Some(JsonView::Str(s))
}

/// What a body says of a number.
pub open spec fn counted(n: nat) -> Option<JsonView> {
    Some(JsonView::Num(decimal_of(n)))
}

/// What a body says of a yes or no.
pub open spec fn decided(b: bool) -> Option<JsonView> {
    Some(JsonView::Bool(b))
}

/// What a body lists of variables: each with its key and its value, in order.
pub open spec fn lists_vars(j: JsonView, env: Seq<EnvVar>) -> bool {
    &&& j is Arr
    &&& j->Arr_0.len() == env.len()
    &&& forall|i: int|
        0 <= i < env.len() ==> member_of(#[trigger] j->Arr_0[i], "key"@) == said(env[i].key@)
            && member_of(j->Arr_0[i], "value"@) == said(env[i].value@)
}

/// The keys of the bodies differ from each other.
pub proof fn key_shapes()
    ensures
        "name"@.len() == 4 && "name"@[0] == 'n',
        "deploy_type"@.len() == 11 && "deploy_type"@[0] == 'd' && "deploy_type"@[1] == 'e',
        "runtime"@.len() == 7 && "runtime"@[0] == 'r',
        "root_path"@.len() == 9 && "root_path"@[0] == 'r',
        "repository_url"@.len() == 14,
        "repository_branch"@.len() == 17 && "repository_branch"@[0] == 'r',
        "registry_url"@.len() == 12 && "registry_url"@[0] == 'r',
        "fk_service_secret"@.len() == 17 && "fk_service_secret"@[0] == 'f',
        "build_path"@.len() == 10 && "build_path"@[0] == 'b',
        "build_command"@.len() == 13,
        "pre_deploy_command"@.len() == 18,
        "run_command"@.len() == 11 && "run_command"@[0] == 'r',
        "fk_region"@.len() == 9 && "fk_region"@[0] == 'f',
        "fk_pod"@.len() == 6 && "fk_pod"@[0] == 'f',
        "health_check_path"@.len() == 17 && "health_check_path"@[0] == 'h',
        "maintenance_mode"@.len() == 16,
        "active"@.len() == 6 && "active"@[0] == 'a',
        "env"@.len() == 3 && "env"@[0] == 'e',
        "disk"@.len() == 4 && "disk"@[0] == 'd' && "disk"@[1] == 'i',
        "fk_project"@.len() == 10 && "fk_project"@[0] == 'f' && "fk_project"@[3] == 'p',
        "fk_workspace"@.len() == 12 && "fk_workspace"@[0] == 'f',
        "id"@.len() == 2,
        "fk_service"@.len() == 10 && "fk_service"@[0] == 'f' && "fk_service"@[3] == 's',
        "mount_path"@.len() == 10 && "mount_path"@[0] == 'm',
        "size"@.len() == 4 && "size"@[0] == 's',
        "status"@.len() == 6 && "status"@[0] == 's',
        "created_at"@.len() == 10 && "created_at"@[0] == 'c',
        "db_type"@.len() == 7 && "db_type"@[0] == 'd' && "db_type"@[3] == 't',
        "db_version"@.len() == 10 && "db_version"@[0] == 'd',
        "db_name"@.len() == 7 && "db_name"@[0] == 'd' && "db_name"@[3] == 'n',
        "db_user"@.len() == 7 && "db_user"@[0] == 'd' && "db_user"@[3] == 'u',
        "db_password"@.len() == 11 && "db_password"@[0] == 'd' && "db_password"@[1] == 'b',
        "db_disk_size"@.len() == 12 && "db_disk_size"@[0] == 'd',
        "replicas"@.len() == 8 && "replicas"@[0] == 'r',
        "is_primary"@.len() == 10 && "is_primary"@[0] == 'i',
        "key"@.len() == 3 && "key"@[0] == 'k',
        "value"@.len() == 5,
        "provider"@.len() == 8 && "provider"@[0] == 'p' && "provider"@[1] == 'r',
        "data"@.len() == 4 && "data"@[0] == 'd' && "data"@[1] == 'a',
        "username"@.len() == 8 && "username"@[0] == 'u',
        "password"@.len() == 8 && "password"@[0] == 'p' && "password"@[1] == 'a',
{
    reveal_strlit("name");
    reveal_strlit("deploy_type");
    reveal_strlit("runtime");
    reveal_strlit("root_path");
    reveal_strlit("repository_url");
    reveal_strlit("repository_branch");
    reveal_strlit("registry_url");
    reveal_strlit("fk_service_secret");
    reveal_strlit("build_path");
    reveal_strlit("build_command");
    reveal_strlit("pre_deploy_command");
    reveal_strlit("run_command");
    reveal_strlit("fk_region");
    reveal_strlit("fk_pod");
    reveal_strlit("health_check_path");
    reveal_strlit("maintenance_mode");
    reveal_strlit("active");
    reveal_strlit("env");
    reveal_strlit("disk");
    reveal_strlit("fk_project");
    reveal_strlit("fk_workspace");
    reveal_strlit("id");
    reveal_strlit("fk_service");
    reveal_strlit("mount_path");
    reveal_strlit("size");
    reveal_strlit("status");
    reveal_strlit("created_at");
    reveal_strlit("db_type");
    reveal_strlit("db_version");
    reveal_strlit("db_name");
    reveal_strlit("db_user");
    reveal_strlit("db_password");
    reveal_strlit("db_disk_size");
    reveal_strlit("replicas");
    reveal_strlit("is_primary");
    reveal_strlit("key");
    reveal_strlit("value");
    reveal_strlit("provider");
    reveal_strlit("data");
    reveal_strlit("username");
    reveal_strlit("password");
    assert("name"@.len() == 4);
    assert("deploy_type"@.len() == 11);
    assert("runtime"@.len() == 7);
    assert("root_path"@.len() == 9);
    assert("repository_url"@.len() == 14);
    assert("repository_branch"@.len() == 17);
    assert("registry_url"@.len() == 12);
    assert("fk_service_secret"@.len() == 17);
    assert("build_path"@.len() == 10);
    assert("build_command"@.len() == 13);
    assert("pre_deploy_command"@.len() == 18);
    assert("run_command"@.len() == 11);
    assert("fk_region"@.len() == 9);
    assert("fk_pod"@.len() == 6);
    assert("health_check_path"@.len() == 17);
    assert("maintenance_mode"@.len() == 16);
    assert("active"@.len() == 6);
    assert("env"@.len() == 3);
    assert("disk"@.len() == 4);
    assert("fk_project"@.len() == 10);
    assert("fk_workspace"@.len() == 12);
    assert("id"@.len() == 2);
    assert("fk_service"@.len() == 10);
    assert("mount_path"@.len() == 10);
    assert("size"@.len() == 4);
    assert("status"@.len() == 6);
    assert("created_at"@.len() == 10);
    assert("db_type"@.len() == 7);
    assert("db_version"@.len() == 10);
    assert("db_name"@.len() == 7);
    assert("db_user"@.len() == 7);
    assert("db_password"@.len() == 11);
    assert("db_disk_size"@.len() == 12);
    assert("replicas"@.len() == 8);
    assert("is_primary"@.len() == 10);
    assert("key"@.len() == 3);
    assert("value"@.len() == 5);
    assert("provider"@.len() == 8);
    assert("data"@.len() == 4);
    assert("username"@.len() == 8);
    assert("password"@.len() == 8);
}

/// Under the key of a text that may be absent stands the text where it is given.
pub proof fn opt_lookup(k: Seq<char>, o: Option<String>, key: Seq<char>)
    ensures
        member_of(JsonView::Obj(opt_member(k, o)), key) == if k == key {
            if_given(o)
        } else {
            None
        },
{
    let m = opt_member(k, o);
    if o is Some && k == key {
        first_member_is_found(m, key, 0);
    } else {
        absent_member_is_not_found(m, key);
    }
}

proof fn var_says_key_and_value(k: Seq<char>, v: Seq<char>)
    ensures
        member_of(env_var_json(k, v), "key"@) == said(k),
        member_of(env_var_json(k, v), "value"@) == said(v),
{
    key_shapes();
    let m = seq![("key"@, JsonView::Str(k)), ("value"@, JsonView::Str(v))];
    first_member_is_found(m, "key"@, 0);
    first_member_is_found(m, "value"@, 1);
}

/// What a body says of variables that may be absent.
pub open spec fn vars_under(env: Option<Vec<EnvVar>>) -> Option<JsonView> {
    match env {
        Some(v) => Some(JsonView::Arr(v@.map_values(|e: EnvVar| env_var_json(e.key@, e.value@)))),
        None => None,
    }
}

/// Where a key stands among the members.
pub proof fn service_lookup(s: ServiceConfig, key: Seq<char>)
    ensures
        member_of(JsonView::Obj(service_members(s)), key) == ({
            if key == "name"@ {
                Some(JsonView::Str(s.name@))
            } else if key == "deploy_type"@ {
                Some(JsonView::Str(s.deploy_type@))
            } else if key == "runtime"@ {
                Some(JsonView::Str(s.runtime@))
            } else if key == "root_path"@ {
                Some(JsonView::Str(s.root_path@))
            } else if key == "repository_url"@ {
                if_given(s.repository_url)
            } else if key == "repository_branch"@ {
                if_given(s.repository_branch)
            } else if key == "registry_url"@ {
                if_given(s.registry_url)
            } else if key == "fk_service_secret"@ {
                if_given(s.fk_service_secret)
            } else if key == "build_path"@ {
                if_given(s.build_path)
            } else if key == "build_command"@ {
                if_given(s.build_command)
            } else if key == "pre_deploy_command"@ {
                if_given(s.pre_deploy_command)
            } else if key == "run_command"@ {
                if_given(s.run_command)
            } else if key == "fk_region"@ {
                Some(JsonView::Str(s.fk_region@))
            } else if key == "fk_pod"@ {
                Some(JsonView::Str(s.fk_pod@))
            } else if key == "health_check_path"@ {
                if_given(s.health_check_path)
            } else if key == "maintenance_mode"@ {
                Some(JsonView::Bool(s.maintenance_mode))
            } else if key == "active"@ {
                Some(JsonView::Bool(s.active))
            } else if key == "env"@ {
                vars_under(s.env)
            } else {
                None
            }
        }),
{
    key_shapes();
    let s0 = seq![
        ("name"@, JsonView::Str(s.name@)),
        ("deploy_type"@, JsonView::Str(s.deploy_type@)),
        ("runtime"@, JsonView::Str(s.runtime@)),
        ("root_path"@, JsonView::Str(s.root_path@)),
    ];
    if key == "name"@ {
        first_member_is_found(s0, key, 0);
    }
    if key == "deploy_type"@ {
        first_member_is_found(s0, key, 1);
    }
    if key == "runtime"@ {
        first_member_is_found(s0, key, 2);
    }
    if key == "root_path"@ {
        first_member_is_found(s0, key, 3);
    }
    if key != "name"@ && key != "deploy_type"@ && key != "runtime"@ && key != "root_path"@ {
        absent_member_is_not_found(s0, key);
    }
    let s1 = opt_member("repository_url"@, s.repository_url);
    opt_lookup("repository_url"@, s.repository_url, key);
    let t1 = s0 + s1;
    lookup_concat(s0, s1, key);
    let s2 = opt_member("repository_branch"@, s.repository_branch);
    opt_lookup("repository_branch"@, s.repository_branch, key);
    let t2 = t1 + s2;
    lookup_concat(t1, s2, key);
    let s3 = opt_member("registry_url"@, s.registry_url);
    opt_lookup("registry_url"@, s.registry_url, key);
    let t3 = t2 + s3;
    lookup_concat(t2, s3, key);
    let s4 = opt_member("fk_service_secret"@, s.fk_service_secret);
    opt_lookup("fk_service_secret"@, s.fk_service_secret, key);
    let t4 = t3 + s4;
    lookup_concat(t3, s4, key);
    let s5 = opt_member("build_path"@, s.build_path);
    opt_lookup("build_path"@, s.build_path, key);
    let t5 = t4 + s5;
    lookup_concat(t4, s5, key);
    let s6 = opt_member("build_command"@, s.build_command);
    opt_lookup("build_command"@, s.build_command, key);
    let t6 = t5 + s6;
    lookup_concat(t5, s6, key);
    let s7 = opt_member("pre_deploy_command"@, s.pre_deploy_command);
    opt_lookup("pre_deploy_command"@, s.pre_deploy_command, key);
    let t7 = t6 + s7;
    lookup_concat(t6, s7, key);
    let s8 = opt_member("run_command"@, s.run_command);
    opt_lookup("run_command"@, s.run_command, key);
    let t8 = t7 + s8;
    lookup_concat(t7, s8, key);
    let s9 = seq![
        ("fk_region"@, JsonView::Str(s.fk_region@)),
        ("fk_pod"@, JsonView::Str(s.fk_pod@)),
    ];
    if key == "fk_region"@ {
        first_member_is_found(s9, key, 0);
    }
    if key == "fk_pod"@ {
        first_member_is_found(s9, key, 1);
    }
    if key != "fk_region"@ && key != "fk_pod"@ {
        absent_member_is_not_found(s9, key);
    }
    let t9 = t8 + s9;
    lookup_concat(t8, s9, key);
    let s10 = opt_member("health_check_path"@, s.health_check_path);
    opt_lookup("health_check_path"@, s.health_check_path, key);
    let t10 = t9 + s10;
    lookup_concat(t9, s10, key);
    let s11 = seq![
        ("maintenance_mode"@, JsonView::Bool(s.maintenance_mode)),
        ("active"@, JsonView::Bool(s.active)),
    ];
    if key == "maintenance_mode"@ {
        first_member_is_found(s11, key, 0);
    }
    if key == "active"@ {
        first_member_is_found(s11, key, 1);
    }
    if key != "maintenance_mode"@ && key != "active"@ {
        absent_member_is_not_found(s11, key);
    }
    let t11 = t10 + s11;
    lookup_concat(t10, s11, key);
    let s12 = env_member(s.env);
    if s12.len() > 0 && key == "env"@ {
        first_member_is_found(s12, key, 0);
    } else {
        absent_member_is_not_found(s12, key);
    }
    let t12 = t11 + s12;
    lookup_concat(t11, s12, key);
    assert(service_members(s) =~= t12);
}

/// Under each key of the body of a service stands the field of that name: a
/// text that may be absent exactly where it is given, the variables where there
/// are any, and never the disk.
pub proof fn service_body_says_each_field(s: ServiceConfig)
    ensures
        ({
            let body = JsonView::Obj(service_members(s));
            &&& member_of(body, "name"@) == said(s.name@)
            &&& member_of(body, "deploy_type"@) == said(s.deploy_type@)
            &&& member_of(body, "runtime"@) == said(s.runtime@)
            &&& member_of(body, "root_path"@) == said(s.root_path@)
            &&& member_of(body, "repository_url"@) == if_given(s.repository_url)
            &&& member_of(body, "repository_branch"@) == if_given(s.repository_branch)
            &&& member_of(body, "registry_url"@) == if_given(s.registry_url)
            &&& member_of(body, "fk_service_secret"@) == if_given(s.fk_service_secret)
            &&& member_of(body, "build_path"@) == if_given(s.build_path)
            &&& member_of(body, "build_command"@) == if_given(s.build_command)
            &&& member_of(body, "pre_deploy_command"@) == if_given(s.pre_deploy_command)
            &&& member_of(body, "run_command"@) == if_given(s.run_command)
            &&& member_of(body, "fk_region"@) == said(s.fk_region@)
            &&& member_of(body, "fk_pod"@) == said(s.fk_pod@)
            &&& member_of(body, "health_check_path"@) == if_given(s.health_check_path)
            &&& member_of(body, "maintenance_mode"@) == decided(s.maintenance_mode)
            &&& member_of(body, "active"@) == decided(s.active)
            &&& match s.env {
                Some(v) => member_of(body, "env"@) is Some && lists_vars(
                    member_of(body, "env"@)->0,
                    v@,
                ),
                None => member_of(body, "env"@) is None,
            }
            &&& member_of(body, "disk"@) is None
        }),
{
    key_shapes();
    service_lookup(s, "name"@);
    service_lookup(s, "deploy_type"@);
    service_lookup(s, "runtime"@);
    service_lookup(s, "root_path"@);
    service_lookup(s, "repository_url"@);
    service_lookup(s, "repository_branch"@);
    service_lookup(s, "registry_url"@);
    service_lookup(s, "fk_service_secret"@);
    service_lookup(s, "build_path"@);
    service_lookup(s, "build_command"@);
    service_lookup(s, "pre_deploy_command"@);
    service_lookup(s, "run_command"@);
    service_lookup(s, "fk_region"@);
    service_lookup(s, "fk_pod"@);
    service_lookup(s, "health_check_path"@);
    service_lookup(s, "maintenance_mode"@);
    service_lookup(s, "active"@);
    service_lookup(s, "env"@);
    service_lookup(s, "disk"@);
    if let Some(v) = s.env {
        let items = v@.map_values(|e: EnvVar| env_var_json(e.key@, e.value@));
        assert forall|i: int| 0 <= i < v@.len() implies member_of(#[trigger] items[i], "key"@)
            == said(v@[i].key@) && member_of(items[i], "value"@) == said(v@[i].value@) by {
            var_says_key_and_value(v@[i].key@, v@[i].value@);
        }
    }
}

proof fn volume_lookup(v: Volume, key: Seq<char>)
    ensures
        member_of(JsonView::Obj(volume_members(v)), key) == ({
            if key == "id"@ {
                if_given(v.id)
            } else if key == "name"@ {
                Some(JsonView::Str(v.name@))
            } else if key == "fk_project"@ {
                Some(JsonView::Str(v.fk_project@))
            } else if key == "fk_workspace"@ {
                Some(JsonView::Str(v.fk_workspace@))
            } else if key == "fk_region"@ {
                Some(JsonView::Str(v.fk_region@))
            } else if key == "fk_service"@ {
                if_given(v.fk_service)
            } else if key == "mount_path"@ {
                Some(JsonView::Str(v.mount_path@))
            } else if key == "size"@ {
                Some(JsonView::Num(decimal_of(v.size as nat)))
            } else if key == "status"@ {
                Some(JsonView::Str(v.status@))
            } else if key == "created_at"@ {
                if_given(v.created_at)
            } else {
                None
            }
        }),
{
    key_shapes();
    let s0 = opt_member("id"@, v.id);
    opt_lookup("id"@, v.id, key);
    let s1 = seq![
        ("name"@, JsonView::Str(v.name@)),
        ("fk_project"@, JsonView::Str(v.fk_project@)),
        ("fk_workspace"@, JsonView::Str(v.fk_workspace@)),
        ("fk_region"@, JsonView::Str(v.fk_region@)),
    ];
    if key == "name"@ {
        first_member_is_found(s1, key, 0);
    }
    if key == "fk_project"@ {
        first_member_is_found(s1, key, 1);
    }
    if key == "fk_workspace"@ {
        first_member_is_found(s1, key, 2);
    }
    if key == "fk_region"@ {
        first_member_is_found(s1, key, 3);
    }
    if key != "name"@ && key != "fk_project"@ && key != "fk_workspace"@ && key != "fk_region"@ {
        absent_member_is_not_found(s1, key);
    }
    let t1 = s0 + s1;
    lookup_concat(s0, s1, key);
    let s2 = opt_member("fk_service"@, v.fk_service);
    opt_lookup("fk_service"@, v.fk_service, key);
    let t2 = t1 + s2;
    lookup_concat(t1, s2, key);
    let s3 = seq![
        ("mount_path"@, JsonView::Str(v.mount_path@)),
        ("size"@, JsonView::Num(decimal_of(v.size as nat))),
        ("status"@, JsonView::Str(v.status@)),
    ];
    if key == "mount_path"@ {
        first_member_is_found(s3, key, 0);
    }
    if key == "size"@ {
        first_member_is_found(s3, key, 1);
    }
    if key == "status"@ {
        first_member_is_found(s3, key, 2);
    }
    if key != "mount_path"@ && key != "size"@ && key != "status"@ {
        absent_member_is_not_found(s3, key);
    }
    let t3 = t2 + s3;
    lookup_concat(t2, s3, key);
    let s4 = opt_member("created_at"@, v.created_at);
    opt_lookup("created_at"@, v.created_at, key);
    let t4 = t3 + s4;
    lookup_concat(t3, s4, key);
    assert(volume_members(v) =~= t4);
}

/// Under each key of the body of a volume stands the field of that name.
pub proof fn volume_body_says_each_field(v: Volume)
    ensures
        ({
            let body = JsonView::Obj(volume_members(v));
            &&& member_of(body, "name"@) == said(v.name@)
            &&& member_of(body, "fk_project"@) == said(v.fk_project@)
            &&& member_of(body, "fk_workspace"@) == said(v.fk_workspace@)
            &&& member_of(body, "fk_region"@) == said(v.fk_region@)
            &&& member_of(body, "mount_path"@) == said(v.mount_path@)
            &&& member_of(body, "status"@) == said(v.status@)
            &&& member_of(body, "id"@) == if_given(v.id)
            &&& member_of(body, "fk_service"@) == if_given(v.fk_service)
            &&& member_of(body, "created_at"@) == if_given(v.created_at)
            &&& member_of(body, "size"@) == counted(v.size as nat)
        }),
{
    key_shapes();
    volume_lookup(v, "name"@);
    volume_lookup(v, "fk_project"@);
    volume_lookup(v, "fk_workspace"@);
    volume_lookup(v, "fk_region"@);
    volume_lookup(v, "mount_path"@);
    volume_lookup(v, "status"@);
    volume_lookup(v, "id"@);
    volume_lookup(v, "fk_service"@);
    volume_lookup(v, "created_at"@);
    volume_lookup(v, "size"@);
}

proof fn update_lookup(u: VolumeUpdate, key: Seq<char>)
    ensures
        member_of(JsonView::Obj(update_members(u)), key) == ({
            if key == "size"@ {
                match u.size { Some(n) => counted(n as nat), None => None }
            } else if key == "mount_path"@ {
                if_given(u.mount_path)
            } else {
                None
            }
        }),
{
    key_shapes();
    let s0 = (match u.size {
        Some(n) => seq![("size"@, JsonView::Num(decimal_of(n as nat)))],
        None => seq![],
    });
    if s0.len() > 0 && key == "size"@ {
        first_member_is_found(s0, key, 0);
    } else {
        absent_member_is_not_found(s0, key);
    }
    let s1 = opt_member("mount_path"@, u.mount_path);
    opt_lookup("mount_path"@, u.mount_path, key);
    let t1 = s0 + s1;
    lookup_concat(s0, s1, key);
    assert(update_members(u) =~= t1);
}

/// An update sends each change under its own key, and nothing that does not change.
pub proof fn update_body_says_each_change(u: VolumeUpdate)
    ensures
        ({
            let body = JsonView::Obj(update_members(u));
            &&& member_of(body, "size"@) == match u.size { Some(n) => counted(n as nat), None => None }
            &&& member_of(body, "mount_path"@) == if_given(u.mount_path)
        }),
{
    key_shapes();
    update_lookup(u, "size"@);
    update_lookup(u, "mount_path"@);
}

proof fn database_lookup(b: CreateDatabaseBody, key: Seq<char>)
    ensures
        member_of(JsonView::Obj(database_members(b)), key) == ({
            if key == "name"@ {
                Some(JsonView::Str(b.name@))
            } else if key == "deploy_type"@ {
                Some(JsonView::Str(b.deploy_type@))
            } else if key == "runtime"@ {
                Some(JsonView::Str(b.runtime@))
            } else if key == "db_type"@ {
                Some(JsonView::Str(b.db_type@))
            } else if key == "db_version"@ {
                Some(JsonView::Str(b.db_version@))
            } else if key == "db_name"@ {
                Some(JsonView::Str(b.db_name@))
            } else if key == "db_user"@ {
                Some(JsonView::Str(b.db_user@))
            } else if key == "db_password"@ {
                Some(JsonView::Str(b.db_password@))
            } else if key == "db_disk_size"@ {
                Some(JsonView::Num(decimal_of(b.db_disk_size as nat)))
            } else if key == "fk_project"@ {
                Some(JsonView::Str(b.fk_project@))
            } else if key == "fk_region"@ {
                Some(JsonView::Str(b.fk_region@))
            } else if key == "fk_pod"@ {
                Some(JsonView::Str(b.fk_pod@))
            } else if key == "replicas"@ {
                Some(JsonView::Arr(b.replicas@.map_values(|x: ReplicaBody| replica_json(x))))
            } else if key == "root_path"@ {
                Some(JsonView::Str(b.root_path@))
            } else if key == "env"@ {
                Some(JsonView::Arr(b.env@.map_values(|e: EnvVar| env_var_json(e.key@, e.value@))))
            } else if key == "maintenance_mode"@ {
                Some(JsonView::Bool(b.maintenance_mode))
            } else if key == "active"@ {
                Some(JsonView::Bool(b.active))
            } else {
                None
            }
        }),
{
    key_shapes();
    let s0 = seq![
        ("name"@, JsonView::Str(b.name@)),
        ("deploy_type"@, JsonView::Str(b.deploy_type@)),
        ("runtime"@, JsonView::Str(b.runtime@)),
        ("db_type"@, JsonView::Str(b.db_type@)),
        ("db_version"@, JsonView::Str(b.db_version@)),
        ("db_name"@, JsonView::Str(b.db_name@)),
        ("db_user"@, JsonView::Str(b.db_user@)),
        ("db_password"@, JsonView::Str(b.db_password@)),
        ("db_disk_size"@, JsonView::Num(decimal_of(b.db_disk_size as nat))),
        ("fk_project"@, JsonView::Str(b.fk_project@)),
        ("fk_region"@, JsonView::Str(b.fk_region@)),
        ("fk_pod"@, JsonView::Str(b.fk_pod@)),
        ("replicas"@, JsonView::Arr(b.replicas@.map_values(|x: ReplicaBody| replica_json(x)))),
        ("root_path"@, JsonView::Str(b.root_path@)),
        ("env"@, JsonView::Arr(b.env@.map_values(|e: EnvVar| env_var_json(e.key@, e.value@)))),
        ("maintenance_mode"@, JsonView::Bool(b.maintenance_mode)),
        ("active"@, JsonView::Bool(b.active)),
    ];
    if key == "name"@ {
        first_member_is_found(s0, key, 0);
    }
    if key == "deploy_type"@ {
        first_member_is_found(s0, key, 1);
    }
    if key == "runtime"@ {
        first_member_is_found(s0, key, 2);
    }
    if key == "db_type"@ {
        first_member_is_found(s0, key, 3);
    }
    if key == "db_version"@ {
        first_member_is_found(s0, key, 4);
    }
    if key == "db_name"@ {
        first_member_is_found(s0, key, 5);
    }
    if key == "db_user"@ {
        first_member_is_found(s0, key, 6);
    }
    if key == "db_password"@ {
        first_member_is_found(s0, key, 7);
    }
    if key == "db_disk_size"@ {
        first_member_is_found(s0, key, 8);
    }
    if key == "fk_project"@ {
        first_member_is_found(s0, key, 9);
    }
    if key == "fk_region"@ {
        first_member_is_found(s0, key, 10);
    }
    if key == "fk_pod"@ {
        first_member_is_found(s0, key, 11);
    }
    if key == "replicas"@ {
        first_member_is_found(s0, key, 12);
    }
    if key == "root_path"@ {
        first_member_is_found(s0, key, 13);
    }
    if key == "env"@ {
        first_member_is_found(s0, key, 14);
    }
    if key == "maintenance_mode"@ {
        first_member_is_found(s0, key, 15);
    }
    if key == "active"@ {
        first_member_is_found(s0, key, 16);
    }
    if key != "name"@ && key != "deploy_type"@ && key != "runtime"@ && key != "db_type"@ && key != "db_version"@ && key != "db_name"@ && key != "db_user"@ && key != "db_password"@ && key != "db_disk_size"@ && key != "fk_project"@ && key != "fk_region"@ && key != "fk_pod"@ && key != "replicas"@ && key != "root_path"@ && key != "env"@ && key != "maintenance_mode"@ && key != "active"@ {
        absent_member_is_not_found(s0, key);
    }
    assert(database_members(b) =~= s0);
}

/// Under each key of the body of a database stands the field of that name.
pub proof fn database_body_says_each_field(b: CreateDatabaseBody)
    ensures
        ({
            let body = JsonView::Obj(database_members(b));
            &&& member_of(body, "name"@) == said(b.name@)
            &&& member_of(body, "deploy_type"@) == said(b.deploy_type@)
            &&& member_of(body, "runtime"@) == said(b.runtime@)
            &&& member_of(body, "db_type"@) == said(b.db_type@)
            &&& member_of(body, "db_version"@) == said(b.db_version@)
            &&& member_of(body, "db_name"@) == said(b.db_name@)
            &&& member_of(body, "db_user"@) == said(b.db_user@)
            &&& member_of(body, "db_password"@) == said(b.db_password@)
            &&& member_of(body, "fk_project"@) == said(b.fk_project@)
            &&& member_of(body, "fk_region"@) == said(b.fk_region@)
            &&& member_of(body, "fk_pod"@) == said(b.fk_pod@)
            &&& member_of(body, "root_path"@) == said(b.root_path@)
            &&& member_of(body, "db_disk_size"@) == counted(b.db_disk_size as nat)
            &&& member_of(body, "maintenance_mode"@) == decided(b.maintenance_mode)
            &&& member_of(body, "active"@) == decided(b.active)
            &&& member_of(body, "env"@) is Some && lists_vars(member_of(body, "env"@)->0, b.env@)
            &&& member_of(body, "replicas"@) matches Some(JsonView::Arr(items)) && items.len() == b.replicas@.len() && forall|i: int| 0 <= i < items.len() ==> member_of(#[trigger] items[i], "fk_region"@) == said(b.replicas@[i].fk_region@) && member_of(items[i], "is_primary"@) == decided(b.replicas@[i].is_primary)
        }),
{
    key_shapes();
    database_lookup(b, "name"@);
    database_lookup(b, "deploy_type"@);
    database_lookup(b, "runtime"@);
    database_lookup(b, "db_type"@);
    database_lookup(b, "db_version"@);
    database_lookup(b, "db_name"@);
    database_lookup(b, "db_user"@);
    database_lookup(b, "db_password"@);
    database_lookup(b, "fk_project"@);
    database_lookup(b, "fk_region"@);
    database_lookup(b, "fk_pod"@);
    database_lookup(b, "root_path"@);
    database_lookup(b, "db_disk_size"@);
    database_lookup(b, "maintenance_mode"@);
    database_lookup(b, "active"@);
    database_lookup(b, "env"@);
    database_lookup(b, "replicas"@);
    let items = b.replicas@.map_values(|x: ReplicaBody| replica_json(x));
    assert forall|i: int| 0 <= i < items.len() implies member_of(#[trigger] items[i], "fk_region"@)
        == said(b.replicas@[i].fk_region@) && member_of(items[i], "is_primary"@) == decided(
        b.replicas@[i].is_primary,
    ) by {
        let x = b.replicas@[i];
        let m = seq![
            ("fk_region"@, JsonView::Str(x.fk_region@)),
            ("is_primary"@, JsonView::Bool(x.is_primary)),
        ];
        first_member_is_found(m, "fk_region"@, 0);
        first_member_is_found(m, "is_primary"@, 1);
    }
    let vars = b.env@.map_values(|e: EnvVar| env_var_json(e.key@, e.value@));
    assert forall|i: int| 0 <= i < vars.len() implies member_of(#[trigger] vars[i], "key"@) == said(
        b.env@[i].key@,
    ) && member_of(vars[i], "value"@) == said(b.env@[i].value@) by {
        var_says_key_and_value(b.env@[i].key@, b.env@[i].value@);
    }
}

/// The body of a secret says its name, its workspace and its provider, and holds
/// the data under a key of their own.
pub proof fn secret_body_says_each_part(
    name: Seq<char>,
    workspace: Seq<char>,
    provider: Seq<char>,
    data: Seq<(Seq<char>, JsonView)>,
)
    ensures
        ({
            let body = secret_body(name, workspace, provider, data);
            &&& member_of(body, "name"@) == said(name)
            &&& member_of(body, "fk_workspace"@) == said(workspace)
            &&& member_of(body, "provider"@) == said(provider)
            &&& member_of(body, "data"@) == Some(JsonView::Obj(data))
        }),
{
    key_shapes();
    let m = secret_body(name, workspace, provider, data)->Obj_0;
    first_member_is_found(m, "name"@, 0);
    first_member_is_found(m, "fk_workspace"@, 1);
    first_member_is_found(m, "provider"@, 2);
    first_member_is_found(m, "data"@, 3);
}

} // verus!
