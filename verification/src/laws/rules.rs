//! What the rules come to: which values are accepted, stated of the characters
//! that they are made of.
use vstd::prelude::*;
use vstd::string::*;

use crate::auth::{key_problem, masked};
use crate::client::{Volume, VolumeUpdate};
use crate::config::{
    is_valid, known_deploy_type, known_runtime, valid_config_meaning, DiskConfig, PartiriConfig,
    DEPLOY_TYPES, RUNTIMES,
};
use crate::databases::{
    disk_size_problem, identifier_problem, is_body_of, need_of, password_problem,
    service_name_problem, valid_identifier_meaning, valid_password_meaning, version_problem,
    CreateArgs, Need, RESERVED_DB_NAMES, SUPPORTED_PG_VERSIONS,
};
use crate::laws::validation::has_text;
use crate::projects::environment_of;
use crate::secret::{
    registry_problem, repository_problem, repository_user, secret_value, CreateRegistryArgs,
    CreateRepositoryArgs, StdinLine,
};
use crate::seqs::first_where;
use crate::service::create::strip_end;
use crate::storage::{
    canonical_mount, disk_problem, is_diff, is_volume_for, live_volume_of, same_disk,
    service_volume, valid_disk_meaning, RESERVED_MOUNT_PATHS,
};
use crate::text::{
    ascii_lower, is_ctrl, is_white, opt_view, strs, trim_end_of, trim_start_of, trimmed,
};

verus! {

// ─── Texts ─────────────────────────────────────────────────────────────────

/// A text is blank exactly where it holds nothing but whitespace.
pub proof fn blank_means_white(s: Seq<char>)
    ensures
        trimmed(s).len() == 0 <==> forall|i: int| 0 <= i < s.len() ==> is_white(#[trigger] s[i]),
{
    start_of_white(s);
    end_of_white(trim_start_of(s));
    let t = trim_start_of(s);
    if trimmed(s).len() == 0 {
        assert(forall|i: int| 0 <= i < t.len() ==> is_white(#[trigger] t[i]));
        if t.len() > 0 {
            assert(is_white(t[0]));
        }
    }
}

proof fn start_of_white(s: Seq<char>)
    ensures
        trim_start_of(s).len() == 0 <==> forall|i: int|
            0 <= i < s.len() ==> is_white(#[trigger] s[i]),
        trim_start_of(s).len() > 0 ==> !is_white(trim_start_of(s)[0]),
        trim_start_of(s).is_suffix_of(s),
    decreases s.len(),
{
    if s.len() > 0 && is_white(s[0]) {
        let t = s.drop_first();
        start_of_white(t);
        assert forall|i: int| 0 <= i < t.len() implies t[i] == s[i + 1] by {}
        if forall|i: int| 0 <= i < t.len() ==> is_white(#[trigger] t[i]) {
            assert forall|i: int| 0 <= i < s.len() implies is_white(#[trigger] s[i]) by {
                if i > 0 {
                    assert(is_white(t[i - 1]));
                }
            }
        }
        if forall|i: int| 0 <= i < s.len() ==> is_white(#[trigger] s[i]) {
            assert forall|i: int| 0 <= i < t.len() implies is_white(#[trigger] t[i]) by {
                assert(is_white(s[i + 1]));
            }
        }
        assert(trim_start_of(s).is_suffix_of(s));
    } else if s.len() > 0 {
        assert(!is_white(s[0]));
    }
}

proof fn end_of_white(s: Seq<char>)
    ensures
        trim_end_of(s).len() == 0 <==> forall|i: int|
            0 <= i < s.len() ==> is_white(#[trigger] s[i]),
    decreases s.len(),
{
    if s.len() > 0 && is_white(s.last()) {
        let t = s.drop_last();
        end_of_white(t);
        if forall|i: int| 0 <= i < t.len() ==> is_white(#[trigger] t[i]) {
            assert forall|i: int| 0 <= i < s.len() implies is_white(#[trigger] s[i]) by {
                if i < t.len() {
                    assert(is_white(t[i]));
                }
            }
        }
        if forall|i: int| 0 <= i < s.len() ==> is_white(#[trigger] s[i]) {
            assert forall|i: int| 0 <= i < t.len() implies is_white(#[trigger] t[i]) by {
                assert(is_white(s[i]));
            }
        }
    } else if s.len() > 0 {
        assert(!is_white(s[s.len() - 1]));
    }
}

/// Whether a text that may be absent has something in it but whitespace.
pub open spec fn has_words(o: Option<String>) -> bool {
    o matches Some(s) && exists|i: int| 0 <= i < s@.len() && !is_white(#[trigger] s@[i])
}

/// What is left without the last occurrences of a character is the longest start
/// that does not end in it.
pub proof fn stripped_end(s: Seq<char>, c: char)
    ensures
        strip_end(s, c).is_prefix_of(s),
        strip_end(s, c).len() > 0 ==> strip_end(s, c).last() != c,
        forall|i: int| strip_end(s, c).len() <= i < s.len() ==> #[trigger] s[i] == c,
    decreases s.len(),
{
    if s.len() > 0 && s.last() == c {
        let t = s.drop_last();
        stripped_end(t, c);
        assert forall|i: int| strip_end(s, c).len() <= i < s.len() implies #[trigger] s[i] == c by {
            if i < t.len() {
                assert(t[i] == c);
            }
        }
    }
}

// ─── Configuration ─────────────────────────────────────────────────────────

/// The deploy types that are known, and the runtimes.
pub proof fn known_kinds(s: Seq<char>)
    ensures
        known_deploy_type(s) <==> s == "webservice"@ || s == "static"@ || s == "private-service"@
            || s == "worker"@,
        known_runtime(s) <==> s == "node"@ || s == "deno"@ || s == "rust"@ || s == "python"@ || s
            == "go"@ || s == "ruby"@ || s == "elixir"@ || s == "php"@ || s == "jvm"@ || s
            == "dotnet"@ || s == "cpp"@ || s == "static"@ || s == "registry"@,
{
    let d = strs(DEPLOY_TYPES@);
    assert(d[0] == "webservice"@);
    assert(d[1] == "static"@);
    assert(d[2] == "private-service"@);
    assert(d[3] == "worker"@);
    let r = strs(RUNTIMES@);
    assert(r[0] == "node"@);
    assert(r[1] == "deno"@);
    assert(r[2] == "rust"@);
    assert(r[3] == "python"@);
    assert(r[4] == "go"@);
    assert(r[5] == "ruby"@);
    assert(r[6] == "elixir"@);
    assert(r[7] == "php"@);
    assert(r[8] == "jvm"@);
    assert(r[9] == "dotnet"@);
    assert(r[10] == "cpp"@);
    assert(r[11] == "static"@);
    assert(r[12] == "registry"@);
    if known_deploy_type(s) {
        assert(d[d.index_of(s)] == s);
    }
    if known_runtime(s) {
        assert(r[r.index_of(s)] == s);
    }
}

/// Which configurations are valid, field by field: a name of at most sixteen
/// characters, a known type and runtime, a root, a region and a pod; one source
/// and not both, a static type from a repository only; and with a repository a
/// branch, a command that builds it unless it is a static site, and one that
/// starts it where the type runs a process.
pub proof fn valid_configurations(c: PartiriConfig)
    ensures
        is_valid(c) <==> {
            let s = c.service;
            let kind = s.deploy_type@;
            &&& 1 <= s.name@.len() <= 16
            &&& kind == "webservice"@ || kind == "static"@ || kind == "private-service"@ || kind == "worker"@
            &&& s.runtime@ == "node"@ || s.runtime@ == "deno"@ || s.runtime@ == "rust"@ || s.runtime@ == "python"@ || s.runtime@ == "go"@ || s.runtime@ == "ruby"@ || s.runtime@ == "elixir"@ || s.runtime@ == "php"@ || s.runtime@ == "jvm"@ || s.runtime@ == "dotnet"@ || s.runtime@ == "cpp"@ || s.runtime@ == "static"@ || s.runtime@ == "registry"@
            &&& s.root_path@.len() > 0 && s.fk_region@.len() > 0 && s.fk_pod@.len() > 0
            &&& has_text(s.repository_url) <==> !has_text(s.registry_url)
            &&& kind == "static"@ ==> !has_text(s.registry_url)
            &&& has_text(s.repository_url) ==> has_text(s.repository_branch)
            &&& has_text(s.repository_url) && !(kind == "static"@ && s.runtime@ == "static"@)
                ==> has_words(s.build_command)
            &&& has_text(s.repository_url) && (kind == "webservice"@ || kind == "private-service"@
                || kind == "worker"@) ==> has_words(s.run_command)
        },
{
    valid_config_meaning(c);
    known_kinds(c.service.deploy_type@);
    known_kinds(c.service.runtime@);
    if let Some(x) = c.service.build_command {
        blank_means_white(x@);
    }
    if let Some(x) = c.service.run_command {
        blank_means_white(x@);
    }
}

// ─── Disks and volumes ─────────────────────────────────────────────────────

/// A mount path without the slashes at its end.
pub open spec fn is_core(core: Seq<char>, path: Seq<char>) -> bool {
    &&& core.is_prefix_of(path)
    &&& core.len() > 0 ==> core.last() != '/'
    &&& forall|i: int| core.len() <= i < path.len() ==> #[trigger] path[i] == '/'
}

pub proof fn core_is_unique(core: Seq<char>, path: Seq<char>)
    requires
        is_core(core, path),
    ensures
        strip_end(path, '/') == core,
{
    stripped_end(path, '/');
    let t = strip_end(path, '/');
    if t.len() < core.len() {
        assert(path[core.len() - 1] == '/');
        assert(core.last() == path[core.len() - 1]);
    } else if core.len() < t.len() {
        assert(path[t.len() - 1] == '/');
        assert(t.last() == path[t.len() - 1]);
    }
    assert(t =~= path.take(t.len() as int));
    assert(core =~= path.take(core.len() as int));
}

/// Which disks are accepted: from one to ten gigabytes, at an absolute path
/// without whitespace around it that is neither the root nor a directory of the
/// system, whatever slashes it ends in.
pub proof fn accepted_disks(d: DiskConfig, core: Seq<char>)
    requires
        is_core(core, d.mount_path@),
    ensures
        disk_problem(d) is None <==> {
            let path = d.mount_path@;
            &&& 1 <= d.size <= 10
            &&& path.len() > 0 && path[0] == '/' && !is_white(path.last())
            &&& core.len() > 0
            &&& core != "/bin"@
            &&& core != "/boot"@
            &&& core != "/dev"@
            &&& core != "/etc"@
            &&& core != "/home"@
            &&& core != "/lib"@
            &&& core != "/lib64"@
            &&& core != "/proc"@
            &&& core != "/root"@
            &&& core != "/run"@
            &&& core != "/sbin"@
            &&& core != "/sys"@
            &&& core != "/tmp"@
            &&& core != "/usr"@
            &&& core != "/var"@
        },
        core.len() > 0 ==> canonical_mount(d.mount_path@) == core,
        core.len() == 0 ==> canonical_mount(d.mount_path@) == "/"@,
{
    valid_disk_meaning(d);
    core_is_unique(core, d.mount_path@);
    let path = d.mount_path@;
    let list = strs(RESERVED_MOUNT_PATHS@);
    assert(list[0] == "/"@);
    assert(list[1] == "/bin"@);
    assert(list[2] == "/boot"@);
    assert(list[3] == "/dev"@);
    assert(list[4] == "/etc"@);
    assert(list[5] == "/home"@);
    assert(list[6] == "/lib"@);
    assert(list[7] == "/lib64"@);
    assert(list[8] == "/proc"@);
    assert(list[9] == "/root"@);
    assert(list[10] == "/run"@);
    assert(list[11] == "/sbin"@);
    assert(list[12] == "/sys"@);
    assert(list[13] == "/tmp"@);
    assert(list[14] == "/usr"@);
    assert(list[15] == "/var"@);
    if list.contains(core) {
        let i = list.index_of(core);
        assert(list[i] == core);
    }
    reveal_strlit("/");
    assert("/"@.len() == 1 && "/"@[0] == '/');
    if core == "/"@ {
        assert(core.last() == '/');
    }
    if path.len() > 0 && path[0] == '/' {
        if !is_white(path.last()) {
            crate::text::trimmed_keeps(path);
        }
        crate::text::trimmed_ends(path);
    }
}

/// A path and the same path with slashes behind it are one mount; two that
/// differ otherwise are not.
pub proof fn mounts_are_told_apart(a: Seq<char>, b: Seq<char>, x: Seq<char>, y: Seq<char>)
    requires
        is_core(x, a),
        is_core(y, b),
        x.len() > 0,
        y.len() > 0,
    ensures
        canonical_mount(a) == canonical_mount(b) <==> x == y,
{
    core_is_unique(x, a);
    core_is_unique(y, b);
}

/// The volume of a service is the first that is attached to it and is neither
/// being deleted nor failed.
pub proof fn volume_of_a_service(volumes: Seq<Volume>, id: Seq<char>)
    ensures
        forall|i: int|
            0 <= i < volumes.len() && serves(#[trigger] volumes[i], id) && (forall|k: int|
                0 <= k < i ==> !serves(#[trigger] volumes[k], id)) ==> service_volume(volumes, id)
                == Some(volumes[i]),
        (forall|k: int| 0 <= k < volumes.len() ==> !serves(#[trigger] volumes[k], id))
            ==> service_volume(volumes, id) is None,
{
    let p = live_volume_of(id);
    crate::seqs::first_where_range(volumes, p, 0);
    let at = first_where(volumes, p, 0);
    assert forall|k: int| 0 <= k < volumes.len() implies serves(#[trigger] volumes[k], id) == p(
        volumes[k],
    ) by {}
    assert forall|i: int|
        0 <= i < volumes.len() && serves(#[trigger] volumes[i], id) && (forall|k: int|
            0 <= k < i ==> !serves(#[trigger] volumes[k], id)) implies service_volume(volumes, id)
        == Some(volumes[i]) by {
        if at < i {
            assert(p(volumes[at]));
            assert(!serves(volumes[at], id));
        } else if at > i {
            assert(!p(volumes[i]));
        }
    }
    if forall|k: int| 0 <= k < volumes.len() ==> !serves(#[trigger] volumes[k], id) {
        if at < volumes.len() {
            assert(p(volumes[at]));
            assert(!serves(volumes[at], id));
        }
    }
}

/// Whether a volume is attached to a service and there to stay.
pub open spec fn serves(v: Volume, id: Seq<char>) -> bool {
    (v.fk_service matches Some(s) && s@ == id) && v.status@ != "deleting"@ && v.status@ != "failed"@
}

/// The volume that is created stands in the place of the service, has the size of
/// the disk block, and is attached to the service.
pub proof fn created_volume_is_the_disks(
    v: Volume,
    c: PartiriConfig,
    id: Seq<char>,
    d: DiskConfig,
)
    requires
        is_volume_for(v, c, id, d),
    ensures
        v.id is None && v.created_at is None,
        v.fk_project@ == c.fk_project@,
        v.fk_workspace@ == c.fk_workspace@,
        v.fk_region@ == c.service.fk_region@,
        serves(v, id),
        v.size == d.size,
        v.status@ == "pending"@,
        forall|core: Seq<char>| #[trigger] is_core(core, d.mount_path@) && core.len() > 0 ==> v.mount_path@
            == core,
{
    reveal_strlit("pending");
    reveal_strlit("deleting");
    reveal_strlit("failed");
    assert("pending"@.len() == 7);
    assert("deleting"@.len() == 8);
    assert("failed"@.len() == 6);
    assert forall|core: Seq<char>| #[trigger] is_core(core, d.mount_path@) && core.len() > 0 implies v.mount_path@
        == core by {
        core_is_unique(core, d.mount_path@);
    }
}

/// An update sends the size of the disk block where it differs from the volume's,
/// and its mount where that differs, and nothing else.
pub proof fn update_sends_what_differs(
    u: VolumeUpdate,
    vol: Volume,
    d: DiskConfig,
    x: Seq<char>,
    y: Seq<char>,
)
    requires
        is_diff(u, vol, d),
        is_core(x, vol.mount_path@),
        is_core(y, d.mount_path@),
        x.len() > 0,
        y.len() > 0,
    ensures
        u.size == if vol.size != d.size {
            Some(d.size)
        } else {
            None
        },
        opt_view(u.mount_path) == if x != y {
            Some(y)
        } else {
            None
        },
        same_disk(vol, d) <==> vol.size == d.size && x == y,
{
    core_is_unique(x, vol.mount_path@);
    core_is_unique(y, d.mount_path@);
}

// ─── Databases ─────────────────────────────────────────────────────────────

/// Which names PostgreSQL takes: up to sixty-three lowercase letters, digits and
/// underscores, no digit first, and none that it keeps for itself.
pub proof fn accepted_identifiers(field: Seq<char>, v: Seq<char>)
    ensures
        identifier_problem(field, v) is None <==> {
            &&& 1 <= v.len() <= 63
            &&& forall|i: int|
                0 <= i < v.len() ==> ('a' <= #[trigger] v[i] && v[i] <= 'z') || ('0' <= v[i] && v[i]
                    <= '9') || v[i] == '_'
            &&& !('0' <= v[0] && v[0] <= '9')
            &&& v != "template0"@ && v != "template1"@ && v != "postgres"@
        },
{
    valid_identifier_meaning(field, v);
    let list = strs(RESERVED_DB_NAMES@);
    assert(list[0] == "template0"@);
    assert(list[1] == "template1"@);
    assert(list[2] == "postgres"@);
    if list.contains(v) {
        assert(list[list.index_of(v)] == v);
    }
    if v.len() > 0 {
        assert(v[0] == v[0]);
    }
}

/// Which passwords are taken: twelve to a hundred and twenty-eight printable
/// characters.
pub proof fn accepted_passwords(p: Seq<char>)
    ensures
        password_problem(p) is None <==> 12 <= p.len() <= 128 && forall|i: int|
            0 <= i < p.len() ==> '!' <= #[trigger] p[i] && p[i] <= '~',
{
    valid_password_meaning(p);
}

/// Which versions, disk sizes and service names a database can have.
pub proof fn accepted_database_settings(v: Seq<char>, size: u32, name: Seq<char>)
    ensures
        version_problem(v) is None <==> v == "16"@ || v == "17"@,
        disk_size_problem(size) is None <==> 1 <= size <= 10,
        service_name_problem(name) is None <==> {
            &&& 1 <= name.len() <= 16
            &&& forall|i: int|
                0 <= i < name.len() ==> is_letter_or_digit(#[trigger] name[i]) || name[i] == ' '
                    || name[i] == '-'
            &&& is_letter_or_digit(name[0])
            &&& is_letter_or_digit(name.last())
        },
{
    let list = strs(SUPPORTED_PG_VERSIONS@);
    assert(list[0] == "16"@);
    assert(list[1] == "17"@);
    if list.contains(v) {
        assert(list[list.index_of(v)] == v);
    }
}

pub open spec fn is_letter_or_digit(c: char) -> bool {
    ('a' <= c && c <= 'z') || ('A' <= c && c <= 'Z') || ('0' <= c && c <= '9')
}

/// A database is created with what was given for it, in its one region, as a
/// PostgreSQL service.
pub proof fn database_body_holds_what_was_given(
    b: crate::client::CreateDatabaseBody,
    name: Seq<char>,
    db_name: Seq<char>,
    db_user: Seq<char>,
    version: Seq<char>,
    password: Seq<char>,
    disk: u32,
    project: Seq<char>,
    region: Seq<char>,
    pod: Seq<char>,
)
    requires
        is_body_of(b, name, db_name, db_user, version, password, disk, project, region, pod),
    ensures
        b.name@ == name,
        b.db_name@ == db_name,
        b.db_user@ == db_user,
        b.db_version@ == version,
        b.db_password@ == password,
        b.db_disk_size == disk,
        b.fk_project@ == project,
        b.fk_region@ == region,
        b.fk_pod@ == pod,
        b.deploy_type@ == "database"@,
        b.db_type@ == "postgresql"@,
        b.runtime@ == "psql"@,
        b.replicas@.len() == 1 && b.replicas@[0].is_primary && b.replicas@[0].fk_region@ == region,
        b.env@.len() == 0 && b.active && !b.maintenance_mode,
{
}

/// The password is asked for only once everything else is given and accepted,
/// and what is asked for is not there yet.
pub proof fn database_needs(a: CreateArgs, no_input: bool)
    ensures
        need_of(a, no_input) matches Ok(n) ==> match n {
            Need::Project => a.project is None,
            Need::Region => a.region is None && !no_input,
            Need::Pod => a.pod is None && !no_input,
            Need::Name => a.name is None && !no_input,
            Need::DbName => a.db_name is None && !no_input,
            Need::DbUser => a.db_user is None && !no_input,
            Need::Version => a.version is None && !no_input,
            Need::Password => {
                &&& a.project is Some && a.region is Some && a.pod is Some
                &&& a.name is Some && service_name_problem(a.name->0@) is None
                &&& a.db_name is Some && identifier_problem("db-name"@, a.db_name->0@) is None
                &&& a.db_user is Some && identifier_problem("db-user"@, a.db_user->0@) is None
                &&& a.version is Some && version_problem(a.version->0@) is None
                &&& a.disk matches Some(n) ==> 1 <= n <= 10
            },
        },
        a.project is Some && a.region is Some && a.pod is Some && (a.name matches Some(x)
            && service_name_problem(x@) is None) && (a.db_name matches Some(x)
            && identifier_problem("db-name"@, x@) is None) && (a.db_user matches Some(x)
            && identifier_problem("db-user"@, x@) is None) && (a.version matches Some(x)
            && version_problem(x@) is None) && (a.disk matches Some(n) ==> 1 <= n <= 10)
            ==> need_of(a, no_input) == Ok::<Need, crate::error::CliErrorView>(Need::Password),
        crate::databases::disk_size_of(a) == match a.disk {
            Some(n) => n,
            None => 1,
        },
{
}

// ─── Secrets ───────────────────────────────────────────────────────────────

/// A secret is the value of its flag, or else the line of standard input without
/// the whitespace around it; without either it is missing.
pub proof fn secret_comes_from_its_flag_or_the_line(
    flag: Option<String>,
    from_stdin: bool,
    kind: Seq<char>,
    line: StdinLine,
)
    ensures
        flag matches Some(v) ==> secret_value(flag, from_stdin, kind, line) == Ok::<
            Seq<char>,
            Seq<char>,
        >(v@),
        flag is None && from_stdin ==> (secret_value(flag, from_stdin, kind, line) is Ok
            <==> line is Line),
        flag is None && from_stdin && line is Line ==> secret_value(flag, from_stdin, kind, line)
            == Ok::<Seq<char>, Seq<char>>(trimmed(line->Line_0@)),
        flag is None && !from_stdin ==> secret_value(flag, from_stdin, kind, line) is Err,
{
}

/// A registry secret needs a name, a provider, a user and a password, a
/// repository secret a name, a provider and a token; the user of a repository
/// secret counts for Bitbucket alone.
pub proof fn secrets_need_their_parts(
    a: CreateRegistryArgs,
    b: CreateRepositoryArgs,
    line: StdinLine,
)
    ensures
        registry_problem(a, line) is None <==> a.name is Some && a.provider is Some && a.username
            is Some && (a.password is Some || (a.password_stdin && line is Line)),
        repository_problem(b, line) is None <==> b.name is Some && b.provider is Some && (b.token
            is Some || (b.token_stdin && line is Line)),
        (b.provider matches Some(p) && p@ == "bitbucket"@) && b.username is Some
            ==> repository_user(b) == b.username->0@,
        (b.provider matches Some(p) && p@ != "bitbucket"@) ==> repository_user(b).len() == 0,
        b.username is None ==> repository_user(b).len() == 0,
{
    reveal_strlit("");
    assert(""@.len() == 0);
}

// ─── Environments ──────────────────────────────────────────────────────────

/// The environments that a project can be in, by their short and their long
/// names, whatever their case.
pub proof fn environments(input: Seq<char>)
    ensures
        environment_of(input) == Some("dev"@) <==> ascii_lower(input) == "dev"@ || ascii_lower(input)
            == "development"@,
        environment_of(input) == Some("staging"@) <==> ascii_lower(input) == "staging"@
            || ascii_lower(input) == "stage"@,
        environment_of(input) == Some("prod"@) <==> ascii_lower(input) == "prod"@ || ascii_lower(
            input,
        ) == "production"@,
        environment_of(input) matches Some(e) ==> e == "dev"@ || e == "staging"@ || e == "prod"@,
{
    reveal_strlit("dev");
    reveal_strlit("staging");
    reveal_strlit("prod");
    assert("dev"@.len() == 3);
    assert("staging"@.len() == 7);
    assert("prod"@.len() == 4);
    reveal_strlit("development");
    reveal_strlit("stage");
    reveal_strlit("production");
    assert("development"@.len() == 11);
    assert("stage"@.len() == 5);
    assert("production"@.len() == 10);
}

// ─── Keys ──────────────────────────────────────────────────────────────────

/// Which keys are stored: at least sixty-four characters without the whitespace
/// around them, none of them a control character, and by force alone where there
/// is a key already.
pub proof fn accepted_keys(raw: Seq<char>, force: bool, has_key: bool)
    ensures
        key_problem(raw, force, has_key) is None <==> {
            let key = trimmed(raw);
            &&& key.len() >= 64
            &&& forall|i: int| 0 <= i < key.len() ==> !is_ctrl(#[trigger] key[i])
            &&& force || !has_key
        },
{
}

/// A masked key shows four characters at each end of a longer key, and nothing of
/// one of four or fewer.
pub proof fn masked_keys(key: Seq<char>)
    ensures
        key.len() <= 4 ==> masked(key) == "****"@,
        key.len() > 4 ==> key.take(4).is_prefix_of(masked(key)) && key.skip(
            key.len() - 4,
        ).is_suffix_of(masked(key)) && masked(key).len() == 9,
{
    reveal_strlit("…");
    assert("…"@.len() == 1);
    if key.len() > 4 {
        let m = masked(key);
        assert(m.take(4) =~= key.take(4));
        assert(m.skip(5) =~= key.skip(key.len() - 4));
    }
}

} // verus!
