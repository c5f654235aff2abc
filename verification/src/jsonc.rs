//! The annotated JSONC text of a configuration.
use vstd::prelude::*;
use vstd::string::*;

use crate::config::{DiskConfig, PartiriConfig, ServiceConfig};
use crate::text::{
    cat3, cat5, decimal, decimal_of, decimal_spells, hex_digit, is_digit_char, opt_view,
};

verus! {

#[verifier::external_type_specification]
#[verifier::external_body]
pub struct ExJsonError(serde_json::Error);

/// A character inside a JSON string literal. Quotes, backslashes and control
/// characters are escaped, all others stand for themselves.
pub open spec fn json_char(c: char) -> Seq<char> {
    if c == '"' || c == '\\' {
        seq!['\\', c]
    } else if c == '\u{8}' {
        seq!['\\', 'b']
    } else if c == '\t' {
        seq!['\\', 't']
    } else if c == '\n' {
        seq!['\\', 'n']
    } else if c == '\u{c}' {
        seq!['\\', 'f']
    } else if c == '\r' {
        seq!['\\', 'r']
    } else if (c as int) < 32 {
        seq!['\\', 'u', '0', '0', hex_digit(c as nat / 16), hex_digit(c as nat % 16)]
    } else {
        seq![c]
    }
}

pub open spec fn json_chars(s: Seq<char>) -> Seq<char>
    decreases s.len(),
{
    if s.len() == 0 {
        seq![]
    } else {
        json_char(s[0]) + json_chars(s.drop_first())
    }
}

/// The JSON string literal for a text: in double quotes, with the characters
/// that JSON does not admit escaped.
pub open spec fn json_text(s: Seq<char>) -> Seq<char> {
    seq!['"'] + json_chars(s) + seq!['"']
}

/// `serde_json::to_string` on a string slice: it writes the JSON string
/// literal of the text into memory, which cannot fail.
#[verifier::external_body]
fn json_quote(s: &str) -> (r: Result<String, serde_json::Error>)
    ensures
        r is Ok,
        r->Ok_0@ == json_text(s@),
{
    serde_json::to_string(s)
}

/// `s` as a JSON string, quotes included.
pub fn json_str(s: &str) -> (r: String)
    ensures
        r@ == json_text(s@),
{
    match json_quote(s) {
        Ok(text) => text,
        Err(_) => cat3("\"", s, "\""),
    }
}

/// An optional string as a JSON value: the quoted string, or `null`.
pub open spec fn json_opt_text(o: Option<Seq<char>>) -> Seq<char> {
    match o {
        Some(s) => json_text(s),
        None => "null"@,
    }
}

pub fn json_opt_str(o: &Option<String>) -> (r: String)
    ensures
        r@ == json_opt_text(opt_view(*o)),
{
    match o {
        Some(s) => json_str(s.as_str()),
        None => "null".to_owned(),
    }
}

// The fixed text before each value of the file, in the order of the values.

pub const AT_ID: &'static str = r#"{
  // The service ID assigned by Partiri after running 'partiri service create'.
  // Leave as null until you have created the service.
  "id": "#;

pub const AT_DEPLOY_TAG: &'static str = r#",

  // Set by Partiri after each deployment. Required for 'partiri service logs' and metrics.
  // Run 'partiri service pull' to refresh this value after a new deployment.
  "deploy_tag": "#;

pub const AT_FK_WORKSPACE: &'static str = r#",

  // The workspace this service belongs to (selected during init).
  "fk_workspace": "#;

pub const AT_FK_PROJECT: &'static str = r#",

  // The project this service belongs to (selected during init).
  "fk_project": "#;

pub const AT_NAME: &'static str = r#",

  "service": {
    // Display name for your service on Partiri Cloud.
    "name": "#;

pub const AT_DEPLOY_TYPE: &'static str = r#",

    // Service type. Supported values: "webservice" | "static" | "private-service" | "worker"
    // - webservice:      public HTTP service with an external URL
    // - static:          static file hosting (repository only — registry not supported)
    // - private-service: internal HTTP service, not publicly accessible
    // - worker:          long-running background process with no inbound network
    "deploy_type": "#;

pub const AT_RUNTIME: &'static str = r#",

    // Runtime environment. Supported: "node" | "deno" | "rust" | "python" | "go" | "ruby" | "elixir" | "php" | "jvm" | "dotnet" | "cpp" | "static" | "registry"
    "runtime": "#;

pub const AT_ROOT_PATH: &'static str = r#",

    // Path to the root of your application within the repository.
    "root_path": "#;

pub const AT_SOURCE: &'static str = r#",
"#;

pub const AT_SECRET: &'static str = r#"

"#;

pub const AT_BUILD_COMMAND: &'static str = r#"

    // Command to build the project (leave empty if not needed).
    "build_command": "#;

pub const AT_BUILD_PATH: &'static str = r#",
"#;

pub const AT_PRE_DEPLOY: &'static str = r#"
"#;

pub const AT_RUN_COMMAND: &'static str = r#"

    // Command to start the service at runtime.
    "run_command": "#;

pub const AT_FK_REGION: &'static str = r#",

    // Region where the service will be deployed.
    "fk_region": "#;

pub const AT_FK_POD: &'static str = r#",

    // Compute pod — determines CPU and RAM allocated to the service.
    "fk_pod": "#;

pub const AT_HEALTH: &'static str = r#",

"#;

pub const AT_DISK: &'static str = r#"
"#;

pub const AT_MAINTENANCE: &'static str = r#"

    // Enable maintenance mode (serves a maintenance page instead of the app).
    "maintenance_mode": "#;

pub const AT_ACTIVE: &'static str = r#",

    // Whether the service is active.
    "active": "#;

pub const AT_END: &'static str = r#"

    // Environment variables are managed via 'partiri service env --path <.env>'.
    // They are never stored in this file.
  }
}
"#;

pub const REPOSITORY_URL: &'static str = r#"
    // ─── Repository source ─────────────────────────────────────────────────────
    // Required for deploy_type "static" (registry not supported for static).
    "repository_url": "#;

pub const REPOSITORY_BRANCH: &'static str = r#",
    "repository_branch": "#;

pub const REPOSITORY_END: &'static str = r#",
    // "registry_url": null,           // not used when deploying from a repository"#;

pub const REGISTRY_URL: &'static str = r#"
    // ─── Registry source (not available for deploy_type "static") ──────────────
    // Full image reference (e.g. "ghcr.io/owner/image:tag"). The API splits
    // this into registry host + repository + tag server-side.
    "registry_url": "#;

pub const REGISTRY_END: &'static str = r#",
    // "repository_url": null,          // not used when deploying from a registry
    // "repository_branch": null,"#;

pub const SECRET: &'static str = r#"    // Authentication token for private repository / registry access.
    "fk_service_secret": "#;

pub const SECRET_NONE: &'static str = r#"    // Authentication token for private repository / registry access.
    // "fk_service_secret": "uuid", // run 'partiri service token' to configure"#;

pub const HEALTH: &'static str = r#"
    // Health check path (GET). Set to null to disable.
    "health_check_path": "#;

pub const PRE_DEPLOY: &'static str = r#"    "pre_deploy_command": "#;

pub const PRE_DEPLOY_NONE: &'static str = r#"    // "pre_deploy_command": "",   // optional: runs before each deploy (e.g. migrations)"#;

pub const BUILD_PATH: &'static str = r#"    "build_path": "#;

pub const BUILD_PATH_NONE: &'static str = r#"    // "build_path": "dist",       // output directory of the build step"#;

pub const DISK_MOUNT: &'static str = r#"
    // Persistent disk attached to this service. Remove or set to null to detach on next push.
    "disk": {
      "mount_path": "#;

pub const DISK_SIZE: &'static str = r#",
      "size": "#;

pub const DISK_END: &'static str = r#"
    },"#;

pub const DISK_NONE: &'static str = r#"
    // Persistent disk (optional). Example: { "mount_path": "/app/data", "size": 1 }
    // "disk": null,"#;

/// Where the code or the image comes from. A configuration without a
/// repository shows the registry.
pub open spec fn source_section(svc: ServiceConfig) -> Seq<char> {
    if svc.repository_url is Some {
        REPOSITORY_URL@ + json_opt_text(opt_view(svc.repository_url)) + REPOSITORY_BRANCH@
            + json_opt_text(opt_view(svc.repository_branch)) + REPOSITORY_END@
    } else {
        REGISTRY_URL@ + json_opt_text(opt_view(svc.registry_url)) + REGISTRY_END@
    }
}

/// A line `"key": value,`, or the comment that stands in its place.
pub open spec fn optional_line(o: Option<String>, key: Seq<char>, absent: Seq<char>) -> Seq<char> {
    match o {
        Some(s) => key + json_text(s@) + ","@,
        None => absent,
    }
}

pub open spec fn disk_section(disk: Option<DiskConfig>) -> Seq<char> {
    match disk {
        Some(d) => DISK_MOUNT@ + json_text(d.mount_path@) + DISK_SIZE@ + decimal_of(d.size as nat)
            + DISK_END@,
        None => DISK_NONE@,
    }
}

pub open spec fn bool_text(b: bool) -> Seq<char> {
    if b {
        "true"@
    } else {
        "false"@
    }
}

/// The text of the configuration file that holds `c`.
pub open spec fn jsonc_of(c: PartiriConfig) -> Seq<char> {
    let svc = c.service;
    AT_ID@ + json_opt_text(opt_view(c.id))
        + AT_DEPLOY_TAG@ + json_opt_text(opt_view(c.deploy_tag))
        + AT_FK_WORKSPACE@ + json_text(c.fk_workspace@)
        + AT_FK_PROJECT@ + json_text(c.fk_project@)
        + AT_NAME@ + json_text(svc.name@)
        + AT_DEPLOY_TYPE@ + json_text(svc.deploy_type@)
        + AT_RUNTIME@ + json_text(svc.runtime@)
        + AT_ROOT_PATH@ + json_text(svc.root_path@)
        + AT_SOURCE@ + source_section(svc)
        + AT_SECRET@ + optional_line(svc.fk_service_secret, SECRET@, SECRET_NONE@)
        + AT_BUILD_COMMAND@ + json_opt_text(opt_view(svc.build_command))
        + AT_BUILD_PATH@ + optional_line(svc.build_path, BUILD_PATH@, BUILD_PATH_NONE@)
        + AT_PRE_DEPLOY@ + optional_line(svc.pre_deploy_command, PRE_DEPLOY@, PRE_DEPLOY_NONE@)
        + AT_RUN_COMMAND@ + json_opt_text(opt_view(svc.run_command))
        + AT_FK_REGION@ + json_text(svc.fk_region@)
        + AT_FK_POD@ + json_text(svc.fk_pod@)
        + AT_HEALTH@ + (HEALTH@ + json_opt_text(opt_view(svc.health_check_path)) + ","@)
        + AT_DISK@ + disk_section(svc.disk)
        + AT_MAINTENANCE@ + bool_text(svc.maintenance_mode)
        + AT_ACTIVE@ + bool_text(svc.active)
        + AT_END@
}

fn bool_str(b: bool) -> (r: &'static str)
    ensures
        r@ == bool_text(b),
{
    if b {
        "true"
    } else {
        "false"
    }
}

fn source_lines(svc: &ServiceConfig) -> (r: String)
    ensures
        r@ == source_section(*svc),
{
    if svc.repository_url.is_some() {
        let url = json_opt_str(&svc.repository_url);
        let branch = json_opt_str(&svc.repository_branch);
        cat5(REPOSITORY_URL, url.as_str(), REPOSITORY_BRANCH, branch.as_str(), REPOSITORY_END)
    } else {
        let url = json_opt_str(&svc.registry_url);
        cat3(REGISTRY_URL, url.as_str(), REGISTRY_END)
    }
}

fn line_or(o: &Option<String>, key: &str, absent: &str) -> (r: String)
    ensures
        r@ == optional_line(*o, key@, absent@),
{
    match o {
        Some(s) => {
            let value = json_str(s.as_str());
            cat3(key, value.as_str(), ",")
        },
        None => absent.to_owned(),
    }
}

fn disk_lines(disk: &Option<DiskConfig>) -> (r: String)
    ensures
        r@ == disk_section(*disk),
{
    match disk {
        Some(d) => {
            let mount = json_str(d.mount_path.as_str());
            let size = decimal(d.size as u64);
            cat5(DISK_MOUNT, mount.as_str(), DISK_SIZE, size.as_str(), DISK_END)
        },
        None => DISK_NONE.to_owned(),
    }
}

/// The annotated JSONC text of `c`.
pub fn render(c: &PartiriConfig) -> (r: String)
    ensures
        r@ == jsonc_of(*c),
{
    let svc = &c.service;
    let mut out = AT_ID.to_owned();
    out.append(json_opt_str(&c.id).as_str());
    out.append(AT_DEPLOY_TAG);
    out.append(json_opt_str(&c.deploy_tag).as_str());
    out.append(AT_FK_WORKSPACE);
    out.append(json_str(c.fk_workspace.as_str()).as_str());
    out.append(AT_FK_PROJECT);
    out.append(json_str(c.fk_project.as_str()).as_str());
    out.append(AT_NAME);
    out.append(json_str(svc.name.as_str()).as_str());
    out.append(AT_DEPLOY_TYPE);
    out.append(json_str(svc.deploy_type.as_str()).as_str());
    out.append(AT_RUNTIME);
    out.append(json_str(svc.runtime.as_str()).as_str());
    out.append(AT_ROOT_PATH);
    out.append(json_str(svc.root_path.as_str()).as_str());
    out.append(AT_SOURCE);
    out.append(source_lines(svc).as_str());
    out.append(AT_SECRET);
    out.append(line_or(&svc.fk_service_secret, SECRET, SECRET_NONE).as_str());
    out.append(AT_BUILD_COMMAND);
    out.append(json_opt_str(&svc.build_command).as_str());
    out.append(AT_BUILD_PATH);
    out.append(line_or(&svc.build_path, BUILD_PATH, BUILD_PATH_NONE).as_str());
    out.append(AT_PRE_DEPLOY);
    out.append(line_or(&svc.pre_deploy_command, PRE_DEPLOY, PRE_DEPLOY_NONE).as_str());
    out.append(AT_RUN_COMMAND);
    out.append(json_opt_str(&svc.run_command).as_str());
    out.append(AT_FK_REGION);
    out.append(json_str(svc.fk_region.as_str()).as_str());
    out.append(AT_FK_POD);
    out.append(json_str(svc.fk_pod.as_str()).as_str());
    out.append(AT_HEALTH);
    out.append(health_lines(svc).as_str());
    out.append(AT_DISK);
    out.append(disk_lines(&svc.disk).as_str());
    out.append(AT_MAINTENANCE);
    out.append(bool_str(svc.maintenance_mode));
    out.append(AT_ACTIVE);
    out.append(bool_str(svc.active));
    out.append(AT_END);
    out
}

fn health_lines(svc: &ServiceConfig) -> (r: String)
    ensures
        r@ == HEALTH@ + json_opt_text(opt_view(svc.health_check_path)) + ","@,
{
    let path = json_opt_str(&svc.health_check_path);
    cat3(HEALTH, path.as_str(), ",")
}

// ─── Laws ──────────────────────────────────────────────────────────────────

/// The environment variables never reach the file: its text is the same
/// whatever they are.
pub proof fn env_is_never_written(a: PartiriConfig, b: PartiriConfig)
    requires
        a == (PartiriConfig { service: ServiceConfig { env: a.service.env, ..b.service }, ..b }),
    ensures
        jsonc_of(a) == jsonc_of(b),
{
}

/// Equal beginnings leave equal ends.
proof fn same_rest(x: Seq<char>, a: Seq<char>, b: Seq<char>)
    requires
        x + a == x + b,
    ensures
        a == b,
{
    assert(a =~= (x + a).skip(x.len() as int));
    assert(b =~= (x + b).skip(x.len() as int));
}

proof fn json_char_ends(c: char, d: char, a: Seq<char>, b: Seq<char>)
    requires
        json_char(c) + a == json_char(d) + b,
    ensures
        c == d,
        a == b,
{
    let x = json_char(c) + a;
    let y = json_char(d) + b;
    assert(x[0] == json_char(c)[0]);
    assert(y[0] == json_char(d)[0]);
    if json_char(c)[0] == '\\' {
        assert(x[1] == json_char(c)[1]);
        assert(y[1] == json_char(d)[1]);
        if json_char(c)[1] == 'u' {
            assert(x[4] == json_char(c)[4] && x[5] == json_char(c)[5]);
            assert(y[4] == json_char(d)[4] && y[5] == json_char(d)[5]);
            assert(c as int / 16 == d as int / 16);
            assert(c as int % 16 == d as int % 16);
            assert(c as int == d as int);
        }
    }
    same_rest(json_char(c), a, b);
}

proof fn json_chars_end(s: Seq<char>, t: Seq<char>, a: Seq<char>, b: Seq<char>)
    requires
        json_chars(s) + (seq!['"'] + a) == json_chars(t) + (seq!['"'] + b),
    ensures
        s == t,
    decreases s.len(),
{
    let q = seq!['"'];
    let x = json_chars(s) + (q + a);
    let y = json_chars(t) + (q + b);
    if s.len() > 0 {
        let s1 = json_chars(s.drop_first()) + (q + a);
        assert(x =~= json_char(s[0]) + s1);
        assert(x[0] == json_char(s[0])[0]);
        if t.len() == 0 {
            assert(y[0] == '"');
        } else {
            let t1 = json_chars(t.drop_first()) + (q + b);
            assert(y =~= json_char(t[0]) + t1);
            json_char_ends(s[0], t[0], s1, t1);
            json_chars_end(s.drop_first(), t.drop_first(), a, b);
            assert(s =~= seq![s[0]] + s.drop_first());
            assert(t =~= seq![t[0]] + t.drop_first());
        }
    } else if t.len() > 0 {
        assert(x[0] == '"');
        let t1 = json_chars(t.drop_first()) + (q + b);
        assert(y =~= json_char(t[0]) + t1);
        assert(y[0] == json_char(t[0])[0]);
    } else {
        assert(s =~= t);
    }
}

/// Whether a text says where it ends: what it is with something behind it
/// tells it from another.
#[verifier::opaque]
spec fn ends_itself(x: Seq<char>, y: Seq<char>) -> bool {
    forall|a: Seq<char>, b: Seq<char>| #[trigger] (x + a) == #[trigger] (y + b) ==> x == y
}

proof fn same_ends_itself(x: Seq<char>)
    ensures
        ends_itself(x, x),
{
    reveal(ends_itself);
}

proof fn literal_ends_itself(s: Seq<char>, t: Seq<char>)
    ensures
        ends_itself(json_text(s), json_text(t)),
        json_text(s) == json_text(t) ==> s == t,
{
    reveal(ends_itself);
    let q = seq!['"'];
    assert forall|a: Seq<char>, b: Seq<char>| #[trigger] (json_text(s) + a) == #[trigger] (
    json_text(t) + b) implies s == t by {
        assert(json_text(s) + a =~= q + (json_chars(s) + (q + a)));
        assert(json_text(t) + b =~= q + (json_chars(t) + (q + b)));
        same_rest(q, json_chars(s) + (q + a), json_chars(t) + (q + b));
        json_chars_end(s, t, a, b);
    }
    if json_text(s) == json_text(t) {
        assert(json_text(s) + q == json_text(t) + q);
    }
}

proof fn value_ends_itself(s: Option<Seq<char>>, t: Option<Seq<char>>)
    ensures
        ends_itself(json_opt_text(s), json_opt_text(t)),
        json_opt_text(s) == json_opt_text(t) ==> s == t,
{
    reveal(ends_itself);
    reveal_strlit("null");
    assert("null"@.len() == 4 && "null"@[0] == 'n');
    let x = json_opt_text(s);
    let y = json_opt_text(t);
    match (s, t) {
        (Some(u), Some(v)) => {
            literal_ends_itself(u, v);
        },
        (None, None) => {},
        _ => {
            assert(x[0] != y[0]);
            different_starts(x, y, 0);
        },
    }
}

/// Texts that differ at a place that both have are told apart by it.
proof fn different_starts(x: Seq<char>, y: Seq<char>, i: int)
    requires
        0 <= i < x.len(),
        i < y.len(),
        x[i] != y[i],
    ensures
        ends_itself(x, y),
{
    reveal(ends_itself);
    assert forall|a: Seq<char>, b: Seq<char>| #[trigger] (x + a) == #[trigger] (y + b) implies x
        == y by {
        assert((x + a)[i] == x[i]);
        assert((y + b)[i] == y[i]);
    }
}

/// One text that says where it ends behind another.
proof fn pair_ends_itself(x: Seq<char>, y: Seq<char>, v: Seq<char>, w: Seq<char>)
    requires
        ends_itself(x, y),
        x == y ==> ends_itself(v, w),
    ensures
        ends_itself(x + v, y + w),
        x + v == y + w ==> x == y && v == w,
{
    reveal(ends_itself);
    assert forall|a: Seq<char>, b: Seq<char>| #[trigger] ((x + v) + a) == #[trigger] ((y + w)
        + b) implies x == y && v == w by {
        assert((x + v) + a =~= x + (v + a));
        assert((y + w) + b =~= y + (w + b));
        same_rest(x, v + a, w + b);
    }
    if x + v == y + w {
        let e = Seq::<char>::empty();
        assert((x + v) + e == (y + w) + e);
    }
}

proof fn optional_line_ends_itself(
    s: Option<String>,
    t: Option<String>,
    key: Seq<char>,
    absent: Seq<char>,
    i: int,
)
    requires
        0 <= i < key.len(),
        i < absent.len(),
        key[i] != absent[i],
    ensures
        ends_itself(optional_line(s, key, absent), optional_line(t, key, absent)),
        optional_line(s, key, absent) == optional_line(t, key, absent) ==> opt_view(s) == opt_view(
            t,
        ),
{
    reveal(ends_itself);
    let x = optional_line(s, key, absent);
    let y = optional_line(t, key, absent);
    match (s, t) {
        (Some(u), Some(v)) => {
            literal_ends_itself(u@, v@);
            pair_ends_itself(key, key, json_text(u@), json_text(v@));
            pair_ends_itself(key + json_text(u@), key + json_text(v@), ","@, ","@);
        },
        (None, None) => {},
        _ => {
            assert(x[i] != y[i]);
            different_starts(x, y, i);
        },
    }
}

proof fn number_ends_before(n: nat, m: nat, a: Seq<char>, b: Seq<char>)
    requires
        a.len() > 0,
        b.len() > 0,
        !is_digit_char(a[0]),
        !is_digit_char(b[0]),
        decimal_of(n) + a == decimal_of(m) + b,
    ensures
        n == m,
        a == b,
{
    decimal_spells(n);
    decimal_spells(m);
    let x = decimal_of(n);
    let y = decimal_of(m);
    if x.len() < y.len() {
        assert((x + a)[x.len() as int] == a[0]);
        assert((y + b)[x.len() as int] == y[x.len() as int]);
    }
    if y.len() < x.len() {
        assert((y + b)[y.len() as int] == b[0]);
        assert((x + a)[y.len() as int] == x[y.len() as int]);
    }
    assert(x =~= (x + a).take(x.len() as int));
    assert(y =~= (y + b).take(y.len() as int));
    same_rest(x, a, b);
}

proof fn disk_ends_itself(s: Option<DiskConfig>, t: Option<DiskConfig>)
    ensures
        ends_itself(disk_section(s), disk_section(t)),
        disk_section(s) == disk_section(t) ==> disk_view(s) == disk_view(t),
{
    reveal(ends_itself);
    reveal_strlit(r#"
    // Persistent disk attached to this service. Remove or set to null to detach on next push.
    "disk": {
      "mount_path": "#);
    reveal_strlit(r#"
    // Persistent disk (optional). Example: { "mount_path": "/app/data", "size": 1 }
    // "disk": null,"#);
    reveal_strlit(r#"
    },"#);
    assert(DISK_MOUNT@.len() > 40 && DISK_NONE@.len() > 40);
    assert(DISK_MOUNT@[24] == 'a' && DISK_NONE@[24] == '(');
    assert(DISK_END@.len() > 0 && DISK_END@[0] == '\n');
    let x = disk_section(s);
    let y = disk_section(t);
    match (s, t) {
        (Some(u), Some(v)) => {
            let p = DISK_MOUNT@ + json_text(u.mount_path@);
            let q = DISK_MOUNT@ + json_text(v.mount_path@);
            literal_ends_itself(u.mount_path@, v.mount_path@);
            pair_ends_itself(
                DISK_MOUNT@,
                DISK_MOUNT@,
                json_text(u.mount_path@),
                json_text(v.mount_path@),
            );
            pair_ends_itself(p, q, DISK_SIZE@, DISK_SIZE@);
            let n = decimal_of(u.size as nat);
            let m = decimal_of(v.size as nat);
            assert forall|a: Seq<char>, b: Seq<char>| #[trigger] (x + a) == #[trigger] (y
                + b) implies disk_view(s) == disk_view(t) && x == y by {
                assert(x + a =~= (p + DISK_SIZE@) + (n + (DISK_END@ + a)));
                assert(y + b =~= (q + DISK_SIZE@) + (m + (DISK_END@ + b)));
                same_rest(p + DISK_SIZE@, n + (DISK_END@ + a), m + (DISK_END@ + b));
                number_ends_before(u.size as nat, v.size as nat, DISK_END@ + a, DISK_END@ + b);
            }
            if x == y {
                let e = Seq::<char>::empty();
                assert(x + e == y + e);
            }
        },
        (None, None) => {},
        _ => {
            assert(x[24] != y[24]);
            different_starts(x, y, 24);
        },
    }
}

/// What a disk is: its mount path and its size.
pub open spec fn disk_view(d: Option<DiskConfig>) -> Option<(Seq<char>, u32)> {
    match d {
        Some(x) => Some((x.mount_path@, x.size)),
        None => None,
    }
}

/// What the file says of the source: the repository with its branch, or else
/// the image.
pub open spec fn source_view(svc: ServiceConfig) -> (Option<Seq<char>>, Option<Seq<char>>) {
    (
        opt_view(svc.repository_url),
        if svc.repository_url is Some {
            opt_view(svc.repository_branch)
        } else {
            opt_view(svc.registry_url)
        },
    )
}

proof fn source_ends_itself(s: ServiceConfig, t: ServiceConfig)
    ensures
        ends_itself(source_section(s), source_section(t)),
        source_section(s) == source_section(t) ==> source_view(s) == source_view(t),
{
    reveal_strlit(r#"
    // ─── Repository source ─────────────────────────────────────────────────────
    // Required for deploy_type "static" (registry not supported for static).
    "repository_url": "#);
    reveal_strlit(r#"
    // ─── Registry source (not available for deploy_type "static") ──────────────
    // Full image reference (e.g. "ghcr.io/owner/image:tag"). The API splits
    // this into registry host + repository + tag server-side.
    "registry_url": "#);
    assert(REPOSITORY_URL@.len() > 40 && REGISTRY_URL@.len() > 40);
    assert(REPOSITORY_URL@[14] == 'p' && REGISTRY_URL@[14] == 'g');
    let x = source_section(s);
    let y = source_section(t);
    if s.repository_url is Some && t.repository_url is Some {
        let su = json_opt_text(opt_view(s.repository_url));
        let tu = json_opt_text(opt_view(t.repository_url));
        let sb = json_opt_text(opt_view(s.repository_branch));
        let tb = json_opt_text(opt_view(t.repository_branch));
        value_ends_itself(opt_view(s.repository_url), opt_view(t.repository_url));
        value_ends_itself(opt_view(s.repository_branch), opt_view(t.repository_branch));
        let u = REPOSITORY_URL@;
        let v = REPOSITORY_BRANCH@;
        same_ends_itself(u);
        same_ends_itself(v);
        same_ends_itself(REPOSITORY_END@);
        pair_ends_itself(u, u, su, tu);
        pair_ends_itself(u + su, u + tu, v, v);
        pair_ends_itself(u + su + v, u + tu + v, sb, tb);
        pair_ends_itself(u + su + v + sb, u + tu + v + tb, REPOSITORY_END@, REPOSITORY_END@);
    } else if s.repository_url is None && t.repository_url is None {
        let su = json_opt_text(opt_view(s.registry_url));
        let tu = json_opt_text(opt_view(t.registry_url));
        value_ends_itself(opt_view(s.registry_url), opt_view(t.registry_url));
        same_ends_itself(REGISTRY_URL@);
        same_ends_itself(REGISTRY_END@);
        pair_ends_itself(REGISTRY_URL@, REGISTRY_URL@, su, tu);
        pair_ends_itself(REGISTRY_URL@ + su, REGISTRY_URL@ + tu, REGISTRY_END@, REGISTRY_END@);
    } else {
        assert(x[14] != y[14]);
        different_starts(x, y, 14);
    }
}

/// Texts one after another.
spec fn flat(parts: Seq<Seq<char>>) -> Seq<char>
    decreases parts.len(),
{
    if parts.len() == 0 {
        seq![]
    } else {
        flat(parts.drop_last()) + parts.last()
    }
}

proof fn flat_grows(parts: Seq<Seq<char>>, k: int)
    requires
        0 <= k < parts.len(),
    ensures
        flat(parts.take(k + 1)) == flat(parts.take(k)) + parts[k],
{
    assert(parts.take(k + 1).drop_last() =~= parts.take(k));
}

proof fn flat_front(parts: Seq<Seq<char>>)
    requires
        parts.len() > 0,
    ensures
        flat(parts) == parts[0] + flat(parts.drop_first()),
    decreases parts.len(),
{
    if parts.len() == 1 {
        assert(parts.drop_last() =~= seq![]);
        assert(parts.drop_first() =~= seq![]);
        assert(flat(parts) =~= parts[0] + flat(parts.drop_first()));
    } else {
        let front = parts.drop_last();
        flat_front(front);
        assert(parts.drop_first().drop_last() =~= front.drop_first());
        assert(flat(parts) =~= parts[0] + flat(parts.drop_first()));
    }
}

/// Lists of texts that say where they end are told apart by what they make
/// together.
proof fn flats_agree(p: Seq<Seq<char>>, q: Seq<Seq<char>>)
    requires
        p.len() == q.len(),
        flat(p) == flat(q),
        forall|i: int| 0 <= i < p.len() ==> #[trigger] ends_itself(p[i], q[i]),
    ensures
        p == q,
    decreases p.len(),
{
    reveal(ends_itself);
    if p.len() > 0 {
        flat_front(p);
        flat_front(q);
        let p1 = p.drop_first();
        let q1 = q.drop_first();
        assert(ends_itself(p[0], q[0]));
        assert(p[0] + flat(p1) == q[0] + flat(q1));
        same_rest(p[0], flat(p1), flat(q1));
        assert forall|i: int| 0 <= i < p1.len() implies #[trigger] ends_itself(p1[i], q1[i]) by {
            assert(ends_itself(p[i + 1], q[i + 1]));
        }
        flats_agree(p1, q1);
        assert(p =~= seq![p[0]] + p1);
        assert(q =~= seq![q[0]] + q1);
    } else {
        assert(p =~= q);
    }
}

/// The pieces of the file.
#[verifier::opaque]
spec fn pieces(c: PartiriConfig) -> Seq<Seq<char>> {
    let svc = c.service;
    seq![
        AT_ID@,
        json_opt_text(opt_view(c.id)),
        AT_DEPLOY_TAG@,
        json_opt_text(opt_view(c.deploy_tag)),
        AT_FK_WORKSPACE@,
        json_text(c.fk_workspace@),
        AT_FK_PROJECT@,
        json_text(c.fk_project@),
        AT_NAME@,
        json_text(svc.name@),
        AT_DEPLOY_TYPE@,
        json_text(svc.deploy_type@),
        AT_RUNTIME@,
        json_text(svc.runtime@),
        AT_ROOT_PATH@,
        json_text(svc.root_path@),
        AT_SOURCE@,
        source_section(svc),
        AT_SECRET@,
        optional_line(svc.fk_service_secret, SECRET@, SECRET_NONE@),
        AT_BUILD_COMMAND@,
        json_opt_text(opt_view(svc.build_command)),
        AT_BUILD_PATH@,
        optional_line(svc.build_path, BUILD_PATH@, BUILD_PATH_NONE@),
        AT_PRE_DEPLOY@,
        optional_line(svc.pre_deploy_command, PRE_DEPLOY@, PRE_DEPLOY_NONE@),
        AT_RUN_COMMAND@,
        json_opt_text(opt_view(svc.run_command)),
        AT_FK_REGION@,
        json_text(svc.fk_region@),
        AT_FK_POD@,
        json_text(svc.fk_pod@),
        AT_HEALTH@,
        HEALTH@ + json_opt_text(opt_view(svc.health_check_path)) + ","@,
        AT_DISK@,
        disk_section(svc.disk),
        AT_MAINTENANCE@,
        bool_text(svc.maintenance_mode),
        AT_ACTIVE@,
        bool_text(svc.active),
        AT_END@,
    ]
}

proof fn pieces_make_the_file(c: PartiriConfig)
    ensures
        flat(pieces(c)) == jsonc_of(c),
{
    reveal(pieces);
    let p = pieces(c);
    assert(p.len() == 41);
    assert(p.take(0) =~= seq![]);
    flat_grows(p, 0);
    assert(flat(p.take(1)) =~= AT_ID@);
    flat_grows(p, 1);
    flat_grows(p, 2);
    flat_grows(p, 3);
    flat_grows(p, 4);
    flat_grows(p, 5);
    flat_grows(p, 6);
    flat_grows(p, 7);
    flat_grows(p, 8);
    flat_grows(p, 9);
    flat_grows(p, 10);
    flat_grows(p, 11);
    flat_grows(p, 12);
    flat_grows(p, 13);
    flat_grows(p, 14);
    flat_grows(p, 15);
    flat_grows(p, 16);
    flat_grows(p, 17);
    flat_grows(p, 18);
    flat_grows(p, 19);
    flat_grows(p, 20);
    flat_grows(p, 21);
    flat_grows(p, 22);
    flat_grows(p, 23);
    flat_grows(p, 24);
    flat_grows(p, 25);
    flat_grows(p, 26);
    flat_grows(p, 27);
    flat_grows(p, 28);
    flat_grows(p, 29);
    flat_grows(p, 30);
    flat_grows(p, 31);
    flat_grows(p, 32);
    flat_grows(p, 33);
    flat_grows(p, 34);
    flat_grows(p, 35);
    flat_grows(p, 36);
    flat_grows(p, 37);
    flat_grows(p, 38);
    flat_grows(p, 39);
    flat_grows(p, 40);
    assert(p.take(41) =~= p);
}

proof fn switches_end_themselves(a: bool, b: bool)
    ensures
        ends_itself(bool_text(a), bool_text(b)),
        bool_text(a) == bool_text(b) ==> a == b,
{
    reveal(ends_itself);
    reveal_strlit("true");
    reveal_strlit("false");
    assert("true"@[0] == 't' && "false"@[0] == 'f');
    if a != b {
        different_starts(bool_text(a), bool_text(b), 0);
    }
}

/// The lines that may be absent differ from the comments in their place.
proof fn optional_lines_differ()
    ensures
        74 < SECRET@.len(),
        74 < SECRET_NONE@.len(),
        SECRET@[74] != SECRET_NONE@[74],
        4 < BUILD_PATH@.len(),
        4 < BUILD_PATH_NONE@.len(),
        BUILD_PATH@[4] != BUILD_PATH_NONE@[4],
        4 < PRE_DEPLOY@.len(),
        4 < PRE_DEPLOY_NONE@.len(),
        PRE_DEPLOY@[4] != PRE_DEPLOY_NONE@[4],
{
    reveal_strlit(r#"    // Authentication token for private repository / registry access.
    "fk_service_secret": "#);
    reveal_strlit(r#"    // Authentication token for private repository / registry access.
    // "fk_service_secret": "uuid", // run 'partiri service token' to configure"#);
    reveal_strlit(r#"    "build_path": "#);
    reveal_strlit(r#"    // "build_path": "dist",       // output directory of the build step"#);
    reveal_strlit(r#"    "pre_deploy_command": "#);
    reveal_strlit(r#"    // "pre_deploy_command": "",   // optional: runs before each deploy (e.g. migrations)"#);
    assert(SECRET@[74] == '"' && SECRET_NONE@[74] == '/');
    assert(BUILD_PATH@[4] == '"' && BUILD_PATH_NONE@[4] == '/');
    assert(PRE_DEPLOY@[4] == '"' && PRE_DEPLOY_NONE@[4] == '/');
}

proof fn pieces_end_themselves(a: PartiriConfig, b: PartiriConfig, i: int)
    requires
        0 <= i < 41,
    ensures
        ends_itself(pieces(a)[i], pieces(b)[i]),
{
    reveal(pieces);
    let s = a.service;
    let t = b.service;
    let p = pieces(a);
    let q = pieces(b);
    if i % 2 == 0 {
        assert(p[i] == q[i]);
        same_ends_itself(p[i]);
    } else if i < 20 {
        value_ends_itself(opt_view(a.id), opt_view(b.id));
        value_ends_itself(opt_view(a.deploy_tag), opt_view(b.deploy_tag));
        literal_ends_itself(a.fk_workspace@, b.fk_workspace@);
        literal_ends_itself(a.fk_project@, b.fk_project@);
        literal_ends_itself(s.name@, t.name@);
        literal_ends_itself(s.deploy_type@, t.deploy_type@);
        literal_ends_itself(s.runtime@, t.runtime@);
        literal_ends_itself(s.root_path@, t.root_path@);
        source_ends_itself(s, t);
        optional_lines_differ();
        optional_line_ends_itself(
            s.fk_service_secret,
            t.fk_service_secret,
            SECRET@,
            SECRET_NONE@,
            74,
        );
        assert(i == 1 || i == 3 || i == 5 || i == 7 || i == 9 || i == 11 || i == 13 || i == 15 || i
            == 17 || i == 19);
    } else {
        value_ends_itself(opt_view(s.build_command), opt_view(t.build_command));
        optional_lines_differ();
        optional_line_ends_itself(s.build_path, t.build_path, BUILD_PATH@, BUILD_PATH_NONE@, 4);
        optional_line_ends_itself(
            s.pre_deploy_command,
            t.pre_deploy_command,
            PRE_DEPLOY@,
            PRE_DEPLOY_NONE@,
            4,
        );
        value_ends_itself(opt_view(s.run_command), opt_view(t.run_command));
        literal_ends_itself(s.fk_region@, t.fk_region@);
        literal_ends_itself(s.fk_pod@, t.fk_pod@);
        let hs = json_opt_text(opt_view(s.health_check_path));
        let ht = json_opt_text(opt_view(t.health_check_path));
        value_ends_itself(opt_view(s.health_check_path), opt_view(t.health_check_path));
        same_ends_itself(HEALTH@);
        same_ends_itself(","@);
        pair_ends_itself(HEALTH@, HEALTH@, hs, ht);
        pair_ends_itself(HEALTH@ + hs, HEALTH@ + ht, ","@, ","@);
        disk_ends_itself(s.disk, t.disk);
        switches_end_themselves(s.maintenance_mode, t.maintenance_mode);
        switches_end_themselves(s.active, t.active);
        assert(i == 21 || i == 23 || i == 25 || i == 27 || i == 29 || i == 31 || i == 33 || i == 35
            || i == 37 || i == 39);
    }
}

proof fn piece_count(c: PartiriConfig)
    ensures
        pieces(c).len() == 41,
{
    reveal(pieces);
}

proof fn same_pieces(a: PartiriConfig, b: PartiriConfig)
    requires
        flat(pieces(a)) == flat(pieces(b)),
    ensures
        pieces(a) == pieces(b),
{
    let p = pieces(a);
    let q = pieces(b);
    piece_count(a);
    piece_count(b);
    assert forall|i: int| 0 <= i < p.len() implies #[trigger] ends_itself(p[i], q[i]) by {
        pieces_end_themselves(a, b, i);
    }
    flats_agree(p, q);
}

/// Which piece holds what.
proof fn pieces_named(c: PartiriConfig)
    ensures
        ({
            let p = pieces(c);
            let svc = c.service;
            &&& p[1] == json_opt_text(opt_view(c.id))
            &&& p[3] == json_opt_text(opt_view(c.deploy_tag))
            &&& p[5] == json_text(c.fk_workspace@)
            &&& p[7] == json_text(c.fk_project@)
            &&& p[9] == json_text(svc.name@)
            &&& p[11] == json_text(svc.deploy_type@)
            &&& p[13] == json_text(svc.runtime@)
            &&& p[15] == json_text(svc.root_path@)
            &&& p[17] == source_section(svc)
            &&& p[19] == optional_line(svc.fk_service_secret, SECRET@, SECRET_NONE@)
            &&& p[21] == json_opt_text(opt_view(svc.build_command))
            &&& p[23] == optional_line(svc.build_path, BUILD_PATH@, BUILD_PATH_NONE@)
            &&& p[25] == optional_line(svc.pre_deploy_command, PRE_DEPLOY@, PRE_DEPLOY_NONE@)
            &&& p[27] == json_opt_text(opt_view(svc.run_command))
            &&& p[29] == json_text(svc.fk_region@)
            &&& p[31] == json_text(svc.fk_pod@)
            &&& p[33] == HEALTH@ + json_opt_text(opt_view(svc.health_check_path)) + ","@
            &&& p[35] == disk_section(svc.disk)
            &&& p[37] == bool_text(svc.maintenance_mode)
            &&& p[39] == bool_text(svc.active)
        }),
{
    reveal(pieces);
}

/// The file holds the configuration: two configurations with the same text
/// agree on everything but the environment, and the half of the source that is
/// not in use.
pub proof fn file_determines_the_config(a: PartiriConfig, b: PartiriConfig)
    requires
        jsonc_of(a) == jsonc_of(b),
    ensures
        opt_view(a.id) == opt_view(b.id),
        opt_view(a.deploy_tag) == opt_view(b.deploy_tag),
        a.fk_workspace@ == b.fk_workspace@,
        a.fk_project@ == b.fk_project@,
        a.service.name@ == b.service.name@,
        a.service.deploy_type@ == b.service.deploy_type@,
        a.service.runtime@ == b.service.runtime@,
        a.service.root_path@ == b.service.root_path@,
        source_view(a.service) == source_view(b.service),
        opt_view(a.service.fk_service_secret) == opt_view(b.service.fk_service_secret),
        opt_view(a.service.build_command) == opt_view(b.service.build_command),
        opt_view(a.service.build_path) == opt_view(b.service.build_path),
        opt_view(a.service.pre_deploy_command) == opt_view(b.service.pre_deploy_command),
        opt_view(a.service.run_command) == opt_view(b.service.run_command),
        a.service.fk_region@ == b.service.fk_region@,
        a.service.fk_pod@ == b.service.fk_pod@,
        opt_view(a.service.health_check_path) == opt_view(b.service.health_check_path),
        disk_view(a.service.disk) == disk_view(b.service.disk),
        a.service.maintenance_mode == b.service.maintenance_mode,
        a.service.active == b.service.active,
{
    let s = a.service;
    let t = b.service;
    pieces_make_the_file(a);
    pieces_make_the_file(b);
    same_pieces(a, b);
    pieces_named(a);
    pieces_named(b);
    value_ends_itself(opt_view(a.id), opt_view(b.id));
    value_ends_itself(opt_view(a.deploy_tag), opt_view(b.deploy_tag));
    literal_ends_itself(a.fk_workspace@, b.fk_workspace@);
    literal_ends_itself(a.fk_project@, b.fk_project@);
    literal_ends_itself(s.name@, t.name@);
    literal_ends_itself(s.deploy_type@, t.deploy_type@);
    literal_ends_itself(s.runtime@, t.runtime@);
    literal_ends_itself(s.root_path@, t.root_path@);
    source_ends_itself(s, t);
    optional_lines_differ();
    optional_line_ends_itself(s.fk_service_secret, t.fk_service_secret, SECRET@, SECRET_NONE@, 74);
    value_ends_itself(opt_view(s.build_command), opt_view(t.build_command));
    optional_line_ends_itself(s.build_path, t.build_path, BUILD_PATH@, BUILD_PATH_NONE@, 4);
    optional_line_ends_itself(
        s.pre_deploy_command,
        t.pre_deploy_command,
        PRE_DEPLOY@,
        PRE_DEPLOY_NONE@,
        4,
    );
    value_ends_itself(opt_view(s.run_command), opt_view(t.run_command));
    literal_ends_itself(s.fk_region@, t.fk_region@);
    literal_ends_itself(s.fk_pod@, t.fk_pod@);
    let hs = json_opt_text(opt_view(s.health_check_path));
    let ht = json_opt_text(opt_view(t.health_check_path));
    value_ends_itself(opt_view(s.health_check_path), opt_view(t.health_check_path));
    same_ends_itself(HEALTH@);
    same_ends_itself(","@);
    pair_ends_itself(HEALTH@, HEALTH@, hs, ht);
    pair_ends_itself(HEALTH@ + hs, HEALTH@ + ht, ","@, ","@);
    disk_ends_itself(s.disk, t.disk);
    switches_end_themselves(s.maintenance_mode, t.maintenance_mode);
    switches_end_themselves(s.active, t.active);
}

} // verus!
