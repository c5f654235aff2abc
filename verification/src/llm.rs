//! `partiri llm`: helpers for agents that drive the tool. They describe the
//! configuration, the commands and the errors, and say what to do next.
use vstd::prelude::*;
use vstd::string::*;

use crate::client::{
    primary_region_of, query, ApiClient, ApiRequest, Job, Pod, Project, Region, RegionPricing,
    Service, Workspace, WorkspaceSecret,
};
use crate::config::{
    config_display, config_display_of, config_flag_suffix, config_flag_suffix_of, is_valid,
    known_deploy_type, known_runtime, runs_a_process, valid_config_meaning, ConfigOverride,
    PartiriConfig, DEPLOY_TYPES, RUNTIMES,
};
use crate::databases::padded;
use crate::error::{bare, hinted, list0, list1, list2};
use crate::error::{CliError, CliErrorView, Failure, FailureView};
use crate::jobs::{newest_first, sort_newest_first};
use crate::json::{
    array_view, items_view, json_view, opt_string_view, strings_view, Json, JsonView,
};
use crate::listings::SERVICE_LIMIT;
use crate::secret::{secret_json, secret_json_of, secrets_array};
use crate::seqs::{filter_take, first_item, first_where};
use crate::service::push::price_of_pod;
use crate::text::{
    cat2, cat3, cat4, cat5, chars_of, clone_opt, decimal, decimal_of, opt_str_view, opt_view, owned,
    str_eq, strs, trimmed, trimmed_keeps, views,
};
use crate::auth::{after_word, first_word};

verus! {

// ─── Templates ─────────────────────────────────────────────────────────────

/// The flags of `llm template`.
#[derive(Debug)]
pub struct TemplateArgs {
    /// `webservice` where absent.
    pub deploy_type: Option<String>,
    /// `node` where absent.
    pub runtime: Option<String>,
    /// `repo` (where absent) or `registry`.
    pub source: Option<String>,
}

// The fixed text of a template, before each of its values.

pub const TEMPLATE_DEPLOY_TYPE: &'static str = r#"{
  // The service ID is assigned by 'partiri service create'; leave null until then.
  "id": null,
  "deploy_tag": null,
  "fk_workspace": "<workspace UUID — run 'partiri -j llm context' to discover>",
  "fk_project":   "<project UUID — same source>",

  "service": {
    "name": "my-service",                  // ≤16 chars
    "deploy_type": ""#;

pub const TEMPLATE_RUNTIME: &'static str = r#"",        // webservice | static | private-service | worker
    "runtime": ""#;

pub const TEMPLATE_SOURCE: &'static str = r#"",
    "root_path": ".",

"#;

pub const TEMPLATE_BUILD: &'static str = r#"

"#;

pub const TEMPLATE_RUN: &'static str = r#"
    // "build_path": "dist",
    // "pre_deploy_command": "",
"#;

pub const TEMPLATE_END: &'static str = r#"

    "fk_region": "<region UUID>",
    "fk_pod":    "<pod UUID>",

    // "health_check_path": "/health",
    "maintenance_mode": false,
    "active": true
    // Environment variables are managed via 'partiri service env --path <.env>'.
  }
}
"#;

pub const TEMPLATE_REGISTRY: &'static str = r#"    // Full image reference: "<registry>/<repo>[:tag]". Split server-side.
    "registry_url": "registry.example.com/your-org/your-image:tag",
    // "repository_url": null,
    // "repository_branch": null,
    // For private images, set fk_service_secret to a registry-secret UUID:
    // "fk_service_secret": "uuid",  // run 'partiri service token --secret <UUID>'"#;

pub const TEMPLATE_REPOSITORY: &'static str = r#"    "repository_url": "https://github.com/your-org/your-repo.git",
    "repository_branch": "main",
    // "registry_url": null,
    // For private repos, set fk_service_secret to a repository-secret UUID:
    // "fk_service_secret": "uuid",  // run 'partiri service token --secret <UUID>'"#;

pub const NO_BUILD_LINE: &'static str = "    // \"build_command\": null,       // not used for registry-sourced deploys (image is pre-built)";

pub const STATIC_RUN_LINE: &'static str = "    // \"run_command\": null,         // not used for static deploys";

pub const REGISTRY_RUN_LINE: &'static str = "    // \"run_command\": null,         // not used for registry-sourced deploys (image entrypoint runs)";

/// The commands that usually build and run a project of a runtime.
pub open spec fn commands_for(runtime: Seq<char>) -> (Seq<char>, Seq<char>) {
    if runtime == "node"@ {
        ("npm run build"@, "node ./dist/server/entry.mjs"@)
    } else if runtime == "deno"@ {
        ("deno cache main.ts"@, "deno run --allow-net --allow-env main.ts"@)
    } else if runtime == "rust"@ {
        ("cargo build --release"@, "./target/release/app"@)
    } else if runtime == "python"@ {
        ("pip install -r requirements.txt"@, "python main.py"@)
    } else if runtime == "go"@ {
        ("go build -o app ."@, "./app"@)
    } else if runtime == "ruby"@ {
        ("bundle install"@, "ruby app.rb"@)
    } else if runtime == "elixir"@ {
        ("mix deps.get && mix compile"@, "mix phx.server"@)
    } else if runtime == "php"@ {
        ("composer install"@, "php -S 0.0.0.0:$PORT"@)
    } else if runtime == "jvm"@ {
        ("./gradlew build"@, "java -jar build/libs/app.jar"@)
    } else if runtime == "dotnet"@ {
        ("dotnet publish -c Release"@, "dotnet bin/Release/net8.0/app.dll"@)
    } else if runtime == "cpp"@ {
        ("make"@, "./app"@)
    } else if runtime == "static"@ {
        ("npm run build"@, ""@)
    } else if runtime == "registry"@ {
        (""@, ""@)
    } else {
        (""@, ""@)
    }
}

pub fn default_commands(runtime: &str) -> (r: (&'static str, &'static str))
    ensures
        (r.0@, r.1@) == commands_for(runtime@),
{
    if str_eq(runtime, "node") {
        ("npm run build", "node ./dist/server/entry.mjs")
    } else if str_eq(runtime, "deno") {
        ("deno cache main.ts", "deno run --allow-net --allow-env main.ts")
    } else if str_eq(runtime, "rust") {
        ("cargo build --release", "./target/release/app")
    } else if str_eq(runtime, "python") {
        ("pip install -r requirements.txt", "python main.py")
    } else if str_eq(runtime, "go") {
        ("go build -o app .", "./app")
    } else if str_eq(runtime, "ruby") {
        ("bundle install", "ruby app.rb")
    } else if str_eq(runtime, "elixir") {
        ("mix deps.get && mix compile", "mix phx.server")
    } else if str_eq(runtime, "php") {
        ("composer install", "php -S 0.0.0.0:$PORT")
    } else if str_eq(runtime, "jvm") {
        ("./gradlew build", "java -jar build/libs/app.jar")
    } else if str_eq(runtime, "dotnet") {
        ("dotnet publish -c Release", "dotnet bin/Release/net8.0/app.dll")
    } else if str_eq(runtime, "cpp") {
        ("make", "./app")
    } else if str_eq(runtime, "static") {
        ("npm run build", "")
    } else if str_eq(runtime, "registry") {
        ("", "")
    } else {
        ("", "")
    }
}

pub open spec fn build_line(runtime: Seq<char>, source: Seq<char>) -> Seq<char> {
    if source == "registry"@ {
        NO_BUILD_LINE@
    } else {
        "    \"build_command\": \""@ + commands_for(runtime).0 + "\","@
    }
}

pub open spec fn run_line(deploy_type: Seq<char>, runtime: Seq<char>, source: Seq<char>) -> Seq<
    char,
> {
    if deploy_type == "static"@ {
        STATIC_RUN_LINE@
    } else if source == "registry"@ {
        REGISTRY_RUN_LINE@
    } else {
        "    \"run_command\": \""@ + commands_for(runtime).1 + "\","@
    }
}

/// The template of a configuration.
pub open spec fn template_of(
    deploy_type: Seq<char>,
    runtime: Seq<char>,
    source: Seq<char>,
) -> Seq<char> {
    TEMPLATE_DEPLOY_TYPE@ + deploy_type + TEMPLATE_RUNTIME@ + runtime + TEMPLATE_SOURCE@ + (
    if source == "registry"@ {
        TEMPLATE_REGISTRY@
    } else {
        TEMPLATE_REPOSITORY@
    }) + TEMPLATE_BUILD@ + build_line(runtime, source) + TEMPLATE_RUN@ + run_line(
        deploy_type,
        runtime,
        source,
    ) + TEMPLATE_END@
}

pub fn build_template(deploy_type: &str, runtime: &str, source: &str) -> (r: String)
    ensures
        r@ == template_of(deploy_type@, runtime@, source@),
{
    let (build, run) = default_commands(runtime);
    let registry = str_eq(source, "registry");
    let build_text = if registry {
        NO_BUILD_LINE.to_owned()
    } else {
        cat3("    \"build_command\": \"", build, "\",")
    };
    let run_text = if str_eq(deploy_type, "static") {
        STATIC_RUN_LINE.to_owned()
    } else if registry {
        REGISTRY_RUN_LINE.to_owned()
    } else {
        cat3("    \"run_command\": \"", run, "\",")
    };
    let mut out = TEMPLATE_DEPLOY_TYPE.to_owned();
    out.append(deploy_type);
    out.append(TEMPLATE_RUNTIME);
    out.append(runtime);
    out.append(TEMPLATE_SOURCE);
    out.append(
        if registry {
            TEMPLATE_REGISTRY
        } else {
            TEMPLATE_REPOSITORY
        },
    );
    out.append(TEMPLATE_BUILD);
    out.append(build_text.as_str());
    out.append(TEMPLATE_RUN);
    out.append(run_text.as_str());
    out.append(TEMPLATE_END);
    out
}

pub open spec fn or_default(o: Option<String>, d: Seq<char>) -> Seq<char> {
    match o {
        Some(s) => s@,
        None => d,
    }
}

fn given_or<'a>(o: &'a Option<String>, d: &'static str) -> (r: &'a str)
    ensures
        r@ == or_default(*o, d@),
{
    match o {
        Some(s) => s.as_str(),
        None => d,
    }
}

/// `llm template`: the template for the flags, and its JSON form.
pub fn run_template(args: &TemplateArgs) -> (r: (String, Json))
    ensures
        ({
            let dt = or_default(args.deploy_type, "webservice"@);
            let runtime = or_default(args.runtime, "node"@);
            let source = or_default(args.source, "repo"@);
            &&& r.0@ == template_of(dt, runtime, source)
            &&& r.1@ == JsonView::Obj(
                seq![
                    ("deploy_type"@, JsonView::Str(dt)),
                    ("runtime"@, JsonView::Str(runtime)),
                    ("source"@, JsonView::Str(source)),
                    ("template"@, JsonView::Str(r.0@)),
                ],
            )
        }),
{
    let dt = given_or(&args.deploy_type, "webservice");
    let runtime = given_or(&args.runtime, "node");
    let source = given_or(&args.source, "repo");
    let text = build_template(dt, runtime, source);
    let data = Json::object().with("deploy_type", Json::str(dt)).with(
        "runtime",
        Json::str(runtime),
    ).with("source", Json::str(source)).with("template", Json::str(text.as_str()));
    assert(data@->Obj_0 =~= seq![
        ("deploy_type"@, JsonView::Str(dt@)),
        ("runtime"@, JsonView::Str(runtime@)),
        ("source"@, JsonView::Str(source@)),
        ("template"@, JsonView::Str(text@)),
    ]);
    (text, data)
}

// ─── Examples ──────────────────────────────────────────────────────────────

pub const EXAMPLE_NODE_WEBSERVICE_PUBLIC_REPO: [&'static str; 6] = [
    "partiri auth set-apikey --key <KEY>",
    "partiri init --template",
    "# edit .partiri.jsonc with the values above and real UUIDs from `partiri -j llm context`",
    "partiri -j validate --remote",
    "partiri -j -y service create",
    "partiri -j -y service deploy",
];

pub const EXAMPLE_STATIC_SITE: [&'static str; 4] = [
    "partiri init --template",
    "# set deploy_type=static, runtime=static, no run_command, build_path=dist",
    "partiri -j -y service create",
    "partiri -j -y service deploy",
];

pub const EXAMPLE_PRIVATE_REGISTRY_IMAGE: [&'static str; 9] = [
    "# Create a registry secret (stores credentials encrypted server-side)",
    "# --provider: github | gitlab | bitbucket | docker | google | aws",
    "partiri -j secrets create-registry --name my-registry --provider github --username <USER> --password-stdin",
    "# The command prints the secret ID; set it in .partiri.jsonc as fk_service_secret",
    "# Or attach it to an existing service:",
    "partiri -j -y service token --secret <SECRET_UUID>",
    "partiri -j validate --remote",
    "partiri -j -y service create",
    "partiri -j -y service deploy",
];

pub const EXAMPLE_PRIVATE_REPO_WITH_SECRET: [&'static str; 8] = [
    "# Create a repository secret (personal access token)",
    "# --provider: github | gitlab | bitbucket | codeberg",
    "# --username is only required for Bitbucket basic auth; omit for all other providers",
    "partiri -j secrets create-repository --name my-github-token --provider github --token-stdin",
    "# Set fk_service_secret in .partiri.jsonc to the printed secret ID",
    "partiri -j validate --remote",
    "partiri -j -y service create",
    "partiri -j -y service deploy",
];

pub const EXAMPLE_SERVICE_WITH_PERSISTENT_DISK: [&'static str; 9] = [
    "# Add disk block to .partiri.jsonc (see disk_block_example above)",
    "partiri -j -y service create",
    "partiri -j -y service deploy",
    "# To inspect volumes later:",
    "partiri -j storage list --project <PROJECT_UUID>",
    "partiri -j storage show <VOLUME_UUID>",
    "# To detach and delete:",
    "partiri -j -y storage detach <VOLUME_UUID>",
    "partiri -j -y storage delete <VOLUME_UUID>",
];

pub const EXAMPLE_RUST_PRIVATE_SERVICE: [&'static str; 3] = [
    "partiri init --template",
    "partiri -j -y service create",
    "partiri -j -y service deploy",
];

/// A worked example.
pub open spec fn example_view(
    name: Seq<char>,
    description: Seq<char>,
    jsonc: Seq<char>,
    commands: Seq<Seq<char>>,
) -> JsonView {
    JsonView::Obj(
        seq![
            ("name"@, JsonView::Str(name)),
            ("description"@, JsonView::Str(description)),
            ("jsonc"@, JsonView::Str(jsonc)),
            ("commands"@, strings_view(commands)),
        ],
    )
}

fn example(name: &str, description: &str, jsonc: String, commands: &[&str]) -> (r: Json)
    ensures
        r@ == example_view(name@, description@, jsonc@, strs(commands@)),
{
    let list = owned(commands);
    let r = Json::object().with("name", Json::str(name)).with(
        "description",
        Json::str(description),
    ).with("jsonc", Json::str(jsonc.as_str())).with("commands", Json::strings(&list));
    assert(r@->Obj_0 =~= example_view(name@, description@, jsonc@, strs(commands@))->Obj_0);
    r
}

/// The example with a persistent disk, which shows the disk block in place of
/// a template.
pub open spec fn disk_example_view() -> JsonView {
    JsonView::Obj(
        seq![
            ("name"@, JsonView::Str("service-with-persistent-disk"@)),
            ("description"@, JsonView::Str("Service with a persistent disk. Add a disk block to .partiri.jsonc; the volume is created and auto-attached on service create/push."@)),
            ("note"@, JsonView::Str("Disk services are single-region only. The $PORT env var must still be used for the listening port."@)),
            (
                "disk_block_example"@,
                JsonView::Obj(
                    seq![
                        (
                            "disk"@,
                            JsonView::Obj(
                                seq![
                                    ("mount_path"@, JsonView::Str("/app/data"@)),
                                    ("size"@, JsonView::Num(decimal_of(5))),
                                ],
                            ),
                        ),
                    ],
                ),
            ),
            ("commands"@, strings_view(strs(EXAMPLE_SERVICE_WITH_PERSISTENT_DISK@))),
        ],
    )
}

fn disk_example() -> (r: Json)
    ensures
        r@ == disk_example_view(),
{
    let disk = Json::object().with("mount_path", Json::str("/app/data")).with(
        "size",
        Json::num(5),
    );
    assert(disk@->Obj_0 =~= seq![
        ("mount_path"@, JsonView::Str("/app/data"@)),
        ("size"@, JsonView::Num(decimal_of(5))),
    ]);
    let block = Json::object().with("disk", disk);
    assert(block@->Obj_0 =~= seq![("disk"@, disk@)]);
    let list = owned(EXAMPLE_SERVICE_WITH_PERSISTENT_DISK.as_slice());
    let r = Json::object().with("name", Json::str("service-with-persistent-disk")).with(
        "description",
        Json::str("Service with a persistent disk. Add a disk block to .partiri.jsonc; the volume is created and auto-attached on service create/push."),
    ).with("note", Json::str("Disk services are single-region only. The $PORT env var must still be used for the listening port.")).with("disk_block_example", block).with(
        "commands",
        Json::strings(&list),
    );
    assert(r@->Obj_0 =~= disk_example_view()->Obj_0);
    r
}

/// The worked examples, in order.
pub open spec fn examples_view() -> Seq<JsonView> {
    seq![
        example_view(
            "node-webservice-public-repo"@,
            "Node.js webservice from a public GitHub repo."@,
            template_of("webservice"@, "node"@, "repo"@),
            strs(EXAMPLE_NODE_WEBSERVICE_PUBLIC_REPO@),
        ),
        example_view(
            "static-site"@,
            "Pre-built static site from a public repo."@,
            template_of("static"@, "static"@, "repo"@),
            strs(EXAMPLE_STATIC_SITE@),
        ),
        example_view(
            "private-registry-image"@,
            "Pre-built Docker image from a private registry. Create a registry secret first, then attach it via fk_service_secret."@,
            template_of("webservice"@, "registry"@, "registry"@),
            strs(EXAMPLE_PRIVATE_REGISTRY_IMAGE@),
        ),
        example_view(
            "private-repo-with-secret"@,
            "Service from a private Git repository. Create a repository secret first, then attach it via fk_service_secret."@,
            template_of("webservice"@, "node"@, "repo"@),
            strs(EXAMPLE_PRIVATE_REPO_WITH_SECRET@),
        ),
        disk_example_view(),
        example_view(
            "rust-private-service"@,
            "Internal Rust service (not exposed publicly)."@,
            template_of("private-service"@, "rust"@, "repo"@),
            strs(EXAMPLE_RUST_PRIVATE_SERVICE@),
        ),
    ]
}

/// `llm examples`: worked examples of common deployments.
pub fn run_examples() -> (r: Json)
    ensures
        r@ == JsonView::Arr(examples_view()),
{
    let mut out: Vec<Json> = Vec::new();
    out.push(
        example(
            "node-webservice-public-repo",
            "Node.js webservice from a public GitHub repo.",
            build_template("webservice", "node", "repo"),
            EXAMPLE_NODE_WEBSERVICE_PUBLIC_REPO.as_slice(),
        ),
    );
    out.push(
        example(
            "static-site",
            "Pre-built static site from a public repo.",
            build_template("static", "static", "repo"),
            EXAMPLE_STATIC_SITE.as_slice(),
        ),
    );
    out.push(
        example(
            "private-registry-image",
            "Pre-built Docker image from a private registry. Create a registry secret first, then attach it via fk_service_secret.",
            build_template("webservice", "registry", "registry"),
            EXAMPLE_PRIVATE_REGISTRY_IMAGE.as_slice(),
        ),
    );
    out.push(
        example(
            "private-repo-with-secret",
            "Service from a private Git repository. Create a repository secret first, then attach it via fk_service_secret.",
            build_template("webservice", "node", "repo"),
            EXAMPLE_PRIVATE_REPO_WITH_SECRET.as_slice(),
        ),
    );
    out.push(disk_example());
    out.push(
        example(
            "rust-private-service",
            "Internal Rust service (not exposed publicly).",
            build_template("private-service", "rust", "repo"),
            EXAMPLE_RUST_PRIVATE_SERVICE.as_slice(),
        ),
    );
    proof {
        array_view(out);
        assert(items_view(out@) =~= examples_view());
    }
    Json::Arr(out)
}

// ─── Commands ──────────────────────────────────────────────────────────────

/// One argument of a command.
#[derive(Debug)]
pub struct ArgInfo {
    pub name: String,
    pub short: Option<String>,
    pub long: Option<String>,
    pub required: bool,
    pub takes_value: bool,
    pub positional: bool,
    pub help: Option<String>,
    pub possible_values: Vec<String>,
}

/// A command with its arguments and subcommands.
#[derive(Debug)]
pub struct CommandTree {
    pub name: String,
    pub about: Option<String>,
    pub args: Vec<ArgInfo>,
    pub subcommands: Vec<CommandTree>,
}

pub open spec fn text_member(key: Seq<char>, o: Option<String>) -> Seq<(Seq<char>, JsonView)> {
    match o {
        Some(s) => seq![(key, JsonView::Str(s@))],
        None => seq![],
    }
}

fn with_text(j: Json, key: &str, o: &Option<String>) -> (r: Json)
    requires
        j@ is Obj,
    ensures
        r@ == JsonView::Obj(j@->Obj_0 + text_member(key@, *o)),
{
    match o {
        Some(s) => {
            assert(j@->Obj_0 + text_member(key@, *o) =~= j@->Obj_0.push((key@, JsonView::Str(s@))));
            j.with(key, Json::str(s.as_str()))
        },
        None => {
            assert(j@->Obj_0 + text_member(key@, *o) =~= j@->Obj_0);
            j
        },
    }
}

/// An argument in JSON. The values that it admits are listed only where it
/// takes one: a switch is not to be given as `--switch=true`.
pub open spec fn arg_members(a: ArgInfo) -> Seq<(Seq<char>, JsonView)> {
    seq![("name"@, JsonView::Str(a.name@))] + text_member("short"@, a.short) + text_member(
        "long"@,
        a.long,
    ) + seq![
        ("required"@, JsonView::Bool(a.required)),
        ("takes_value"@, JsonView::Bool(a.takes_value)),
    ] + text_member("help"@, a.help) + (if a.takes_value && a.possible_values@.len() > 0 {
        seq![("possible_values"@, strings_view(views(a.possible_values@)))]
    } else {
        seq![]
    })
}

fn arg_json(a: &ArgInfo) -> (r: Json)
    ensures
        r@ == JsonView::Obj(arg_members(*a)),
{
    let head = Json::object().with("name", Json::str(a.name.as_str()));
    assert(head@->Obj_0 =~= seq![("name"@, JsonView::Str(a.name@))]);
    let b = with_text(head, "short", &a.short);
    let c = with_text(b, "long", &a.long);
    let ghost upto_long = c@->Obj_0;
    let d = c.with("required", Json::Bool(a.required)).with(
        "takes_value",
        Json::Bool(a.takes_value),
    );
    assert(d@->Obj_0 =~= upto_long + seq![
        ("required"@, JsonView::Bool(a.required)),
        ("takes_value"@, JsonView::Bool(a.takes_value)),
    ]);
    let e = with_text(d, "help", &a.help);
    if a.takes_value && a.possible_values.len() > 0 {
        let list = Json::strings(&a.possible_values);
        assert(arg_members(*a) =~= e@->Obj_0.push(("possible_values"@, list@)));
        e.with("possible_values", list)
    } else {
        assert(arg_members(*a) =~= e@->Obj_0);
        e
    }
}

/// The arguments that are listed: all but a positional `help`.
pub open spec fn is_listed(a: ArgInfo) -> bool {
    !a.positional || a.name@ != "help"@
}

pub open spec fn listed_args(v: Seq<ArgInfo>) -> Seq<JsonView> {
    v.filter(|a: ArgInfo| is_listed(a)).map_values(|a: ArgInfo| JsonView::Obj(arg_members(a)))
}

fn args_json(v: &Vec<ArgInfo>) -> (r: Json)
    ensures
        r@ == JsonView::Arr(listed_args(v@)),
{
    let ghost p = |a: ArgInfo| is_listed(a);
    let ghost f = |a: ArgInfo| JsonView::Obj(arg_members(a));
    let mut out: Vec<Json> = Vec::new();
    assert(v@.take(0).filter(p) =~= seq![]) by {
        reveal(Seq::filter);
    }
    assert(items_view(out@) =~= v@.take(0).filter(p).map_values(f));
    for i in 0..v.len()
        invariant
            p == (|a: ArgInfo| is_listed(a)),
            f == (|a: ArgInfo| JsonView::Obj(arg_members(a))),
            items_view(out@) == v@.take(i as int).filter(p).map_values(f),
    {
        let ghost before = v@.take(i as int).filter(p);
        proof {
            filter_take(v@, i as int, p);
        }
        if !v[i].positional || !str_eq(v[i].name.as_str(), "help") {
            let ghost shown = items_view(out@);
            let item = arg_json(&v[i]);
            out.push(item);
            proof {
                assert(items_view(out@) =~= shown.push(item@));
                assert(before.push(v@[i as int]).map_values(f) =~= before.map_values(f).push(
                    f(v@[i as int]),
                ));
            }
        }
    }
    proof {
        assert(v@.take(v@.len() as int) =~= v@);
        array_view(out);
    }
    Json::Arr(out)
}

/// A command in JSON, with its subcommands where it has any.
pub open spec fn command_view(t: CommandTree) -> JsonView
    decreases t,
{
    let subs = Seq::new(
        t.subcommands.len() as nat,
        |i: int|
            if 0 <= i < t.subcommands.len() {
                command_view(t.subcommands[i])
            } else {
                JsonView::Null
            },
    );
    JsonView::Obj(
        seq![("name"@, JsonView::Str(t.name@))] + text_member("about"@, t.about) + seq![
            ("args"@, JsonView::Arr(listed_args(t.args@))),
        ] + (if t.subcommands.len() > 0 {
            seq![("subcommands"@, JsonView::Arr(subs))]
        } else {
            seq![]
        }),
    )
}

/// A command in JSON, down to its last subcommand.
pub fn walk_command(t: &CommandTree) -> (r: Json)
    ensures
        r@ == command_view(*t),
    decreases t,
{
    let mut subs: Vec<Json> = Vec::new();
    let n: usize = t.subcommands.len();
    for i in 0..n
        invariant
            n == t.subcommands@.len(),
            subs@.len() == i,
            forall|k: int|
                0 <= k < i ==> json_view(#[trigger] subs@[k]) == command_view(t.subcommands@[k]),
        decreases n - i,
    {
        proof {
            assert(decreases_to!(t.subcommands => t.subcommands[i as int]));
        }
        subs.push(walk_command(&t.subcommands[i]));
    }
    let head = Json::object().with("name", Json::str(t.name.as_str()));
    assert(head@->Obj_0 =~= seq![("name"@, JsonView::Str(t.name@))]);
    let b = with_text(head, "about", &t.about);
    let c = b.with("args", args_json(&t.args));
    proof {
        array_view(subs);
    }
    let ghost want = command_view(*t)->Obj_0;
    if n > 0 {
        proof {
            let items = items_view(subs@);
            assert(want =~= c@->Obj_0.push(("subcommands"@, JsonView::Arr(items)))) by {
                assert(items =~= want.last().1->Arr_0);
            }
        }
        c.with("subcommands", Json::Arr(subs))
    } else {
        assert(want =~= c@->Obj_0);
        c
    }
}

/// `llm capabilities`: the whole tree of commands.
pub fn run_capabilities(root: &CommandTree) -> (r: Json)
    ensures
        r@ == command_view(*root),
{
    walk_command(root)
}

/// The first subcommand at or after `from` with a name, or their number.
pub open spec fn sub_index(v: Seq<CommandTree>, name: Seq<char>, from: int) -> int
    decreases v.len() - from,
{
    if from >= v.len() {
        v.len() as int
    } else if v[from].name@ == name {
        from
    } else {
        sub_index(v, name, from + 1)
    }
}

/// The words of a text.
pub open spec fn words_of(s: Seq<char>) -> Seq<Seq<char>>
    decreases s.len(),
{
    if first_word(s).len() == 0 || after_word(s).len() >= s.len() {
        seq![]
    } else {
        seq![first_word(s)] + words_of(after_word(s))
    }
}

/// The command that a path of names leads to.
pub open spec fn command_at(t: CommandTree, path: Seq<Seq<char>>) -> Option<CommandTree>
    decreases path.len(),
{
    if path.len() == 0 {
        Some(t)
    } else {
        let i = sub_index(t.subcommands@, path[0], 0);
        if i < t.subcommands@.len() {
            command_at(t.subcommands@[i], path.drop_first())
        } else {
            None
        }
    }
}

/// The words of a text, in order.
pub fn words(s: &str) -> (r: Vec<String>)
    ensures
        views(r@) == words_of(s@),
{
    let cs = chars_of(s);
    let n: usize = cs.len();
    let mut out: Vec<String> = Vec::new();
    let mut from: usize = 0;
    proof {
        assert(s@.skip(0) =~= s@);
        assert(views(out@) + words_of(s@) =~= words_of(s@));
    }
    loop
        invariant
            cs@ == s@,
            n == cs@.len(),
            from <= n,
            views(out@) + words_of(s@.skip(from as int)) == words_of(s@),
        decreases n - from,
    {
        let (word, end) = crate::auth::take_word(&cs, from);
        let ghost rest = s@.skip(from as int);
        let ghost before = views(out@);
        if word.as_str().is_empty() || end == from {
            proof {
                assert(words_of(rest) =~= seq![]);
                assert(views(out@) + words_of(rest) =~= views(out@));
            }
            return out;
        }
        out.push(word);
        proof {
            assert(views(out@) =~= before.push(word@));
            assert(s@.skip(end as int) == after_word(rest));
            assert(before.push(word@) + words_of(after_word(rest)) =~= before + (seq![word@]
                + words_of(after_word(rest))));
        }
        from = end;
    }
}

fn find_sub(v: &Vec<CommandTree>, name: &str) -> (r: usize)
    ensures
        r as int == sub_index(v@, name@, 0),
        r <= v@.len(),
{
    let mut i: usize = 0;
    while i < v.len() && !str_eq(v[i].name.as_str(), name)
        invariant
            i <= v@.len(),
            sub_index(v@, name@, 0) == sub_index(v@, name@, i as int),
        decreases v@.len() - i,
    {
        i += 1;
    }
    i
}

/// The command that a space-separated path leads to.
pub fn find_subcommand<'a>(root: &'a CommandTree, path: &str) -> (r: Option<&'a CommandTree>)
    ensures
        r is Some <==> command_at(*root, words_of(path@)) is Some,
        r is Some ==> *r->0 == command_at(*root, words_of(path@))->0,
{
    let segments = words(path);
    let ghost all = words_of(path@);
    let mut cur = root;
    let mut i: usize = 0;
    assert(all.skip(0) =~= all);
    while i < segments.len()
        invariant
            i <= segments@.len(),
            all == words_of(path@),
            views(segments@) == all,
            command_at(*root, all) == command_at(*cur, all.skip(i as int)),
        decreases segments@.len() - i,
    {
        proof {
            assert(all[i as int] == segments@[i as int]@);
            assert(all.skip(i as int)[0] == all[i as int]);
            assert(all.skip(i as int).drop_first() =~= all.skip(i + 1));
        }
        let k: usize = find_sub(&cur.subcommands, segments[i].as_str());
        if k == cur.subcommands.len() {
            return None;
        }
        cur = &cur.subcommands[k];
        i += 1;
    }
    assert(all.skip(all.len() as int) =~= seq![]);
    Some(cur)
}

pub const PITFALLS_INIT: [&'static str; 2] = [
    "Refuses to overwrite an existing .partiri.jsonc — delete it first.",
    "Without --template the command requires a TTY (it runs the wizard).",
];

pub const PITFALLS_AUTH: [&'static str; 4] = [
    "`auth login` opens a browser; needs a TTY and a desktop environment. Refuses to run with `--json` or `--no-input`.",
    "`auth set-apikey` is the non-interactive path. Use `--key <KEY>` or pipe the key via `--key-stdin`.",
    "API key must be ≥64 characters; control characters are rejected.",
    "An existing key is preserved unless `--force` is passed (or the user confirms at the TTY prompt).",
];

pub const PITFALLS_AUTH_LOGIN: [&'static str; 4] = [
    "Opens the user's browser to partiri.cloud and binds a one-shot listener on 127.0.0.1.",
    "Refuses to run with `--json` or `--no-input` — agents must use `auth set-apikey` instead.",
    "60-second timeout on the browser callback; on timeout, retry or fall back to `auth set-apikey`.",
    "Override the partiri.cloud URL by setting PARTIRI_WEB_URL (used for staging).",
];

pub const PITFALLS_AUTH_SET_APIKEY: [&'static str; 3] = [
    "Non-interactive: pass `--key <KEY>` or pipe the key via `--key-stdin`.",
    "API key must be ≥64 characters; control characters are rejected.",
    "Refuses to overwrite an existing key without `--force` (or interactive confirmation).",
];

pub const PITFALLS_VALIDATE: [&'static str; 2] = [
    "Without --remote, only static/local checks run.",
    "--remote needs an API key.",
];

pub const PITFALLS_SERVICE_CREATE: [&'static str; 3] = [
    "Requires every fk_* field set in .partiri.jsonc; run validate --remote first.",
    "service.name must be ≤16 chars and unique within the project.",
    "Your service MUST listen on the port given by the $PORT environment variable. The platform injects $PORT at runtime; hard-coding any other port will cause health-check failures.",
];

pub const PITFALLS_SERVICE_DEPLOY: [&'static str; 3] = [
    "Destructive operation — pass -y to skip the confirmation in scripts.",
    "Best-effort refresh of deploy_tag after the job is created — may still be empty if the deploy hasn't completed. Run 'partiri llm next' or 'partiri service pull' to refresh later.",
    "Your service MUST listen on the port given by the $PORT environment variable. Hard-coding a port causes health-check failures.",
];

pub const PITFALLS_SERVICE_PUSH: [&'static str; 3] = [
    "Destructive operation — pass -y to skip the confirmation in non-TTY/script mode.",
    "A disk configuration change (different mount_path or size) is a destructive recreate: the existing volume and ALL its data will be deleted. This requires explicit confirmation; in non-TTY mode you must pass -y.",
    "Removing the disk block detaches the volume but does NOT delete it — data is preserved and billing continues until you run 'partiri storage delete <UUID>'.",
];

pub const PITFALLS_SERVICE_KILL: [&'static str; 1] = [
    "Destructive operation — pass -y to skip the confirmation in scripts.",
];

pub const PITFALLS_SERVICE_PAUSE: [&'static str; 2] = [
    "Destructive operation — pass -y to skip the confirmation in scripts.",
    "Pausing stops billable compute but preserves config; resume with 'service unpause'.",
];

pub const PITFALLS_SERVICE_UNPAUSE: [&'static str; 2] = [
    "Destructive operation — pass -y to skip the confirmation in scripts.",
    "Resumes a paused service. Idempotent if the service is already running.",
];

pub const PITFALLS_SERVICE_LINK: [&'static str; 2] = [
    "--workspace requires --project (projects don't carry across workspaces).",
    "--region requires --pod.",
];

pub const PITFALLS_SERVICE_TOKEN: [&'static str; 1] = [
    "Lists registry secrets when registry_url is set, otherwise repository secrets.",
];

pub const PITFALLS_LLM_CONTEXT: [&'static str; 2] = [
    "One call returns workspaces + their projects/regions/pods/secrets/services.",
    "Pass --workspace <UUID> to scope to one workspace and reduce work.",
];

/// What goes wrong with a command.
pub open spec fn pitfalls_of(command: Seq<char>) -> Seq<Seq<char>> {
    if command == "init"@ {
        strs(PITFALLS_INIT@)
    } else if command == "auth"@ {
        strs(PITFALLS_AUTH@)
    } else if command == "auth login"@ {
        strs(PITFALLS_AUTH_LOGIN@)
    } else if command == "auth set-apikey"@ {
        strs(PITFALLS_AUTH_SET_APIKEY@)
    } else if command == "validate"@ {
        strs(PITFALLS_VALIDATE@)
    } else if command == "service create"@ {
        strs(PITFALLS_SERVICE_CREATE@)
    } else if command == "service deploy"@ {
        strs(PITFALLS_SERVICE_DEPLOY@)
    } else if command == "service push"@ {
        strs(PITFALLS_SERVICE_PUSH@)
    } else if command == "service kill"@ {
        strs(PITFALLS_SERVICE_KILL@)
    } else if command == "service pause"@ {
        strs(PITFALLS_SERVICE_PAUSE@)
    } else if command == "service unpause"@ {
        strs(PITFALLS_SERVICE_UNPAUSE@)
    } else if command == "service link"@ {
        strs(PITFALLS_SERVICE_LINK@)
    } else if command == "service token"@ {
        strs(PITFALLS_SERVICE_TOKEN@)
    } else if command == "llm context"@ {
        strs(PITFALLS_LLM_CONTEXT@)
    } else {
        seq![]
    }
}

pub fn pitfalls_for(command: &str) -> (r: Vec<String>)
    ensures
        views(r@) == pitfalls_of(command@),
{
    if str_eq(command, "init") {
        owned(PITFALLS_INIT.as_slice())
    } else if str_eq(command, "auth") {
        owned(PITFALLS_AUTH.as_slice())
    } else if str_eq(command, "auth login") {
        owned(PITFALLS_AUTH_LOGIN.as_slice())
    } else if str_eq(command, "auth set-apikey") {
        owned(PITFALLS_AUTH_SET_APIKEY.as_slice())
    } else if str_eq(command, "validate") {
        owned(PITFALLS_VALIDATE.as_slice())
    } else if str_eq(command, "service create") {
        owned(PITFALLS_SERVICE_CREATE.as_slice())
    } else if str_eq(command, "service deploy") {
        owned(PITFALLS_SERVICE_DEPLOY.as_slice())
    } else if str_eq(command, "service push") {
        owned(PITFALLS_SERVICE_PUSH.as_slice())
    } else if str_eq(command, "service kill") {
        owned(PITFALLS_SERVICE_KILL.as_slice())
    } else if str_eq(command, "service pause") {
        owned(PITFALLS_SERVICE_PAUSE.as_slice())
    } else if str_eq(command, "service unpause") {
        owned(PITFALLS_SERVICE_UNPAUSE.as_slice())
    } else if str_eq(command, "service link") {
        owned(PITFALLS_SERVICE_LINK.as_slice())
    } else if str_eq(command, "service token") {
        owned(PITFALLS_SERVICE_TOKEN.as_slice())
    } else if str_eq(command, "llm context") {
        owned(PITFALLS_LLM_CONTEXT.as_slice())
    } else {
        list0()
    }
}

/// The error for a command that is not known.
pub open spec fn unknown_command(command: Seq<char>) -> CliErrorView {
    hinted(
        bare("validation"@, "Unknown command '"@ + command + "'."@),
        "Run 'partiri llm capabilities' to list every command."@,
    )
}

/// What is explained of a command.
pub open spec fn explained(command: Seq<char>, t: CommandTree) -> JsonView {
    let subs = Seq::new(
        t.subcommands.len() as nat,
        |i: int| command_view(t.subcommands[i]),
    );
    JsonView::Obj(
        seq![
            ("command"@, JsonView::Str(command)),
            ("description"@, opt_string_view(opt_view(t.about))),
            ("args"@, JsonView::Arr(listed_args(t.args@))),
            (
                "subcommands"@,
                if t.subcommands.len() > 0 {
                    JsonView::Arr(subs)
                } else {
                    JsonView::Null
                },
            ),
            ("pitfalls"@, strings_view(pitfalls_of(command))),
        ],
    )
}

/// `llm explain`: the description, arguments, subcommands and pitfalls of a
/// command.
pub fn run_explain(root: &CommandTree, command: &str) -> (r: Result<Json, Failure>)
    ensures
        match command_at(*root, words_of(command@)) {
            Some(t) => r is Ok && r->Ok_0@ == explained(command@, t),
            None => r is Err && r->Err_0@ == FailureView::Cli(unknown_command(command@)),
        },
{
    let t = match find_subcommand(root, command) {
        Some(t) => t,
        None => {
            let message = cat3("Unknown command '", command, "'.");
            return Err(
                Failure::Cli(
                    CliError::new("validation", message.as_str()).with_hint(
                        "Run 'partiri llm capabilities' to list every command.",
                    ),
                ),
            );
        },
    };
    let subcommands = if t.subcommands.len() > 0 {
        let mut subs: Vec<Json> = Vec::new();
        for i in 0..t.subcommands.len()
            invariant
                subs@.len() == i,
                forall|k: int|
                    0 <= k < i ==> json_view(#[trigger] subs@[k]) == command_view(
                        t.subcommands@[k],
                    ),
        {
            subs.push(walk_command(&t.subcommands[i]));
        }
        proof {
            array_view(subs);
            assert(items_view(subs@) =~= Seq::new(
                t.subcommands.len() as nat,
                |i: int| command_view(t.subcommands[i]),
            ));
        }
        Json::Arr(subs)
    } else {
        Json::Null
    };
    let pitfalls = pitfalls_for(command);
    let info = Json::object().with("command", Json::str(command)).with(
        "description",
        Json::opt(&t.about),
    ).with("args", args_json(&t.args)).with("subcommands", subcommands).with(
        "pitfalls",
        Json::strings(&pitfalls),
    );
    assert(info@->Obj_0 =~= explained(command@, *t)->Obj_0);
    Ok(info)
}

// ─── Errors ────────────────────────────────────────────────────────────────

/// One error code in the catalog.
pub open spec fn entry_view(
    code: Seq<char>,
    meaning: Seq<char>,
    hint: Option<Seq<char>>,
    causes: Seq<Seq<char>>,
    commands: Seq<Seq<char>>,
) -> JsonView {
    JsonView::Obj(
        seq![
            ("code"@, JsonView::Str(code)),
            ("meaning"@, JsonView::Str(meaning)),
            ("hint"@, opt_string_view(hint)),
            ("likely_causes"@, strings_view(causes)),
            ("suggested_commands"@, strings_view(commands)),
        ],
    )
}

fn entry(
    code: &str,
    meaning: &str,
    hint: Option<&str>,
    causes: Vec<String>,
    commands: Vec<String>,
) -> (r: Json)
    ensures
        r@ == entry_view(code@, meaning@, opt_str_view(hint), views(causes@), views(commands@)),
{
    let shown = match hint {
        Some(h) => Json::str(h),
        None => Json::Null,
    };
    let r = Json::object().with("code", Json::str(code)).with("meaning", Json::str(meaning)).with(
        "hint",
        shown,
    ).with("likely_causes", Json::strings(&causes)).with(
        "suggested_commands",
        Json::strings(&commands),
    );
    assert(r@->Obj_0 =~= entry_view(
        code@,
        meaning@,
        opt_str_view(hint),
        views(causes@),
        views(commands@),
    )->Obj_0);
    r
}

/// Every error code, in order.
pub open spec fn catalog_view() -> Seq<JsonView> {
    seq![
        entry_view(
            "400"@,
            "Bad request — config values out of range or wrong type"@,
            Some("Check that your configuration values are valid."@),
            seq!["Configuration values are out of range or wrong type"@],
            seq!["partiri validate"@],
        ),
        entry_view(
            "401"@,
            "Unauthorized"@,
            Some("Your API key may have expired or been revoked. Run 'partiri auth login' to sign in again."@),
            seq!["API key expired or revoked"@, "Wrong PARTIRI_API_URL"@],
            seq!["partiri auth set-apikey --key <K>"@, "partiri llm doctor"@],
        ),
        entry_view(
            "402"@,
            "Insufficient workspace balance"@,
            Some("Top up at https://partiri.cloud/settings/billing"@),
            seq!["Workspace balance is empty"@],
            seq!["partiri llm whoami"@],
        ),
        entry_view(
            "403"@,
            "Permission denied or workspace limit reached"@,
            Some("Your account may lack permission, or a workspace limit has been reached."@),
            seq!["Account lacks permission"@, "Workspace limit reached"@],
            seq!["partiri llm whoami"@],
        ),
        entry_view(
            "404"@,
            "Resource not found"@,
            Some("The resource was not found. It may have been deleted."@),
            seq!["Resource was deleted"@, "Wrong UUID for workspace/project/region/pod"@],
            seq!["partiri llm context"@],
        ),
        entry_view(
            "409"@,
            "Conflict"@,
            Some("A conflicting operation is in progress. Wait for it to finish, then retry."@),
            seq!["Conflicting operation in progress"@],
            seq!["partiri service jobs"@],
        ),
        entry_view(
            "422"@,
            "Invalid request data / schema mismatch"@,
            Some("The request data is invalid. Check your configuration values."@),
            seq!["Invalid request data"@, "Schema mismatch with the API"@],
            seq!["partiri validate --remote"@],
        ),
        entry_view(
            "429"@,
            "Rate limit exceeded"@,
            Some("Wait a moment and try again."@),
            seq!["Rate limit exceeded"@],
            seq![],
        ),
        entry_view(
            "5xx"@,
            "Server-side error"@,
            Some("Try again later, or contact support."@),
            seq!["Transient backend issue"@],
            seq![],
        ),
        entry_view(
            "auth"@,
            "No API key configured locally"@,
            Some("Configure a key via 'partiri auth set-apikey --key <K>'."@),
            seq!["No API key configured"@],
            seq!["partiri auth set-apikey --key <K>"@],
        ),
        entry_view(
            "validation"@,
            "Local config validation failed"@,
            Some("Fix the failing fields, then re-run."@),
            seq![],
            seq!["partiri llm next"@],
        ),
        entry_view(
            "network"@,
            "API host unreachable"@,
            Some("Check connectivity and PARTIRI_API_URL."@),
            seq!["API host unreachable"@, "Wrong PARTIRI_API_URL"@],
            seq!["partiri llm doctor"@],
        ),
        entry_view(
            "config"@,
            "Bad .partiri.jsonc content"@,
            Some("Re-check the file against the schema."@),
            seq![],
            seq!["partiri validate"@],
        ),
        entry_view(
            "cancelled"@,
            "User aborted (Ctrl-C / inquire cancel) — exit code 2"@,
            None,
            seq![],
            seq![],
        ),
        entry_view(
            "missing_dependency"@,
            "A required predecessor wasn't done"@,
            None,
            seq![],
            seq!["partiri llm next"@],
        ),
    ]
}

/// `llm errors`: the catalog of the error codes.
pub fn run_errors() -> (r: Json)
    ensures
        r@ == JsonView::Arr(catalog_view()),
{
    let mut out: Vec<Json> = Vec::new();
    out.push(
        entry(
            "400",
            "Bad request — config values out of range or wrong type",
            Some("Check that your configuration values are valid."),
            list1("Configuration values are out of range or wrong type"),
            list1("partiri validate"),
        ),
    );
    out.push(
        entry(
            "401",
            "Unauthorized",
            Some("Your API key may have expired or been revoked. Run 'partiri auth login' to sign in again."),
            list2("API key expired or revoked", "Wrong PARTIRI_API_URL"),
            list2("partiri auth set-apikey --key <K>", "partiri llm doctor"),
        ),
    );
    out.push(
        entry(
            "402",
            "Insufficient workspace balance",
            Some("Top up at https://partiri.cloud/settings/billing"),
            list1("Workspace balance is empty"),
            list1("partiri llm whoami"),
        ),
    );
    out.push(
        entry(
            "403",
            "Permission denied or workspace limit reached",
            Some("Your account may lack permission, or a workspace limit has been reached."),
            list2("Account lacks permission", "Workspace limit reached"),
            list1("partiri llm whoami"),
        ),
    );
    out.push(
        entry(
            "404",
            "Resource not found",
            Some("The resource was not found. It may have been deleted."),
            list2("Resource was deleted", "Wrong UUID for workspace/project/region/pod"),
            list1("partiri llm context"),
        ),
    );
    out.push(
        entry(
            "409",
            "Conflict",
            Some("A conflicting operation is in progress. Wait for it to finish, then retry."),
            list1("Conflicting operation in progress"),
            list1("partiri service jobs"),
        ),
    );
    out.push(
        entry(
            "422",
            "Invalid request data / schema mismatch",
            Some("The request data is invalid. Check your configuration values."),
            list2("Invalid request data", "Schema mismatch with the API"),
            list1("partiri validate --remote"),
        ),
    );
    out.push(
        entry(
            "429",
            "Rate limit exceeded",
            Some("Wait a moment and try again."),
            list1("Rate limit exceeded"),
            list0(),
        ),
    );
    out.push(
        entry(
            "5xx",
            "Server-side error",
            Some("Try again later, or contact support."),
            list1("Transient backend issue"),
            list0(),
        ),
    );
    out.push(
        entry(
            "auth",
            "No API key configured locally",
            Some("Configure a key via 'partiri auth set-apikey --key <K>'."),
            list1("No API key configured"),
            list1("partiri auth set-apikey --key <K>"),
        ),
    );
    out.push(
        entry(
            "validation",
            "Local config validation failed",
            Some("Fix the failing fields, then re-run."),
            list0(),
            list1("partiri llm next"),
        ),
    );
    out.push(
        entry(
            "network",
            "API host unreachable",
            Some("Check connectivity and PARTIRI_API_URL."),
            list2("API host unreachable", "Wrong PARTIRI_API_URL"),
            list1("partiri llm doctor"),
        ),
    );
    out.push(
        entry(
            "config",
            "Bad .partiri.jsonc content",
            Some("Re-check the file against the schema."),
            list0(),
            list1("partiri validate"),
        ),
    );
    out.push(
        entry(
            "cancelled",
            "User aborted (Ctrl-C / inquire cancel) — exit code 2",
            None,
            list0(),
            list0(),
        ),
    );
    out.push(
        entry(
            "missing_dependency",
            "A required predecessor wasn't done",
            None,
            list0(),
            list1("partiri llm next"),
        ),
    );
    proof {
        array_view(out);
        assert(items_view(out@) =~= catalog_view());
    }
    Json::Arr(out)
}

// ─── Who am I ──────────────────────────────────────────────────────────────

/// The email of the user: that of the first workspace.
pub open spec fn email_of(workspaces: Seq<Workspace>) -> Option<Seq<char>> {
    if workspaces.len() > 0 {
        opt_view(workspaces[0].email)
    } else {
        None
    }
}

pub fn user_email(workspaces: &Vec<Workspace>) -> (r: Option<String>)
    ensures
        opt_view(r) == email_of(workspaces@),
{
    if workspaces.len() > 0 {
        clone_opt(&workspaces[0].email)
    } else {
        None
    }
}

/// `llm whoami`: where the key is, whether there is one, and whose it is.
pub fn run_whoami(
    key_path: &Option<String>,
    key_configured: bool,
    api_url: &Option<String>,
    workspaces: &Vec<Workspace>,
) -> (r: Json)
    ensures
        r@ == JsonView::Obj(
            seq![
                ("key_path"@, JsonView::Str(or_default(*key_path, "<unknown>"@))),
                ("key_configured"@, JsonView::Bool(key_configured)),
                (
                    "api_url"@,
                    JsonView::Str(or_default(*api_url, "https://api.partiri.cloud"@)),
                ),
                ("user_email"@, opt_string_view(email_of(workspaces@))),
                ("workspace_count"@, JsonView::Num(decimal_of(workspaces@.len()))),
            ],
        ),
{
    let email = user_email(workspaces);
    let r = Json::object().with("key_path", Json::str(given_or(key_path, "<unknown>"))).with(
        "key_configured",
        Json::Bool(key_configured),
    ).with("api_url", Json::str(given_or(api_url, "https://api.partiri.cloud"))).with(
        "user_email",
        Json::opt(&email),
    ).with("workspace_count", Json::num(workspaces.len() as u64));
    assert(r@->Obj_0 =~= seq![
        ("key_path"@, JsonView::Str(or_default(*key_path, "<unknown>"@))),
        ("key_configured"@, JsonView::Bool(key_configured)),
        ("api_url"@, JsonView::Str(or_default(*api_url, "https://api.partiri.cloud"@))),
        ("user_email"@, opt_string_view(email_of(workspaces@))),
        ("workspace_count"@, JsonView::Num(decimal_of(workspaces@.len()))),
    ]);
    r
}

// ─── Doctor ────────────────────────────────────────────────────────────────

/// The status of a diagnostic check.
#[derive(Debug, Clone, Copy, PartialEq, Eq, Structural)]
pub enum Health {
    Fine,
    Warn,
    Fail,
}

/// One diagnostic check.
#[derive(Debug)]
pub struct DoctorCheck {
    pub name: String,
    pub status: Health,
    pub message: String,
    pub fix: Option<String>,
}

pub ghost struct CheckView {
    pub name: Seq<char>,
    pub status: Health,
    pub message: Seq<char>,
    pub fix: Option<Seq<char>>,
}

impl View for DoctorCheck {
    type V = CheckView;

    open spec fn view(&self) -> CheckView {
        CheckView {
            name: self.name@,
            status: self.status,
            message: self.message@,
            fix: opt_view(self.fix),
        }
    }
}

pub open spec fn checks_view(v: Seq<DoctorCheck>) -> Seq<CheckView> {
    v.map_values(|c: DoctorCheck| c@)
}

/// Where the credentials are, as far as it could be found out.
#[derive(Debug)]
pub enum Credentials {
    Unknown,
    Missing(String),
    Found(String),
}

/// How the API answered.
#[derive(Debug)]
pub enum ApiProbe {
    /// The client could not be set up: the error.
    NoClient(String),
    /// The call failed: the error.
    CallFailed(String),
    /// So many workspaces are visible.
    Workspaces(usize),
}

/// How the configuration file was found.
#[derive(Debug)]
pub enum ConfigProbe {
    Missing,
    Broken(String),
    Parses,
}

pub open spec fn check_view(
    name: Seq<char>,
    status: Health,
    message: Seq<char>,
    fix: Option<Seq<char>>,
) -> CheckView {
    CheckView { name, status, message, fix }
}

pub open spec fn credentials_check(c: Credentials) -> CheckView {
    let name = "credentials_file"@;
    match c {
        Credentials::Found(p) => check_view(name, Health::Fine, "found at "@ + p@, None),
        Credentials::Missing(p) => check_view(
            name,
            Health::Fail,
            "missing at "@ + p@,
            Some("partiri auth set-apikey --key <KEY>"@),
        ),
        Credentials::Unknown => check_view(
            name,
            Health::Fail,
            "could not determine config directory"@,
            Some("set $HOME or $XDG_CONFIG_HOME"@),
        ),
    }
}

pub open spec fn key_check(loaded: bool) -> CheckView {
    if loaded {
        check_view("key_readable"@, Health::Fine, "key file readable and non-empty"@, None)
    } else {
        check_view(
            "key_readable"@,
            Health::Fail,
            "key not readable or empty"@,
            Some("partiri auth set-apikey --key <KEY>"@),
        )
    }
}

/// The check of the API; it is skipped without a key.
pub open spec fn api_check(loaded: bool, api: ApiProbe) -> CheckView {
    let name = "api_reachable"@;
    if !loaded {
        check_view(name, Health::Warn, "skipped — no API key"@, None)
    } else {
        match api {
            ApiProbe::Workspaces(n) => check_view(
                name,
                Health::Fine,
                "authenticated; "@ + decimal_of(n as nat) + " workspace(s) visible"@,
                None,
            ),
            ApiProbe::CallFailed(e) => check_view(
                name,
                Health::Fail,
                "API call failed: "@ + e@,
                Some("check PARTIRI_API_URL and that the key is valid"@),
            ),
            ApiProbe::NoClient(e) => check_view(
                name,
                Health::Fail,
                "could not construct API client: "@ + e@,
                Some("partiri auth set-apikey --key <KEY>"@),
            ),
        }
    }
}

pub open spec fn config_check(c: ConfigProbe, over: Option<Seq<char>>) -> CheckView {
    let name = "partiri_jsonc"@;
    match c {
        ConfigProbe::Parses => check_view(name, Health::Fine, "found and parses"@, None),
        ConfigProbe::Broken(e) => check_view(
            name,
            Health::Fail,
            "parse error: "@ + e@,
            Some("partiri llm template"@),
        ),
        ConfigProbe::Missing => check_view(
            name,
            Health::Warn,
            "no "@ + config_display_of(over) + " found (not required for top-level commands)"@,
            Some("partiri init --template"@ + config_flag_suffix_of(over)),
        ),
    }
}

/// The four checks.
pub open spec fn doctor_checks(
    credentials: Credentials,
    loaded: bool,
    api: ApiProbe,
    config: ConfigProbe,
    over: Option<Seq<char>>,
) -> Seq<CheckView> {
    seq![
        credentials_check(credentials),
        key_check(loaded),
        api_check(loaded, api),
        config_check(config, over),
    ]
}

fn check(name: &str, status: Health, message: String, fix: Option<&str>) -> (r: DoctorCheck)
    ensures
        r@ == check_view(name@, status, message@, opt_str_view(fix)),
{
    DoctorCheck {
        name: name.to_owned(),
        status,
        message,
        fix: match fix {
            Some(s) => Some(s.to_owned()),
            None => None,
        },
    }
}

/// The error where a check fails.
pub open spec fn doctor_error() -> CliErrorView {
    hinted(
        bare("validation"@, "Doctor reported failing checks."@),
        "See the per-check 'fix' field for the recommended action."@,
    )
}

pub open spec fn some_check_fails(v: Seq<CheckView>) -> bool {
    exists|i: int| 0 <= i < v.len() && (#[trigger] v[i]).status == Health::Fail
}

/// `llm doctor`: the checks of the environment, and the error where one fails.
pub fn run_doctor(
    credentials: &Credentials,
    key_loaded: bool,
    api: &ApiProbe,
    config: &ConfigProbe,
    over: &ConfigOverride,
) -> (r: (Vec<DoctorCheck>, Result<(), Failure>))
    ensures
        ({
            let all = doctor_checks(*credentials, key_loaded, *api, *config, over@);
            &&& checks_view(r.0@) == all
            &&& r.1 is Err <==> some_check_fails(all)
            &&& r.1 is Err ==> r.1->Err_0@ == FailureView::Cli(doctor_error())
        }),
{
    let mut out: Vec<DoctorCheck> = Vec::new();
    let first = match credentials {
        Credentials::Found(p) => check(
            "credentials_file",
            Health::Fine,
            cat2("found at ", p.as_str()),
            None,
        ),
        Credentials::Missing(p) => check(
            "credentials_file",
            Health::Fail,
            cat2("missing at ", p.as_str()),
            Some("partiri auth set-apikey --key <KEY>"),
        ),
        Credentials::Unknown => check(
            "credentials_file",
            Health::Fail,
            "could not determine config directory".to_owned(),
            Some("set $HOME or $XDG_CONFIG_HOME"),
        ),
    };
    out.push(first);
    let second = if key_loaded {
        check(
            "key_readable",
            Health::Fine,
            "key file readable and non-empty".to_owned(),
            None,
        )
    } else {
        check(
            "key_readable",
            Health::Fail,
            "key not readable or empty".to_owned(),
            Some("partiri auth set-apikey --key <KEY>"),
        )
    };
    out.push(second);
    let third = if !key_loaded {
        check("api_reachable", Health::Warn, "skipped — no API key".to_owned(), None)
    } else {
        match api {
            ApiProbe::Workspaces(n) => {
                let count = decimal(*n as u64);
                check(
                    "api_reachable",
                    Health::Fine,
                    cat3("authenticated; ", count.as_str(), " workspace(s) visible"),
                    None,
                )
            },
            ApiProbe::CallFailed(e) => check(
                "api_reachable",
                Health::Fail,
                cat2("API call failed: ", e.as_str()),
                Some("check PARTIRI_API_URL and that the key is valid"),
            ),
            ApiProbe::NoClient(e) => check(
                "api_reachable",
                Health::Fail,
                cat2("could not construct API client: ", e.as_str()),
                Some("partiri auth set-apikey --key <KEY>"),
            ),
        }
    };
    out.push(third);
    let fourth = match config {
        ConfigProbe::Parses => check(
            "partiri_jsonc",
            Health::Fine,
            "found and parses".to_owned(),
            None,
        ),
        ConfigProbe::Broken(e) => check(
            "partiri_jsonc",
            Health::Fail,
            cat2("parse error: ", e.as_str()),
            Some("partiri llm template"),
        ),
        ConfigProbe::Missing => {
            let path = config_display(over);
            let suffix = config_flag_suffix(over);
            let fix = cat2("partiri init --template", suffix.as_str());
            check(
                "partiri_jsonc",
                Health::Warn,
                cat3("no ", path.as_str(), " found (not required for top-level commands)"),
                Some(fix.as_str()),
            )
        },
    };
    out.push(fourth);
    let ghost all = doctor_checks(*credentials, key_loaded, *api, *config, over@);
    assert(checks_view(out@) =~= all);
    let failing = is_failing(&first_status(&out, 0)) || is_failing(&first_status(&out, 1))
        || is_failing(&first_status(&out, 2)) || is_failing(&first_status(&out, 3));
    proof {
        assert(all[0].status == out@[0].status);
        assert(all[1].status == out@[1].status);
        assert(all[2].status == out@[2].status);
        assert(all[3].status == out@[3].status);
    }
    if failing {
        return (
            out,
            Err(
                Failure::Cli(
                    CliError::new("validation", "Doctor reported failing checks.").with_hint(
                        "See the per-check 'fix' field for the recommended action.",
                    ),
                ),
            ),
        );
    }
    (out, Ok(()))
}

fn first_status(v: &Vec<DoctorCheck>, i: usize) -> (r: Health)
    requires
        i < v@.len(),
    ensures
        r == v@[i as int].status,
{
    v[i].status
}

fn is_failing(h: &Health) -> (r: bool)
    ensures
        r == (*h == Health::Fail),
{
    match h {
        Health::Fail => true,
        _ => false,
    }
}

pub open spec fn health_text(h: Health) -> Seq<char> {
    match h {
        Health::Fine => "ok"@,
        Health::Warn => "warn"@,
        Health::Fail => "fail"@,
    }
}

pub open spec fn check_json_of(c: CheckView) -> JsonView {
    JsonView::Obj(
        seq![
            ("name"@, JsonView::Str(c.name)),
            ("status"@, JsonView::Str(health_text(c.status))),
            ("message"@, JsonView::Str(c.message)),
            ("fix"@, opt_string_view(c.fix)),
        ],
    )
}

/// The checks in JSON.
pub fn doctor_json(checks: &Vec<DoctorCheck>) -> (r: Json)
    ensures
        r@ == JsonView::Obj(
            seq![
                (
                    "checks"@,
                    JsonView::Arr(
                        checks_view(checks@).map_values(|c: CheckView| check_json_of(c)),
                    ),
                ),
            ],
        ),
{
    let mut out: Vec<Json> = Vec::new();
    for i in 0..checks.len()
        invariant
            out@.len() == i,
            forall|k: int| 0 <= k < i ==> json_view(#[trigger] out@[k]) == check_json_of(checks@[k]@),
    {
        let c = &checks[i];
        let status = match c.status {
            Health::Fine => "ok",
            Health::Warn => "warn",
            Health::Fail => "fail",
        };
        let item = Json::object().with("name", Json::str(c.name.as_str())).with(
            "status",
            Json::str(status),
        ).with("message", Json::str(c.message.as_str())).with("fix", Json::opt(&c.fix));
        assert(item@->Obj_0 =~= check_json_of(c@)->Obj_0);
        out.push(item);
    }
    let ghost want = checks_view(checks@).map_values(|c: CheckView| check_json_of(c));
    proof {
        array_view(out);
        assert(items_view(out@) =~= want);
    }
    let r = Json::object().with("checks", Json::Arr(out));
    assert(r@->Obj_0 =~= seq![("checks"@, JsonView::Arr(want))]);
    r
}

/// A check as a person sees it: the line, and the line with the fix where
/// there is one.
pub open spec fn check_lines(c: CheckView) -> Seq<Seq<char>> {
    let icon = match c.status {
        Health::Fine => "✓"@,
        Health::Warn => "!"@,
        Health::Fail => "✗"@,
    };
    seq![icon + " "@ + padded(c.name, 22) + " "@ + c.message] + (match c.fix {
        Some(f) => seq!["  fix: "@ + f],
        None => seq![],
    })
}

pub fn doctor_lines(c: &DoctorCheck) -> (r: Vec<String>)
    ensures
        views(r@) == check_lines(c@),
{
    let icon = match c.status {
        Health::Fine => "✓",
        Health::Warn => "!",
        Health::Fail => "✗",
    };
    let mut name = c.name.clone();
    let n: usize = c.name.as_str().unicode_len();
    if n < 22 {
        crate::databases::append_repeated(&mut name, ' ', 22 - n);
    }
    let line = cat5(icon, " ", name.as_str(), " ", c.message.as_str());
    let mut out = list1(line.as_str());
    let ghost first = views(out@);
    match &c.fix {
        Some(f) => {
            out.push(cat2("  fix: ", f.as_str()));
        },
        None => {},
    }
    assert(views(out@) =~= check_lines(c@));
    out
}

// ─── Context ───────────────────────────────────────────────────────────────

/// A price as its JSON number, and with two decimals.
#[derive(Debug)]
pub struct PriceText {
    pub number: String,
    pub shown: String,
}

/// A service and the project that it was listed under.
#[derive(Debug)]
pub struct ProjectService {
    pub fk_project: String,
    pub service: Service,
}

/// All that is known of a workspace. What could not be fetched is empty.
#[derive(Debug)]
pub struct WorkspaceData {
    pub workspace: Workspace,
    pub projects: Vec<Project>,
    pub regions: Vec<Region>,
    pub pods: Vec<Pod>,
    pub registry_secrets: Vec<WorkspaceSecret>,
    pub repository_secrets: Vec<WorkspaceSecret>,
    /// The prices of the first region.
    pub pricing: Option<RegionPricing<PriceText>>,
    /// The balance, as a JSON number.
    pub balance: Option<String>,
    pub services: Vec<ProjectService>,
}

/// All that is known of the workspaces of a user.
#[derive(Debug)]
pub struct ContextData {
    pub user_email: Option<String>,
    pub workspaces: Vec<WorkspaceData>,
}

pub open spec fn workspace_with(id: Seq<char>) -> spec_fn(Workspace) -> bool {
    |w: Workspace| w.id@ == id
}

/// The workspaces to describe: the one that was asked for, or all.
pub fn scoped_workspaces(workspaces: Vec<Workspace>, workspace: Option<&str>) -> (r: Vec<Workspace>)
    ensures
        match opt_str_view(workspace) {
            Some(id) => r@ == workspaces@.filter(workspace_with(id)),
            None => r@ == workspaces@,
        },
{
    match workspace {
        None => workspaces,
        Some(id) => {
            let ghost all = workspaces@;
            let ghost p = workspace_with(id@);
            let mut rest = workspaces;
            let mut out: Vec<Workspace> = Vec::new();
            assert(all.skip(0) =~= all);
            assert(all.take(0).filter(p) =~= seq![]) by {
                reveal(Seq::filter);
            }
            while rest.len() > 0
                invariant
                    p == workspace_with(id@),
                    rest@.len() <= all.len(),
                    rest@ == all.skip(all.len() - rest@.len()),
                    out@ == all.take(all.len() - rest@.len()).filter(p),
                decreases rest@.len(),
            {
                let ghost done = all.len() - rest@.len();
                let w = rest.remove(0);
                proof {
                    assert(w == all[done]);
                    filter_take(all, done, p);
                    assert(rest@ =~= all.skip(done + 1));
                }
                if str_eq(w.id.as_str(), id) {
                    out.push(w);
                }
            }
            assert(all.take(all.len() as int) =~= all);
            out
        },
    }
}

/// The region whose prices are shown beside the pods: the first.
pub fn pricing_region(regions: &Vec<Region>) -> (r: Option<&str>)
    ensures
        opt_str_view(r) == (if regions@.len() > 0 {
            Some(regions@[0].id@)
        } else {
            None
        }),
{
    if regions.len() > 0 {
        Some(regions[0].id.as_str())
    } else {
        None
    }
}

/// The requests for the services of a workspace: one for each project, in
/// their order.
pub fn service_requests(projects: &Vec<Project>) -> (r: Vec<ApiRequest>)
    ensures
        r@.len() == projects@.len(),
        forall|i: int|
            0 <= i < r@.len() ==> (#[trigger] r@[i])@ == query(
                "/services"@,
                seq![
                    ("project"@, projects@[i].id@),
                    ("limit"@, decimal_of(SERVICE_LIMIT as nat)),
                ],
            ),
{
    let mut out: Vec<ApiRequest> = Vec::new();
    for i in 0..projects.len()
        invariant
            out@.len() == i,
            forall|k: int|
                0 <= k < i ==> (#[trigger] out@[k])@ == query(
                    "/services"@,
                    seq![
                        ("project"@, projects@[k].id@),
                        ("limit"@, decimal_of(SERVICE_LIMIT as nat)),
                    ],
                ),
    {
        out.push(ApiClient::list_services(projects[i].id.as_str(), SERVICE_LIMIT));
    }
    out
}

/// The services that a reply lists; a failure lists none.
pub open spec fn replied(reply: Result<Vec<Service>, Failure>) -> Seq<Service> {
    match reply {
        Ok(services) => services@,
        Err(_) => seq![],
    }
}

/// Add the services of a project behind those that are there.
pub fn add_services(
    out: &mut Vec<ProjectService>,
    project: &Project,
    reply: Result<Vec<Service>, Failure>,
)
    ensures
        final(out)@.len() == old(out)@.len() + replied(reply).len(),
        final(out)@.take(old(out)@.len() as int) == old(out)@,
        forall|i: int|
            0 <= i < replied(reply).len() ==> {
                let s = #[trigger] final(out)@[old(out)@.len() + i];
                s.fk_project@ == project.id@ && s.service == replied(reply)[i]
            },
{
    let ghost before = out@;
    if let Ok(services) = reply {
        let ghost all = services@;
        let mut rest = services;
        assert(all.skip(0) =~= all);
        assert(out@.take(before.len() as int) =~= before);
        while rest.len() > 0
            invariant
                rest@.len() <= all.len(),
                rest@ == all.skip(all.len() - rest@.len()),
                out@.len() == before.len() + all.len() - rest@.len(),
                out@.take(before.len() as int) == before,
                forall|i: int|
                    0 <= i < all.len() - rest@.len() ==> {
                        let s = #[trigger] out@[before.len() + i];
                        s.fk_project@ == project.id@ && s.service == all[i]
                    },
            decreases rest@.len(),
        {
            let ghost done = all.len() - rest@.len();
            let ghost had = out@;
            let service = rest.remove(0);
            assert(service == all[done]);
            assert(rest@ =~= all.skip(done + 1));
            out.push(ProjectService { fk_project: project.id.clone(), service });
            assert(out@.take(before.len() as int) =~= had.take(before.len() as int));
        }
    } else {
        assert(out@.take(before.len() as int) =~= before);
    }
}

pub open spec fn project_json_of(p: Project) -> JsonView {
    JsonView::Obj(
        seq![
            ("id"@, JsonView::Str(p.id@)),
            ("name"@, JsonView::Str(p.name@)),
            ("environment"@, JsonView::Str(p.environment@)),
        ],
    )
}

pub open spec fn region_json_of(x: Region) -> JsonView {
    JsonView::Obj(
        seq![
            ("id"@, JsonView::Str(x.id@)),
            ("name"@, JsonView::Str(x.name@)),
            ("label"@, opt_string_view(opt_view(x.label))),
            ("country_code"@, opt_string_view(opt_view(x.country_code))),
        ],
    )
}

/// The price of a pod, where it has one.
pub open spec fn pod_price_of(pricing: Option<RegionPricing<PriceText>>, id: Seq<char>) -> Option<
    PriceText,
> {
    match pricing {
        Some(pr) => match first_item(pr.pods@, price_of_pod(id)) {
            Some(p) => Some(p.price),
            None => None,
        },
        None => None,
    }
}

pub open spec fn price_json(p: Option<PriceText>) -> JsonView {
    match p {
        Some(t) => JsonView::Num(t.number@),
        None => JsonView::Null,
    }
}

pub open spec fn pod_json_of(p: Pod, pricing: Option<RegionPricing<PriceText>>) -> JsonView {
    JsonView::Obj(
        seq![
            ("id"@, JsonView::Str(p.id@)),
            ("name"@, JsonView::Str(p.name@)),
            ("label"@, opt_string_view(opt_view(p.label))),
            ("cpu"@, opt_string_view(opt_view(p.cpu))),
            ("ram"@, opt_string_view(opt_view(p.ram))),
            ("price_eur_month"@, price_json(pod_price_of(pricing, p.id@))),
        ],
    )
}

pub open spec fn listed_service_json(s: ProjectService) -> JsonView {
    JsonView::Obj(
        seq![
            ("id"@, JsonView::Str(s.service.id@)),
            ("name"@, JsonView::Str(s.service.name@)),
            ("fk_project"@, JsonView::Str(s.fk_project@)),
            ("fk_region"@, opt_string_view(primary_region_of(s.service))),
            ("fk_pod"@, opt_string_view(opt_view(s.service.fk_pod))),
            ("deploy_type"@, JsonView::Str(s.service.deploy_type@)),
            ("runtime"@, JsonView::Str(s.service.runtime@)),
        ],
    )
}

pub open spec fn volume_price_json(pricing: Option<RegionPricing<PriceText>>) -> JsonView {
    match pricing {
        Some(pr) => JsonView::Num(pr.volume_price_per_gb.number@),
        None => JsonView::Null,
    }
}

pub open spec fn balance_json(b: Option<String>) -> JsonView {
    match b {
        Some(s) => JsonView::Num(s@),
        None => JsonView::Null,
    }
}

/// A workspace in JSON.
pub open spec fn workspace_json_of(w: WorkspaceData) -> JsonView {
    JsonView::Obj(
        seq![
            ("id"@, JsonView::Str(w.workspace.id@)),
            ("name"@, JsonView::Str(w.workspace.name@)),
            ("email"@, opt_string_view(opt_view(w.workspace.email))),
            ("projects"@, JsonView::Arr(w.projects@.map_values(|p: Project| project_json_of(p)))),
            ("regions"@, JsonView::Arr(w.regions@.map_values(|x: Region| region_json_of(x)))),
            ("pods"@, JsonView::Arr(w.pods@.map_values(|p: Pod| pod_json_of(p, w.pricing)))),
            ("volume_price_per_gb"@, volume_price_json(w.pricing)),
            ("balance_eur"@, balance_json(w.balance)),
            ("registry_secrets"@, secrets_array(w.registry_secrets@)),
            ("repository_secrets"@, secrets_array(w.repository_secrets@)),
            (
                "services"@,
                JsonView::Arr(w.services@.map_values(|s: ProjectService| listed_service_json(s))),
            ),
        ],
    )
}

/// The whole context in JSON.
pub open spec fn context_json_of(c: ContextData) -> JsonView {
    JsonView::Obj(
        seq![
            (
                "user"@,
                JsonView::Obj(seq![("email"@, opt_string_view(opt_view(c.user_email)))]),
            ),
            (
                "workspaces"@,
                JsonView::Arr(c.workspaces@.map_values(|w: WorkspaceData| workspace_json_of(w))),
            ),
        ],
    )
}

fn projects_json(v: &Vec<Project>) -> (r: Json)
    ensures
        r@ == JsonView::Arr(v@.map_values(|p: Project| project_json_of(p))),
{
    let mut out: Vec<Json> = Vec::new();
    for i in 0..v.len()
        invariant
            out@.len() == i,
            forall|k: int| 0 <= k < i ==> json_view(#[trigger] out@[k]) == project_json_of(v@[k]),
    {
        let p = &v[i];
        let item = Json::object().with("id", Json::str(p.id.as_str())).with(
            "name",
            Json::str(p.name.as_str()),
        ).with("environment", Json::str(p.environment.as_str()));
        assert(item@->Obj_0 =~= project_json_of(*p)->Obj_0);
        out.push(item);
    }
    proof {
        array_view(out);
        assert(items_view(out@) =~= v@.map_values(|p: Project| project_json_of(p)));
    }
    Json::Arr(out)
}

fn regions_json(v: &Vec<Region>) -> (r: Json)
    ensures
        r@ == JsonView::Arr(v@.map_values(|x: Region| region_json_of(x))),
{
    let mut out: Vec<Json> = Vec::new();
    for i in 0..v.len()
        invariant
            out@.len() == i,
            forall|k: int| 0 <= k < i ==> json_view(#[trigger] out@[k]) == region_json_of(v@[k]),
    {
        let x = &v[i];
        let item = Json::object().with("id", Json::str(x.id.as_str())).with(
            "name",
            Json::str(x.name.as_str()),
        ).with("label", Json::opt(&x.label)).with("country_code", Json::opt(&x.country_code));
        assert(item@->Obj_0 =~= region_json_of(*x)->Obj_0);
        out.push(item);
    }
    proof {
        array_view(out);
        assert(items_view(out@) =~= v@.map_values(|x: Region| region_json_of(x)));
    }
    Json::Arr(out)
}

/// The price of a pod, where it has one.
pub fn find_price<'a>(pricing: &'a Option<RegionPricing<PriceText>>, id: &str) -> (r: Option<
    &'a PriceText,
>)
    ensures
        r is Some <==> pod_price_of(*pricing, id@) is Some,
        r is Some ==> *r->0 == pod_price_of(*pricing, id@)->0,
{
    match pricing {
        Some(pr) => {
            let ghost p = price_of_pod::<PriceText>(id@);
            let mut i: usize = 0;
            while i < pr.pods.len()
                invariant
                    i <= pr.pods@.len(),
                    *pricing == Some(*pr),
                    p == price_of_pod::<PriceText>(id@),
                    first_where(pr.pods@, p, 0) == first_where(pr.pods@, p, i as int),
                decreases pr.pods@.len() - i,
            {
                if str_eq(pr.pods[i].fk_pod.as_str(), id) {
                    assert(p(pr.pods@[i as int]));
                    return Some(&pr.pods[i].price);
                }
                assert(!p(pr.pods@[i as int]));
                i += 1;
            }
            None
        },
        None => None,
    }
}

fn pods_json(v: &Vec<Pod>, pricing: &Option<RegionPricing<PriceText>>) -> (r: Json)
    ensures
        r@ == JsonView::Arr(v@.map_values(|p: Pod| pod_json_of(p, *pricing))),
{
    let mut out: Vec<Json> = Vec::new();
    for i in 0..v.len()
        invariant
            out@.len() == i,
            forall|k: int|
                0 <= k < i ==> json_view(#[trigger] out@[k]) == pod_json_of(v@[k], *pricing),
    {
        let p = &v[i];
        let price = match find_price(pricing, p.id.as_str()) {
            Some(t) => Json::Num(t.number.clone()),
            None => Json::Null,
        };
        let item = Json::object().with("id", Json::str(p.id.as_str())).with(
            "name",
            Json::str(p.name.as_str()),
        ).with("label", Json::opt(&p.label)).with("cpu", Json::opt(&p.cpu)).with(
            "ram",
            Json::opt(&p.ram),
        ).with("price_eur_month", price);
        assert(item@->Obj_0 =~= pod_json_of(*p, *pricing)->Obj_0);
        out.push(item);
    }
    proof {
        array_view(out);
        assert(items_view(out@) =~= v@.map_values(|p: Pod| pod_json_of(p, *pricing)));
    }
    Json::Arr(out)
}

fn secret_list_json(v: &Vec<WorkspaceSecret>) -> (r: Json)
    ensures
        r@ == secrets_array(v@),
{
    let mut out: Vec<Json> = Vec::new();
    for i in 0..v.len()
        invariant
            out@.len() == i,
            forall|k: int| 0 <= k < i ==> json_view(#[trigger] out@[k]) == secret_json_of(v@[k]),
    {
        out.push(secret_json(&v[i]));
    }
    proof {
        array_view(out);
        assert(items_view(out@) =~= secrets_array(v@)->Arr_0);
    }
    Json::Arr(out)
}

fn listed_services_json(v: &Vec<ProjectService>) -> (r: Json)
    ensures
        r@ == JsonView::Arr(v@.map_values(|s: ProjectService| listed_service_json(s))),
{
    let mut out: Vec<Json> = Vec::new();
    for i in 0..v.len()
        invariant
            out@.len() == i,
            forall|k: int|
                0 <= k < i ==> json_view(#[trigger] out@[k]) == listed_service_json(v@[k]),
    {
        let s = &v[i];
        let region = match s.service.primary_region() {
            Some(x) => Json::str(x),
            None => Json::Null,
        };
        let item = Json::object().with("id", Json::str(s.service.id.as_str())).with(
            "name",
            Json::str(s.service.name.as_str()),
        ).with("fk_project", Json::str(s.fk_project.as_str())).with("fk_region", region).with(
            "fk_pod",
            Json::opt(&s.service.fk_pod),
        ).with("deploy_type", Json::str(s.service.deploy_type.as_str())).with(
            "runtime",
            Json::str(s.service.runtime.as_str()),
        );
        assert(item@->Obj_0 =~= listed_service_json(*s)->Obj_0);
        out.push(item);
    }
    proof {
        array_view(out);
        assert(items_view(out@) =~= v@.map_values(|s: ProjectService| listed_service_json(s)));
    }
    Json::Arr(out)
}

fn workspace_json(w: &WorkspaceData) -> (r: Json)
    ensures
        r@ == workspace_json_of(*w),
{
    let volume_price = match &w.pricing {
        Some(pr) => Json::Num(pr.volume_price_per_gb.number.clone()),
        None => Json::Null,
    };
    let balance = match &w.balance {
        Some(s) => Json::Num(s.clone()),
        None => Json::Null,
    };
    let r = Json::object().with("id", Json::str(w.workspace.id.as_str())).with(
        "name",
        Json::str(w.workspace.name.as_str()),
    ).with("email", Json::opt(&w.workspace.email)).with("projects", projects_json(&w.projects)).with(
        "regions",
        regions_json(&w.regions),
    ).with("pods", pods_json(&w.pods, &w.pricing)).with(
        "volume_price_per_gb",
        volume_price,
    ).with("balance_eur", balance).with(
        "registry_secrets",
        secret_list_json(&w.registry_secrets),
    ).with("repository_secrets", secret_list_json(&w.repository_secrets)).with(
        "services",
        listed_services_json(&w.services),
    );
    assert(r@->Obj_0 =~= workspace_json_of(*w)->Obj_0);
    r
}

/// `llm context`: everything that the key can see, in one value.
pub fn run_context(c: &ContextData) -> (r: Json)
    ensures
        r@ == context_json_of(*c),
{
    let mut list: Vec<Json> = Vec::new();
    for i in 0..c.workspaces.len()
        invariant
            list@.len() == i,
            forall|k: int|
                0 <= k < i ==> json_view(#[trigger] list@[k]) == workspace_json_of(
                    c.workspaces@[k],
                ),
    {
        list.push(workspace_json(&c.workspaces[i]));
    }
    proof {
        array_view(list);
        assert(items_view(list@) =~= c.workspaces@.map_values(
            |w: WorkspaceData| workspace_json_of(w),
        ));
    }
    let user = Json::object().with("email", Json::opt(&c.user_email));
    assert(user@->Obj_0 =~= seq![("email"@, opt_string_view(opt_view(c.user_email)))]);
    let r = Json::object().with("user", user).with("workspaces", Json::Arr(list));
    assert(r@->Obj_0 =~= context_json_of(*c)->Obj_0);
    r
}

// ─── Next step ─────────────────────────────────────────────────────────────

/// What to do next, and why.
#[derive(Debug)]
pub struct Advice {
    pub state: String,
    pub next_command: String,
    pub rationale: String,
}

pub ghost struct AdviceView {
    pub state: Seq<char>,
    pub next_command: Seq<char>,
    pub rationale: Seq<char>,
}

impl View for Advice {
    type V = AdviceView;

    open spec fn view(&self) -> AdviceView {
        AdviceView {
            state: self.state@,
            next_command: self.next_command@,
            rationale: self.rationale@,
        }
    }
}

pub open spec fn advice_view(state: Seq<char>, next: Seq<char>, why: Seq<char>) -> AdviceView {
    AdviceView { state, next_command: next, rationale: why }
}

fn advice(state: &str, next_command: &str, rationale: &str) -> (r: Advice)
    ensures
        r@ == advice_view(state@, next_command@, rationale@),
{
    Advice {
        state: state.to_owned(),
        next_command: next_command.to_owned(),
        rationale: rationale.to_owned(),
    }
}

pub open spec fn is_deploy(j: Job) -> bool {
    j.job_type@ == "deploy"@
}

/// The status of the latest deploy among some jobs.
pub open spec fn latest_deploy(jobs: Option<Vec<Job>>) -> Option<Seq<char>> {
    match jobs {
        Some(v) => {
            let deploys = newest_first(v@.filter(|j: Job| is_deploy(j)));
            if deploys.len() > 0 {
                Some(deploys[0].status@)
            } else {
                None
            }
        },
        None => None,
    }
}

/// Whether one of the references is still empty.
pub open spec fn lacks_ids(c: PartiriConfig) -> bool {
    c.fk_workspace@.len() == 0 || c.fk_project@.len() == 0 || c.service.fk_region@.len() == 0
        || c.service.fk_pod@.len() == 0
}

/// Whether the jobs of the service decide: it exists and has no deploy tag.
pub open spec fn jobs_decide(c: PartiriConfig) -> bool {
    !lacks_ids(c) && c.id is Some && c.deploy_tag is None
}

/// What to do next with a configuration, given the status of the latest deploy
/// where the jobs could be fetched.
pub open spec fn state_of(c: PartiriConfig, latest: Option<Seq<char>>, over: Option<Seq<char>>) -> AdviceView {
    let suffix = config_flag_suffix_of(over);
    let never = advice_view(
        "needs_deploy"@,
        "partiri -j -y service deploy"@ + suffix,
        "Service is registered but never deployed. Trigger a deploy."@,
    );
    if lacks_ids(c) {
        advice_view(
            "needs_uuids"@,
            "partiri -j llm context"@,
            "One or more fk_* fields are empty. Fetch the UUIDs and edit the file."@,
        )
    } else if c.id is None {
        advice_view(
            "needs_create"@,
            "partiri -j validate --remote"@ + suffix + " && partiri -j -y service create"@ + suffix,
            "Config looks ready. Validate against the API, then register the service."@,
        )
    } else if c.deploy_tag is Some {
        advice_view(
            "deployed"@,
            "partiri -j service jobs"@ + suffix,
            "Service is deployed. Inspect jobs/logs/metrics from here."@,
        )
    } else {
        match latest {
            Some(s) => if s == "succeeded"@ {
                advice_view(
                    "deployed"@,
                    "partiri service pull"@ + suffix,
                    "A deploy job succeeded but deploy_tag is not yet set in "@ + config_display_of(
                        over,
                    ) + " — refresh from the API."@,
                )
            } else if s == "in_progress"@ || s == "open"@ {
                advice_view(
                    "deploying"@,
                    "partiri -j service jobs"@ + suffix,
                    "A deploy job is in progress. Watch the job status."@,
                )
            } else if s == "failed"@ || s == "timed_out"@ {
                advice_view(
                    "deploy_failed"@,
                    "partiri -j service jobs"@ + suffix,
                    "The most recent deploy job ended with status '"@ + s
                        + "'. Inspect jobs/logs."@,
                )
            } else {
                never
            },
            None => never,
        }
    }
}

/// Whether the jobs of the service are needed to say what to do next.
pub fn needs_jobs(cfg: &PartiriConfig) -> (r: bool)
    ensures
        r == jobs_decide(*cfg),
{
    !(cfg.fk_workspace.as_str().is_empty() || cfg.fk_project.as_str().is_empty()
        || cfg.service.fk_region.as_str().is_empty() || cfg.service.fk_pod.as_str().is_empty())
        && cfg.id.is_some() && cfg.deploy_tag.is_none()
}

fn latest_status(jobs: Option<Vec<Job>>) -> (r: Option<String>)
    ensures
        opt_view(r) == latest_deploy(jobs),
{
    match jobs {
        None => None,
        Some(v) => {
            let ghost all = v@;
            let ghost p = |j: Job| is_deploy(j);
            let mut rest = v;
            let mut deploys: Vec<Job> = Vec::new();
            assert(all.skip(0) =~= all);
            assert(all.take(0).filter(p) =~= seq![]) by {
                reveal(Seq::filter);
            }
            while rest.len() > 0
                invariant
                    p == (|j: Job| is_deploy(j)),
                    rest@.len() <= all.len(),
                    rest@ == all.skip(all.len() - rest@.len()),
                    deploys@ == all.take(all.len() - rest@.len()).filter(p),
                decreases rest@.len(),
            {
                let ghost done = all.len() - rest@.len();
                let j = rest.remove(0);
                proof {
                    assert(j == all[done]);
                    filter_take(all, done, p);
                    assert(rest@ =~= all.skip(done + 1));
                }
                if str_eq(j.job_type.as_str(), "deploy") {
                    deploys.push(j);
                }
            }
            assert(all.take(all.len() as int) =~= all);
            let sorted = sort_newest_first(deploys);
            if sorted.len() > 0 {
                Some(sorted[0].status.clone())
            } else {
                None
            }
        },
    }
}

/// What to do next with a configuration that loads, given the jobs of the
/// service where they could be fetched.
pub fn deduce_state(cfg: &PartiriConfig, jobs: Option<Vec<Job>>, over: &ConfigOverride) -> (r:
    Advice)
    ensures
        r@ == state_of(*cfg, latest_deploy(jobs), over@),
{
    let suffix = config_flag_suffix(over);
    let s = suffix.as_str();
    if cfg.fk_workspace.as_str().is_empty() || cfg.fk_project.as_str().is_empty()
        || cfg.service.fk_region.as_str().is_empty() || cfg.service.fk_pod.as_str().is_empty() {
        return advice(
            "needs_uuids",
            "partiri -j llm context",
            "One or more fk_* fields are empty. Fetch the UUIDs and edit the file.",
        );
    }
    if cfg.id.is_none() {
        let next = cat4(
            "partiri -j validate --remote",
            s,
            " && partiri -j -y service create",
            s,
        );
        return advice(
            "needs_create",
            next.as_str(),
            "Config looks ready. Validate against the API, then register the service.",
        );
    }
    if cfg.deploy_tag.is_some() {
        let next = cat2("partiri -j service jobs", s);
        return advice(
            "deployed",
            next.as_str(),
            "Service is deployed. Inspect jobs/logs/metrics from here.",
        );
    }
    match latest_status(jobs) {
        Some(status) => {
            let st = status.as_str();
            if str_eq(st, "succeeded") {
                let next = cat2("partiri service pull", s);
                let path = config_display(over);
                let why = cat3(
                    "A deploy job succeeded but deploy_tag is not yet set in ",
                    path.as_str(),
                    " — refresh from the API.",
                );
                return advice("deployed", next.as_str(), why.as_str());
            }
            if str_eq(st, "in_progress") || str_eq(st, "open") {
                let next = cat2("partiri -j service jobs", s);
                return advice(
                    "deploying",
                    next.as_str(),
                    "A deploy job is in progress. Watch the job status.",
                );
            }
            if str_eq(st, "failed") || str_eq(st, "timed_out") {
                let next = cat2("partiri -j service jobs", s);
                let why = cat3(
                    "The most recent deploy job ended with status '",
                    st,
                    "'. Inspect jobs/logs.",
                );
                return advice("deploy_failed", next.as_str(), why.as_str());
            }
        },
        None => {},
    }
    let next = cat2("partiri -j -y service deploy", s);
    advice(
        "needs_deploy",
        next.as_str(),
        "Service is registered but never deployed. Trigger a deploy.",
    )
}

/// How the configuration stands when the next step is looked for.
#[derive(Debug)]
pub enum NextConfig {
    /// There is no file.
    Missing,
    /// The file does not load: the error.
    Broken(String),
    /// The configuration, and the jobs of its service where they could be
    /// fetched.
    Loaded(PartiriConfig, Option<Vec<Job>>),
}

/// What to do next: sign in, write a configuration, mend it, or go on with it.
pub open spec fn next_of(key_configured: bool, config: NextConfig, over: Option<Seq<char>>) -> AdviceView {
    let suffix = config_flag_suffix_of(over);
    if !key_configured {
        advice_view(
            "needs_auth"@,
            "partiri auth set-apikey --key <KEY>"@,
            "No API key configured. Run `partiri auth login` if you have a TTY+browser, or `partiri auth set-apikey --key <KEY>` for non-interactive setups."@,
        )
    } else {
        match config {
            NextConfig::Missing => advice_view(
                "needs_init"@,
                "partiri init --template"@ + suffix,
                "No "@ + config_display_of(over)
                    + " found. Write a template, then fill it in."@,
            ),
            NextConfig::Broken(e) => advice_view(
                "config_broken"@,
                "partiri validate"@ + suffix,
                "Existing "@ + config_display_of(over) + " fails to parse: "@ + e@
                    + ". Fix the file."@,
            ),
            NextConfig::Loaded(c, jobs) => state_of(c, latest_deploy(jobs), over),
        }
    }
}

/// `llm next`: the one command to run next.
pub fn run_next(key_configured: bool, config: NextConfig, over: &ConfigOverride) -> (r: Advice)
    ensures
        r@ == next_of(key_configured, config, over@),
{
    if !key_configured {
        return advice(
            "needs_auth",
            "partiri auth set-apikey --key <KEY>",
            "No API key configured. Run `partiri auth login` if you have a TTY+browser, or `partiri auth set-apikey --key <KEY>` for non-interactive setups.",
        );
    }
    let suffix = config_flag_suffix(over);
    let path = config_display(over);
    match config {
        NextConfig::Missing => {
            let next = cat2("partiri init --template", suffix.as_str());
            let why = cat3(
                "No ",
                path.as_str(),
                " found. Write a template, then fill it in.",
            );
            advice("needs_init", next.as_str(), why.as_str())
        },
        NextConfig::Broken(e) => {
            let next = cat2("partiri validate", suffix.as_str());
            let why = cat5(
                "Existing ",
                path.as_str(),
                " fails to parse: ",
                e.as_str(),
                ". Fix the file.",
            );
            advice("config_broken", next.as_str(), why.as_str())
        },
        NextConfig::Loaded(c, jobs) => deduce_state(&c, jobs, over),
    }
}

/// The advice in JSON.
pub fn advice_json(a: &Advice) -> (r: Json)
    ensures
        r@ == JsonView::Obj(
            seq![
                ("state"@, JsonView::Str(a@.state)),
                ("next_command"@, JsonView::Str(a@.next_command)),
                ("rationale"@, JsonView::Str(a@.rationale)),
            ],
        ),
{
    let r = Json::object().with("state", Json::str(a.state.as_str())).with(
        "next_command",
        Json::str(a.next_command.as_str()),
    ).with("rationale", Json::str(a.rationale.as_str()));
    assert(r@->Obj_0 =~= seq![
        ("state"@, JsonView::Str(a@.state)),
        ("next_command"@, JsonView::Str(a@.next_command)),
        ("rationale"@, JsonView::Str(a@.rationale)),
    ]);
    r
}

// ─── Laws ──────────────────────────────────────────────────────────────────

/// The advice depends on the jobs only where the service exists, every
/// reference is there, and no deploy tag is known.
pub proof fn jobs_matter_only_when_asked_for(
    c: PartiriConfig,
    a: Option<Seq<char>>,
    b: Option<Seq<char>>,
    over: Option<Seq<char>>,
)
    requires
        !jobs_decide(c),
    ensures
        state_of(c, a, over) == state_of(c, b, over),
{
}

/// A missing configuration is never a failing check, and neither is an API
/// that was not asked for want of a key.
pub proof fn missing_config_only_warns(over: Option<Seq<char>>, api: ApiProbe)
    ensures
        config_check(ConfigProbe::Missing, over).status == Health::Warn,
        api_check(false, api).status == Health::Warn,
{
}

/// The configuration that a template spells out: what stands in it under each
/// key, and nothing under the keys that are commented out.
pub open spec fn is_templated(
    c: PartiriConfig,
    deploy_type: Seq<char>,
    runtime: Seq<char>,
    source: Seq<char>,
) -> bool {
    let s = c.service;
    let registry = source == "registry"@;
    &&& c.id is None
    &&& c.deploy_tag is None
    &&& c.fk_workspace@ == "<workspace UUID — run 'partiri -j llm context' to discover>"@
    &&& c.fk_project@ == "<project UUID — same source>"@
    &&& s.name@ == "my-service"@
    &&& s.deploy_type@ == deploy_type
    &&& s.runtime@ == runtime
    &&& s.root_path@ == "."@
    &&& opt_view(s.repository_url) == if registry {
        None
    } else {
        Some("https://github.com/your-org/your-repo.git"@)
    }
    &&& opt_view(s.repository_branch) == if registry {
        None
    } else {
        Some("main"@)
    }
    &&& opt_view(s.registry_url) == if registry {
        Some("registry.example.com/your-org/your-image:tag"@)
    } else {
        None
    }
    &&& s.fk_service_secret is None
    &&& s.build_path is None
    &&& opt_view(s.build_command) == if registry {
        None
    } else {
        Some(commands_for(runtime).0)
    }
    &&& s.pre_deploy_command is None
    &&& opt_view(s.run_command) == if registry || deploy_type == "static"@ {
        None
    } else {
        Some(commands_for(runtime).1)
    }
    &&& s.fk_region@ == "<region UUID>"@
    &&& s.fk_pod@ == "<pod UUID>"@
    &&& s.health_check_path is None
    &&& !s.maintenance_mode
    &&& s.active
    &&& s.disk is None
    &&& s.env is None
}

/// The text with the values of a configuration in the places of a template.
pub open spec fn spelled_out(c: PartiriConfig) -> Seq<char> {
    let s = c.service;
    TEMPLATE_DEPLOY_TYPE@ + s.deploy_type@ + TEMPLATE_RUNTIME@ + s.runtime@ + TEMPLATE_SOURCE@ + (
    if s.registry_url is Some {
        TEMPLATE_REGISTRY@
    } else {
        TEMPLATE_REPOSITORY@
    }) + TEMPLATE_BUILD@ + (match s.build_command {
        Some(v) => "    \"build_command\": \""@ + v@ + "\","@,
        None => NO_BUILD_LINE@,
    }) + TEMPLATE_RUN@ + (match s.run_command {
        Some(v) => "    \"run_command\": \""@ + v@ + "\","@,
        None => if s.deploy_type@ == "static"@ {
            STATIC_RUN_LINE@
        } else {
            REGISTRY_RUN_LINE@
        },
    }) + TEMPLATE_END@
}

/// Which templates pass every check as they are: those of a known deploy type
/// and runtime, but for a static site from a registry and for a runtime that
/// has no commands to build and start a repository with.
pub proof fn template_validity(
    c: PartiriConfig,
    deploy_type: Seq<char>,
    runtime: Seq<char>,
    source: Seq<char>,
)
    requires
        is_templated(c, deploy_type, runtime, source),
    ensures
        template_of(deploy_type, runtime, source) == spelled_out(c),
        is_valid(c) <==> {
            &&& known_deploy_type(deploy_type)
            &&& known_runtime(runtime)
            &&& if source == "registry"@ {
                deploy_type != "static"@
            } else {
                runtime != "registry"@ && (runtime == "static"@ ==> deploy_type == "static"@)
            }
        },
{
    valid_config_meaning(c);
    template_literals();
    known_types_run(deploy_type);
    if known_runtime(runtime) {
        known_commands(runtime);
    }
}

proof fn template_literals()
    ensures
        "my-service"@.len() == 10,
        "."@.len() == 1,
        "<region UUID>"@.len() == 13,
        "<pod UUID>"@.len() == 10,
        "main"@.len() == 4,
        "https://github.com/your-org/your-repo.git"@.len() > 0,
        "registry.example.com/your-org/your-image:tag"@.len() > 0,
{
    reveal_strlit("my-service");
    reveal_strlit(".");
    reveal_strlit("<region UUID>");
    reveal_strlit("<pod UUID>");
    reveal_strlit("main");
    reveal_strlit("https://github.com/your-org/your-repo.git");
    reveal_strlit("registry.example.com/your-org/your-image:tag");
}

/// A known deploy type is static or runs a process, and not both.
proof fn known_types_run(deploy_type: Seq<char>)
    ensures
        known_deploy_type(deploy_type) ==> (deploy_type == "static"@ <==> !runs_a_process(
            deploy_type,
        )),
        known_deploy_type("static"@),
{
    let list = strs(DEPLOY_TYPES@);
    assert(list[0] == "webservice"@);
    assert(list[1] == "static"@);
    assert(list[2] == "private-service"@);
    assert(list[3] == "worker"@);
    reveal_strlit("static");
    reveal_strlit("webservice");
    reveal_strlit("private-service");
    reveal_strlit("worker");
    assert("static"@.len() == 6 && "static"@[0] == 's');
    assert("webservice"@.len() == 10);
    assert("private-service"@.len() == 15);
    assert("worker"@[0] == 'w');
    if known_deploy_type(deploy_type) {
        let i = list.index_of(deploy_type);
        assert(list[i] == deploy_type);
    }
}

/// Whether a runtime has commands to build and to start with.
proof fn known_commands(runtime: Seq<char>)
    requires
        known_runtime(runtime),
    ensures
        trimmed(commands_for(runtime).0).len() > 0 <==> runtime != "registry"@,
        trimmed(commands_for(runtime).1).len() > 0 <==> runtime != "registry"@ && runtime
            != "static"@,
        "registry"@ != "static"@,
{
    let list = strs(RUNTIMES@);
    assert(list[0] == "node"@);
    assert(list[1] == "deno"@);
    assert(list[2] == "rust"@);
    assert(list[3] == "python"@);
    assert(list[4] == "go"@);
    assert(list[5] == "ruby"@);
    assert(list[6] == "elixir"@);
    assert(list[7] == "php"@);
    assert(list[8] == "jvm"@);
    assert(list[9] == "dotnet"@);
    assert(list[10] == "cpp"@);
    assert(list[11] == "static"@);
    assert(list[12] == "registry"@);
    let i = list.index_of(runtime);
    assert(list[i] == runtime);
    reveal_strlit("node");
    reveal_strlit("deno");
    reveal_strlit("rust");
    reveal_strlit("python");
    reveal_strlit("go");
    reveal_strlit("ruby");
    reveal_strlit("elixir");
    reveal_strlit("php");
    reveal_strlit("jvm");
    reveal_strlit("dotnet");
    reveal_strlit("cpp");
    reveal_strlit("static");
    reveal_strlit("registry");
    assert("static"@.len() == 6 && "static"@[0] == 's');
    assert("registry"@.len() == 8);
    assert("python"@[0] == 'p');
    assert("elixir"@[0] == 'e');
    assert("dotnet"@[0] == 'd');
    commands_are_solid();
    reveal_strlit("");
    assert(trimmed(""@).len() == 0);
}

/// No command starts or ends with whitespace.
proof fn commands_are_solid()
    ensures
        trimmed("npm run build"@).len() > 0,
        trimmed("node ./dist/server/entry.mjs"@).len() > 0,
        trimmed("deno cache main.ts"@).len() > 0,
        trimmed("deno run --allow-net --allow-env main.ts"@).len() > 0,
        trimmed("cargo build --release"@).len() > 0,
        trimmed("./target/release/app"@).len() > 0,
        trimmed("pip install -r requirements.txt"@).len() > 0,
        trimmed("python main.py"@).len() > 0,
        trimmed("go build -o app ."@).len() > 0,
        trimmed("./app"@).len() > 0,
        trimmed("bundle install"@).len() > 0,
        trimmed("ruby app.rb"@).len() > 0,
        trimmed("mix deps.get && mix compile"@).len() > 0,
        trimmed("mix phx.server"@).len() > 0,
        trimmed("composer install"@).len() > 0,
        trimmed("php -S 0.0.0.0:$PORT"@).len() > 0,
        trimmed("./gradlew build"@).len() > 0,
        trimmed("java -jar build/libs/app.jar"@).len() > 0,
        trimmed("dotnet publish -c Release"@).len() > 0,
        trimmed("dotnet bin/Release/net8.0/app.dll"@).len() > 0,
        trimmed("make"@).len() > 0,
{
    reveal_strlit("npm run build");
    assert("npm run build"@[0] == 'n' && "npm run build"@.last() == 'd');
    trimmed_keeps("npm run build"@);
    reveal_strlit("node ./dist/server/entry.mjs");
    assert("node ./dist/server/entry.mjs"@[0] == 'n' && "node ./dist/server/entry.mjs"@.last() == 's');
    trimmed_keeps("node ./dist/server/entry.mjs"@);
    reveal_strlit("deno cache main.ts");
    assert("deno cache main.ts"@[0] == 'd' && "deno cache main.ts"@.last() == 's');
    trimmed_keeps("deno cache main.ts"@);
    reveal_strlit("deno run --allow-net --allow-env main.ts");
    assert("deno run --allow-net --allow-env main.ts"@[0] == 'd' && "deno run --allow-net --allow-env main.ts"@.last() == 's');
    trimmed_keeps("deno run --allow-net --allow-env main.ts"@);
    reveal_strlit("cargo build --release");
    assert("cargo build --release"@[0] == 'c' && "cargo build --release"@.last() == 'e');
    trimmed_keeps("cargo build --release"@);
    reveal_strlit("./target/release/app");
    assert("./target/release/app"@[0] == '.' && "./target/release/app"@.last() == 'p');
    trimmed_keeps("./target/release/app"@);
    reveal_strlit("pip install -r requirements.txt");
    assert("pip install -r requirements.txt"@[0] == 'p' && "pip install -r requirements.txt"@.last() == 't');
    trimmed_keeps("pip install -r requirements.txt"@);
    reveal_strlit("python main.py");
    assert("python main.py"@[0] == 'p' && "python main.py"@.last() == 'y');
    trimmed_keeps("python main.py"@);
    reveal_strlit("go build -o app .");
    assert("go build -o app ."@[0] == 'g' && "go build -o app ."@.last() == '.');
    trimmed_keeps("go build -o app ."@);
    reveal_strlit("./app");
    assert("./app"@[0] == '.' && "./app"@.last() == 'p');
    trimmed_keeps("./app"@);
    reveal_strlit("bundle install");
    assert("bundle install"@[0] == 'b' && "bundle install"@.last() == 'l');
    trimmed_keeps("bundle install"@);
    reveal_strlit("ruby app.rb");
    assert("ruby app.rb"@[0] == 'r' && "ruby app.rb"@.last() == 'b');
    trimmed_keeps("ruby app.rb"@);
    reveal_strlit("mix deps.get && mix compile");
    assert("mix deps.get && mix compile"@[0] == 'm' && "mix deps.get && mix compile"@.last() == 'e');
    trimmed_keeps("mix deps.get && mix compile"@);
    reveal_strlit("mix phx.server");
    assert("mix phx.server"@[0] == 'm' && "mix phx.server"@.last() == 'r');
    trimmed_keeps("mix phx.server"@);
    reveal_strlit("composer install");
    assert("composer install"@[0] == 'c' && "composer install"@.last() == 'l');
    trimmed_keeps("composer install"@);
    reveal_strlit("php -S 0.0.0.0:$PORT");
    assert("php -S 0.0.0.0:$PORT"@[0] == 'p' && "php -S 0.0.0.0:$PORT"@.last() == 'T');
    trimmed_keeps("php -S 0.0.0.0:$PORT"@);
    reveal_strlit("./gradlew build");
    assert("./gradlew build"@[0] == '.' && "./gradlew build"@.last() == 'd');
    trimmed_keeps("./gradlew build"@);
    reveal_strlit("java -jar build/libs/app.jar");
    assert("java -jar build/libs/app.jar"@[0] == 'j' && "java -jar build/libs/app.jar"@.last() == 'r');
    trimmed_keeps("java -jar build/libs/app.jar"@);
    reveal_strlit("dotnet publish -c Release");
    assert("dotnet publish -c Release"@[0] == 'd' && "dotnet publish -c Release"@.last() == 'e');
    trimmed_keeps("dotnet publish -c Release"@);
    reveal_strlit("dotnet bin/Release/net8.0/app.dll");
    assert("dotnet bin/Release/net8.0/app.dll"@[0] == 'd' && "dotnet bin/Release/net8.0/app.dll"@.last() == 'l');
    trimmed_keeps("dotnet bin/Release/net8.0/app.dll"@);
    reveal_strlit("make");
    assert("make"@[0] == 'm' && "make"@.last() == 'e');
    trimmed_keeps("make"@);
}

} // verus!
