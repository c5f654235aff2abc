//! What the smaller steps of the commands give, stated of every result.
use vstd::prelude::*;
use vstd::string::*;

use crate::client::{
    ApiClient, ApiRequest, Method, Pod, Project, Region, VolumeUpdate, Volume, Workspace,
};
use crate::config::{ConfigOverride, DiskConfig, PartiriConfig};
use crate::error::{Failure, FailureView};
use crate::init::WizardAnswers;
use crate::json::{
    absent_member_is_not_found, first_member_is_found, lookup_concat, member_of, Json, JsonView,
};
use crate::lsp::locate::{braces, key_on_line, last_before, last_colon, last_line, CursorCtx};
use crate::lsp::server::{Capabilities, InitOptions, Level, Notice};
use crate::mcp::{Family, McpClient};
use crate::output::Ctx;
use crate::projects::Needed;
use crate::schema::{
    disk_rows, disk_schema, kind_members, root_prop, root_rows, schema_view, service_prop,
    service_rows, service_schema, simple_prop, RowView,
};
use crate::config::{DEPLOY_TYPES, RUNTIMES};
use crate::json::strings_view;
use crate::secret::StdinLine;
use crate::service::env::EnvRow;
use crate::service::link::{LinkMove, LinkStep, LinkWalk};
use crate::service::run::Lifecycle;
use crate::text::{decimal_of, strs, trimmed, views};
use crate::validate::{CheckRow, Status, ValidationRow};

verus! {

/// The names of the runtimes are told apart.
pub proof fn runtime_shapes()
    ensures
        "node"@.len() == 4 && "node"@[0] == 'n',
        "deno"@.len() == 4 && "deno"@[0] == 'd',
        "rust"@.len() == 4 && "rust"@[0] == 'r' && "rust"@[2] == 's',
        "python"@.len() == 6 && "python"@[0] == 'p',
        "go"@.len() == 2,
        "ruby"@.len() == 4 && "ruby"@[0] == 'r' && "ruby"@[2] == 'b',
        "elixir"@.len() == 6 && "elixir"@[0] == 'e',
        "php"@.len() == 3 && "php"@[0] == 'p',
        "jvm"@.len() == 3 && "jvm"@[0] == 'j',
        "dotnet"@.len() == 6 && "dotnet"@[0] == 'd',
        "cpp"@.len() == 3 && "cpp"@[0] == 'c',
        "static"@.len() == 6 && "static"@[0] == 's',
        "registry"@.len() == 8,
{
    reveal_strlit("node");
    reveal_strlit("deno");
    reveal_strlit("rust");
    reveal_strlit("python");
    reveal_strlit("go");
    reveal_strlit("ruby");
    reveal_strlit("elixir");
    reveal_strlit("php");
    reveal_strlit("jvm");
    reveal_strlit("dotnet");
    reveal_strlit("cpp");
    reveal_strlit("static");
    reveal_strlit("registry");
    assert("node"@.len() == 4);
    assert("deno"@.len() == 4);
    assert("rust"@.len() == 4);
    assert("python"@.len() == 6);
    assert("go"@.len() == 2);
    assert("ruby"@.len() == 4);
    assert("elixir"@.len() == 6);
    assert("php"@.len() == 3);
    assert("jvm"@.len() == 3);
    assert("dotnet"@.len() == 6);
    assert("cpp"@.len() == 3);
    assert("static"@.len() == 6);
    assert("registry"@.len() == 8);
}

/// Each runtime is built and run by its own tools; any other runtime has no
/// commands.
pub proof fn commands_of_each_runtime(runtime: &str, r: (&'static str, &'static str))
    requires
        call_ensures(crate::llm::default_commands, (runtime,), r),
    ensures
        runtime@ == "node"@ ==> r.0@ == "npm run build"@ && r.1@ == "node ./dist/server/entry.mjs"@,
        runtime@ == "deno"@ ==> r.0@ == "deno cache main.ts"@ && r.1@
            == "deno run --allow-net --allow-env main.ts"@,
        runtime@ == "rust"@ ==> r.0@ == "cargo build --release"@ && r.1@ == "./target/release/app"@,
        runtime@ == "python"@ ==> r.0@ == "pip install -r requirements.txt"@ && r.1@
            == "python main.py"@,
        runtime@ == "go"@ ==> r.0@ == "go build -o app ."@ && r.1@ == "./app"@,
        runtime@ == "ruby"@ ==> r.0@ == "bundle install"@ && r.1@ == "ruby app.rb"@,
        runtime@ == "elixir"@ ==> r.0@ == "mix deps.get && mix compile"@ && r.1@
            == "mix phx.server"@,
        runtime@ == "php"@ ==> r.0@ == "composer install"@ && r.1@ == "php -S 0.0.0.0:$PORT"@,
        runtime@ == "jvm"@ ==> r.0@ == "./gradlew build"@ && r.1@
            == "java -jar build/libs/app.jar"@,
        runtime@ == "dotnet"@ ==> r.0@ == "dotnet publish -c Release"@ && r.1@
            == "dotnet bin/Release/net8.0/app.dll"@,
        runtime@ == "cpp"@ ==> r.0@ == "make"@ && r.1@ == "./app"@,
        runtime@ == "static"@ ==> r.0@ == "npm run build"@ && r.1@ == ""@,
        runtime@ == "registry"@ ==> r.0@ == ""@ && r.1@ == ""@,
        runtime@ != "node"@ && runtime@ != "deno"@ && runtime@ != "rust"@ && runtime@
            != "python"@ && runtime@ != "go"@ && runtime@ != "ruby"@ && runtime@ != "elixir"@
            && runtime@ != "php"@ && runtime@ != "jvm"@ && runtime@ != "dotnet"@ && runtime@
            != "cpp"@ && runtime@ != "static"@ && runtime@ != "registry"@ ==> r.0@ == ""@ && r.1@
            == ""@,
{
    runtime_shapes();
}

/// The tools that can be connected go by their names, in one order.
pub proof fn tools_go_by_their_names(family: &Family, r: Vec<String>)
    requires
        call_ensures(crate::mcp::slugs, (family,), r),
    ensures
        r@.len() == 6,
        r@[0]@ == family.word@ + "-desktop"@,
        r@[1]@ == family.word@ + "-code"@,
        r@[2]@ == "cursor"@,
        r@[3]@ == "vscode"@,
        r@[4]@ == "copilot-cli"@,
        r@[5]@ == "windsurf"@,
{
    assert(views(r@).len() == r@.len());
    assert forall|i: int| 0 <= i < r@.len() implies views(r@)[i] == #[trigger] r@[i]@ by {}
}

/// No two places hold the same tool.
pub proof fn tools_are_told_apart(i: usize, j: usize, a: McpClient, b: McpClient)
    requires
        i < 6,
        j < 6,
        call_ensures(McpClient::at, (i,), a),
        call_ensures(McpClient::at, (j,), b),
    ensures
        a == b <==> i == j,
{
}

/// A walk begins at the workspace with nothing picked, and only where questions
/// can be asked.
pub proof fn walk_begins_at_the_workspace(c: PartiriConfig, ctx: Ctx, r: Result<LinkWalk, Failure>)
    requires
        call_ensures(crate::service::link::start_walk, (c, ctx), r),
    ensures
        r is Ok <==> !ctx.no_input,
        r matches Ok(w) ==> w.step == LinkStep::Workspace && w.config == c && !w.changed
            && !w.forced,
{
}

/// A pick is put where its step belongs and nowhere else; a new workspace asks
/// for its project, and a new region for its pod.
pub proof fn pick_goes_where_it_belongs(w: LinkWalk, id: String, r: LinkWalk)
    requires
        w.step != LinkStep::Done,
        call_ensures(LinkWalk::choose_id, (w, id), r),
    ensures
        r.changed,
        w.step == LinkStep::Workspace ==> r.config.fk_workspace == id && r.config.fk_project
            == w.config.fk_project && r.config.service == w.config.service && r.step
            == LinkStep::Project && r.forced,
        w.step == LinkStep::Project ==> r.config.fk_project == id && r.config.fk_workspace
            == w.config.fk_workspace && r.config.service == w.config.service && r.step
            == LinkStep::Region && !r.forced,
        w.step == LinkStep::Region ==> r.config.service.fk_region == id && r.config.service.fk_pod
            == w.config.service.fk_pod && r.step == LinkStep::Pod && r.forced,
        w.step == LinkStep::Pod ==> r.config.service.fk_pod == id && r.config.service.fk_region
            == w.config.service.fk_region && r.step == LinkStep::Done && !r.forced,
        w.step == LinkStep::Region || w.step == LinkStep::Pod ==> r.config.fk_workspace
            == w.config.fk_workspace && r.config.fk_project == w.config.fk_project
            && r.config.service.name == w.config.service.name
            && r.config.service.fk_service_secret == w.config.service.fk_service_secret,
        r.config.id == w.config.id,
{
}

/// A step that is skipped leaves everything as it was.
pub proof fn skipped_step_changes_nothing(w: LinkWalk, r: LinkWalk)
    requires
        w.step != LinkStep::Done,
        call_ensures(LinkWalk::skip, (w,), r),
    ensures
        r.config == w.config,
        r.changed == w.changed,
        !r.forced,
        r.step != w.step,
        r.step == LinkStep::Done <==> w.step == LinkStep::Pod,
{
}

/// A walk asks at a step, except where the step is forced, and ends with what
/// was picked.
pub proof fn walk_asks_at_each_step(w: &LinkWalk, r: LinkMove)
    requires
        call_ensures(LinkWalk::next_move, (w,), r),
    ensures
        r is Finish <==> w.step == LinkStep::Done,
        r matches LinkMove::Finish(save) ==> save == w.changed,
        w.step != LinkStep::Done ==> (r is Pick <==> w.forced),
        w.step == LinkStep::Workspace && !w.forced ==> r->Ask_0@ == "Update workspace?"@,
        w.step == LinkStep::Project && !w.forced ==> r->Ask_0@ == "Update project?"@,
        w.step == LinkStep::Region && !w.forced ==> r->Ask_0@ == "Update region?"@,
        w.step == LinkStep::Pod && !w.forced ==> r->Ask_0@ == "Update pod?"@,
        w.step == LinkStep::Project && w.forced ==> r->Pick_0@
            == "Workspace changed — project must be re-selected."@,
        w.step == LinkStep::Pod && w.forced ==> r->Pick_0@
            == "Region changed — pod must be re-selected."@,
{
}

/// The jobs asked for are those of the service of the file.
pub proof fn jobs_asked_for_are_the_services(c: &PartiriConfig, r: Result<ApiRequest, Failure>)
    requires
        call_ensures(crate::jobs::jobs_request, (c,), r),
    ensures
        r is Ok <==> c.id is Some,
        r matches Ok(q) ==> q.method == Method::Get && q.path@ == "/jobs/services/"@ + c.id->0@
            && q.query@.len() == 0 && q.body is None,
        r matches Err(e) ==> e@ == FailureView::Text(
            "Service not yet created. Run 'partiri service create' first."@,
        ),
{
    if let Ok(q) = r {
        assert(q@.query.len() == q.query@.len());
    }
}

/// The id of a service is that of the file, or it was not created.
pub proof fn id_is_that_of_the_file(c: &PartiriConfig, r: Result<&str, Failure>)
    requires
        call_ensures(PartiriConfig::id_or_err, (c,), r),
    ensures
        r is Ok <==> c.id is Some,
        r matches Ok(id) ==> id@ == c.id->0@,
        r matches Err(e) ==> e@ == FailureView::Text(
            "Service not yet created. Run 'partiri service create' first."@,
        ),
{
}

/// A refresh takes the id of the file.
pub proof fn refresh_takes_the_id(c: &PartiriConfig, r: Result<&str, Failure>)
    requires
        call_ensures(crate::service::pull::refresh_id, (c,), r),
    ensures
        r is Ok <==> c.id is Some,
        r matches Ok(id) ==> id@ == c.id->0@,
        r matches Err(e) ==> e@ == FailureView::Text("Service has no id yet; cannot refresh"@),
{
}

/// Every path is under the address of the client.
pub proof fn addresses_are_the_clients(client: &ApiClient, path: &str, r: String)
    requires
        call_ensures(ApiClient::url, (client, path), r),
    ensures
        r@.len() == client.base_url@.len() + path@.len(),
        r@.take(client.base_url@.len() as int) == client.base_url@,
        r@.skip(client.base_url@.len() as int) == path@,
{
    assert(r@.take(client.base_url@.len() as int) =~= client.base_url@);
    assert(r@.skip(client.base_url@.len() as int) =~= path@);
}

/// A change of a volume is empty exactly where nothing is set.
pub proof fn empty_changes(u: &VolumeUpdate, r: bool)
    requires
        call_ensures(VolumeUpdate::is_empty, (u,), r),
    ensures
        u.size is Some || u.mount_path is Some ==> !r,
        u.size is None && u.mount_path is None ==> r,
{
}

/// The disk block of a volume has its path and its size.
pub proof fn disk_block_is_the_volumes(v: &Volume, r: DiskConfig)
    requires
        call_ensures(crate::storage::disk_from_volume, (v,), r),
    ensures
        r.mount_path@ == v.mount_path@,
        r.size == v.size,
{
}

/// The disk that storage commands work on is that of the file.
pub proof fn disk_is_that_of_the_file(
    c: &PartiriConfig,
    over: &ConfigOverride,
    r: Result<&DiskConfig, Failure>,
)
    requires
        call_ensures(crate::storage::disk_or_err, (c, over), r),
    ensures
        c.service.disk matches Some(d) ==> r is Ok && *r->Ok_0 == d,
        c.service.disk is None ==> r is Err && r->Err_0@ is Cli,
{
}

/// A row has the status that it was made with.
pub proof fn rows_have_their_status(
    field: &str,
    message: &str,
    ok: CheckRow,
    warn: CheckRow,
    fail: CheckRow,
)
    requires
        call_ensures(CheckRow::ok, (field, message), ok),
        call_ensures(CheckRow::warn, (field, message), warn),
        call_ensures(CheckRow::fail, (field, message), fail),
    ensures
        ok.status == Status::Pass && warn.status == Status::Warn && fail.status == Status::Fail,
        ok.field@ == field@ && warn.field@ == field@ && fail.field@ == field@,
        ok.message@ == message@ && warn.message@ == message@ && fail.message@ == message@,
{
}

/// Only a row that fails is a failure.
pub proof fn failures_are_rows_that_fail(row: &CheckRow, r: bool)
    requires
        call_ensures(CheckRow::is_fail, (row,), r),
    ensures
        row.status == Status::Fail ==> r,
        row.status == Status::Pass || row.status == Status::Warn ==> !r,
{
}

/// A row is printed with its field, its message and a word for its status.
pub proof fn printed_rows(row: CheckRow, r: ValidationRow)
    requires
        call_ensures(CheckRow::into_row, (row, true), r),
    ensures
        r.field == row.field,
        r.message == row.message,
        row.status == Status::Pass ==> r.status@ == "ok"@,
        row.status == Status::Warn ==> r.status@ == "warn"@,
        row.status == Status::Fail ==> r.status@ == "fail"@,
{
}

/// The workspaces in scope are those with the id, and all without one.
pub proof fn workspaces_in_scope(
    all: Vec<Workspace>,
    id: Option<&str>,
    r: Vec<Workspace>,
    w: Workspace,
)
    requires
        call_ensures(crate::llm::scoped_workspaces, (all, id), r),
    ensures
        id is None ==> r@ == all@,
        id matches Some(x) ==> (r@.contains(w) <==> all@.contains(w) && w.id@ == x@),
{
    if let Some(x) = id {
        let keep = crate::llm::workspace_with(x@);
        all@.filter_lemma(keep);
        if r@.contains(w) {
            let i = r@.index_of(w);
            assert(r@ == all@.filter(keep));
            all@.lemma_filter_contains_rev(keep, w);
            assert(keep(r@[i]));
        }
    }
}

/// Prices are asked for in the first region.
pub proof fn prices_are_of_the_first_region(regions: &Vec<Region>, r: Option<&str>)
    requires
        call_ensures(crate::llm::pricing_region, (regions,), r),
    ensures
        r is Some <==> regions@.len() > 0,
        r matches Some(id) ==> id@ == regions@[0].id@,
{
}

/// The services of each project are asked for, fifty at most.
pub proof fn services_are_asked_for_by_project(projects: &Vec<Project>, r: Vec<ApiRequest>, i: int)
    requires
        0 <= i < projects@.len(),
        call_ensures(crate::llm::service_requests, (projects,), r),
    ensures
        r@.len() == projects@.len(),
        r@[i].method == Method::Get,
        r@[i].path@ == "/services"@,
        r@[i].query@.len() == 2,
        r@[i]@.query[0] == ("project"@, projects@[i].id@),
        r@[i]@.query[1] == ("limit"@, "50"@),
        r@[i].body is None,
{
    let q = r@[i];
    assert(q@.query.len() == 2);
    assert(q@.query.len() == q.query@.len());
    reveal_with_fuel(decimal_of, 4);
    reveal_strlit("50");
    assert(decimal_of(50) =~= "50"@);
}

/// A project has the name that was given; without one it is asked for, or
/// refused where nothing can be asked.
pub proof fn project_names(name: Option<String>, ctx: Ctx, r: Result<Needed, Failure>)
    requires
        call_ensures(crate::projects::project_name, (name, ctx), r),
    ensures
        name matches Some(n) ==> r is Ok && r->Ok_0 is Known && r->Ok_0->Known_0@ == n@,
        name is None ==> (r is Err <==> ctx.no_input),
        name is None && !ctx.no_input ==> r->Ok_0 is Ask,
{
}

/// The environments are offered in the order dev, staging, prod.
pub proof fn environments_in_order(choice: usize, r: &'static str)
    requires
        choice < 3,
        call_ensures(crate::projects::picked_environment, (choice,), r),
    ensures
        choice == 0 ==> r@ == "dev"@,
        choice == 1 ==> r@ == "staging"@,
        choice == 2 ==> r@ == "prod"@,
{
}

/// An argument that is required is handed on as it is, and refused where it is
/// missing.
pub proof fn required_arguments(
    value: Option<String>,
    field: &str,
    flag: &str,
    cmd: &str,
    r: Result<String, Failure>,
)
    requires
        call_ensures(crate::secret::require_arg, (value, field, flag, cmd), r),
    ensures
        value matches Some(v) ==> r is Ok && r->Ok_0@ == v@,
        value is None ==> r is Err && r->Err_0@ is Cli,
{
}

/// A password that is read has no white space around it.
pub proof fn passwords_are_read_trimmed(line: StdinLine, r: Result<String, Failure>)
    requires
        call_ensures(crate::databases::read_password_from_stdin, (line,), r),
    ensures
        r is Ok <==> line is Line,
        line matches StdinLine::Line(s) ==> r->Ok_0@ == trimmed(s@),
{
}

/// A required answer is refused exactly where it is blank.
pub proof fn required_answers(s: &str, r: Option<&'static str>)
    requires
        call_ensures(crate::init::check_required_input, (s,), r),
    ensures
        r is Some <==> trimmed(s@).len() == 0,
        r matches Some(why) ==> why@ == "This field is required"@,
{
}

/// The remote of a repository is what git printed, without the white space
/// around it, where that is not blank.
pub proof fn remotes_are_trimmed(output: Option<&str>, r: Option<String>)
    requires
        call_ensures(crate::init::git_remote, (output,), r),
    ensures
        r is Some <==> output is Some && trimmed(output->0@).len() > 0,
        r matches Some(url) ==> url@ == trimmed(output->0@),
{
}

/// Pods are offered where the list holds one.
pub proof fn pods_are_offered_where_there_are_any(
    list: &Result<Vec<Pod>, Failure>,
    r: Option<String>,
)
    requires
        call_ensures(crate::init::prompt_for_pod, (list,), r),
    ensures
        r is None <==> *list is Ok && (*list)->Ok_0@.len() > 0,
        *list is Ok && (*list)->Ok_0@.len() == 0 ==> r->0@
            == "No compute pods returned by the API."@,
{
}

/// A wizard begins with every answer open.
pub proof fn every_answer_is_open_at_first(r: WizardAnswers)
    requires
        call_ensures(WizardAnswers::none, (), r),
    ensures
        r.name is None && r.deploy_type is None && r.from_registry is None,
        r.repository_url is None && r.repository_branch is None && r.image is None,
        r.workspace is None && r.project is None && r.region is None && r.pod is None,
        r.token is None && r.runtime is None && r.build_command is None && r.build_path is None,
        r.run_command is None && r.health_check_path is None,
{
}

/// The editor works on its buffer where that parses, and on the file otherwise.
pub proof fn buffer_comes_before_the_file(
    buffer: Option<Result<PartiriConfig, String>>,
    file: Option<PartiriConfig>,
    r: Option<PartiriConfig>,
)
    requires
        call_ensures(crate::lsp::server::load_config_for, (buffer, file), r),
    ensures
        buffer is Some && buffer->0 is Ok ==> r == Some(buffer->0->Ok_0),
        buffer is None || buffer->0 is Err ==> r == file,
{
}

/// A deploy that was asked for is reported under its name, and a failure as one.
pub proof fn deploys_are_reported(name: &str, outcome: &Result<(), Failure>, r: Notice)
    requires
        call_ensures(crate::lsp::server::deploy_notice, (name, outcome), r),
    ensures
        *outcome is Ok ==> r.level == Level::Info && r.text@ == "Deploy job created for '"@ + name@
            + "'."@,
        *outcome is Err ==> r.level == Level::Error,
{
}

/// The variables are listed in their order, each with its own value.
pub proof fn variables_are_listed(env: &Option<Vec<crate::client::ApiEnvVar>>, r: Vec<EnvRow>)
    requires
        call_ensures(crate::service::env::env_rows, (env,), r),
    ensures
        *env is None ==> r@.len() == 0,
        *env matches Some(v) ==> r@.len() == v@.len() && forall|i: int|
            0 <= i < r@.len() ==> (#[trigger] r@[i]).key@ == v@[i].key@ && r@[i].value@
                == v@[i].value@,
{
}

/// Each request for a change of state is reported as what it is.
pub proof fn lifecycle_is_reported(r: crate::output::Report, a: Lifecycle)
    requires
        call_ensures(crate::service::run::lifecycle_report, (a,), r),
    ensures
        a is Pause ==> r.message@ == "Pause job created."@,
        a is Unpause ==> r.message@ == "Unpause job created."@,
        a is Kill ==> r.message@ == "Kill job created."@,
        r@.data is None && r@.notes.len() == 0,
{
}

/// Two texts are taken for equal exactly where every byte is.
pub proof fn equal_texts(a: &[u8], b: &[u8], r: bool)
    requires
        call_ensures(crate::auth::constant_time_eq, (a, b), r),
    ensures
        r <==> a@.len() == b@.len() && forall|i: int| 0 <= i < a@.len() ==> a@[i] == b@[i],
{
    if a@.len() == b@.len() && forall|i: int| 0 <= i < a@.len() ==> a@[i] == b@[i] {
        assert(a@ =~= b@);
    }
}

/// The server offers what it is set to offer.
pub proof fn capabilities_offered(opts: &InitOptions, r: Capabilities)
    requires
        call_ensures(crate::lsp::server::server_capabilities, (opts,), r),
    ensures
        r.hover,
        r.code_actions == opts.enable_code_actions,
        strs(r.trigger_characters@).len() == 2 && strs(r.trigger_characters@)[0] == ":"@
            && strs(r.trigger_characters@)[1] == "\""@,
        strs(r.commands@).len() == 4 && strs(r.commands@)[0] == "partiri.validateRemote"@
            && strs(r.commands@)[1] == "partiri.deploy"@ && strs(r.commands@)[2] == "partiri.pull"@
            && strs(r.commands@)[3] == "partiri.refreshContext"@,
{
}

// ─── A document that does not parse ────────────────────────────────────────

/// Text without quotation marks leaves what stands before it outside a string.
proof fn outside_stays_outside(s: Seq<char>, t: Seq<char>)
    requires
        !braces(s).in_string,
        !t.contains('"'),
    ensures
        !braces(s + t).in_string,
    decreases t.len(),
{
    if t.len() == 0 {
        assert(s + t =~= s);
    } else {
        let front = t.drop_last();
        assert(t[t.len() - 1] != '"');
        assert forall|c: char| front.contains(c) implies t.contains(c) by {
            assert(t[front.index_of(c)] == c);
        }
        outside_stays_outside(s, front);
        assert((s + t).drop_last() =~= s + front);
    }
}

/// Text without quotation marks and backslashes stays in the string.
proof fn inside_stays_inside(s: Seq<char>, t: Seq<char>)
    requires
        braces(s).in_string && !braces(s).escaped,
        !t.contains('"') && !t.contains('\\'),
    ensures
        braces(s + t).in_string && !braces(s + t).escaped,
        braces(s + t).opened == braces(s).opened && braces(s + t).closed == braces(s).closed,
    decreases t.len(),
{
    if t.len() == 0 {
        assert(s + t =~= s);
    } else {
        let front = t.drop_last();
        assert(t.contains(t[t.len() - 1]));
        assert forall|c: char| front.contains(c) implies t.contains(c) by {
            assert(t[front.index_of(c)] == c);
        }
        inside_stays_inside(s, front);
        assert((s + t).drop_last() =~= s + front);
    }
}

/// Nothing is escaped outside a string.
proof fn outside_is_not_escaped(s: Seq<char>)
    ensures
        !braces(s).in_string ==> !braces(s).escaped,
    decreases s.len(),
{
    if s.len() > 0 {
        outside_is_not_escaped(s.drop_last());
    }
}

/// The last place of a character is that of its last occurrence.
proof fn last_place(s: Seq<char>, c: char, i: int, n: int)
    requires
        0 <= i < n <= s.len(),
        s[i] == c,
        forall|j: int| i < j < n ==> s[j] != c,
    ensures
        last_before(s, c, n) == i,
    decreases n,
{
    if n - 1 > i {
        last_place(s, c, i, n - 1);
    }
}

/// On a line that ends in a quoted key and a colon, that key is about to be
/// given its value.
pub proof fn key_before_the_colon(before: Seq<char>, key: Seq<char>)
    requires
        !before.contains('"'),
        !key.contains('"') && !key.contains('\\'),
        key.len() > 0,
    ensures
        key_on_line(before + seq!['"'] + key + seq!['"', ':']) == Some(key),
{
    let a = before + seq!['"'];
    let b = a + key;
    let c = b + seq!['"'];
    let line = before + seq!['"'] + key + seq!['"', ':'];
    outside_stays_outside(Seq::empty(), before);
    assert(Seq::<char>::empty() + before =~= before);
    outside_is_not_escaped(before);
    assert(a.drop_last() =~= before);
    inside_stays_inside(a, key);
    assert(c.drop_last() =~= b);
    let n = line.len() as int;
    assert(line.take(n - 1) =~= c);
    assert(last_colon(line, n) == n - 1);
    last_place(line, '"', n - 2, n - 1);
    let open = before.len() as int;
    assert forall|j: int| open < j < n - 2 implies line[j] != '"' by {
        assert(line[j] == key[j - open - 1]);
        assert(key.contains(key[j - open - 1]));
    }
    last_place(line, '"', open, n - 2);
    assert(line.subrange(open + 1, n - 2) =~= key);
}

/// A line without a colon gives no value.
pub proof fn line_without_a_colon(line: Seq<char>, n: int)
    requires
        !line.contains(':'),
        0 <= n <= line.len(),
    ensures
        last_colon(line, n) == -1,
        n == line.len() ==> key_on_line(line) is None,
    decreases n,
{
    if n > 0 {
        assert(line.contains(line[n - 1]));
        line_without_a_colon(line, n - 1);
    }
}

/// A brace counts outside strings and not in them.
pub proof fn braces_count_outside_strings(s: Seq<char>)
    ensures
        !braces(s).in_string ==> braces(s.push('{')).opened == braces(s).opened + 1
            && braces(s.push('{')).closed == braces(s).closed,
        !braces(s).in_string ==> braces(s.push('}')).closed == braces(s).closed + 1
            && braces(s.push('}')).opened == braces(s).opened,
        braces(s).in_string ==> braces(s.push('{')).opened == braces(s).opened && braces(
            s.push('}'),
        ).closed == braces(s).closed,
        !braces(s).in_string ==> braces(s.push('"')).in_string,
        braces(s).in_string && !braces(s).escaped ==> !braces(s.push('"')).in_string,
{
    assert(s.push('{').drop_last() =~= s);
    assert(s.push('}').drop_last() =~= s);
    assert(s.push('"').drop_last() =~= s);
}

/// In a document that does not parse, the cursor is in the file, in its
/// `service` block or in the `disk` block of that, as the braces before it say;
/// it is on the value of the key before the last colon of its line, or else on
/// a name.
pub proof fn cursor_in_a_broken_document(text: &str, offset: usize, r: CursorCtx, before: Seq<char>)
    requires
        text@ == before,
        offset == crate::text::byte_len(before),
        call_ensures(crate::lsp::locate::heuristic_context, (text, offset), r),
    ensures
        ({
            let depth = braces(before).opened - braces(before).closed;
            let path = if depth <= 1 {
                seq![]
            } else if depth == 2 {
                seq!["service"@]
            } else {
                seq!["service"@, "disk"@]
            };
            match key_on_line(last_line(before)) {
                Some(k) => r@ is Value && r@->Value_path == path && r@->Value_key == k
                    && r@->Value_text is None && r@->Value_range.start == offset
                    && r@->Value_range.end == offset,
                None => r@ is Name && r@->Name_path == path && r@->Name_key is None,
            }
        }),
{
    assert(before.take(before.len() as int) =~= before);
    crate::lsp::documents::chars_before_at(before, before.len() as int);
}

/// The last line is what follows the last line break.
pub proof fn last_line_follows_the_break(before: Seq<char>, line: Seq<char>)
    requires
        !line.contains('\n'),
    ensures
        last_line(before + seq!['\n'] + line) == line,
{
    let s = before + seq!['\n'] + line;
    let i = before.len() as int;
    assert forall|j: int| i < j < s.len() implies s[j] != '\n' by {
        assert(s[j] == line[j - i - 1]);
        assert(line.contains(line[j - i - 1]));
    }
    last_place(s, '\n', i, s.len() as int);
    assert(s.skip(i + 1) =~= line);
}

/// The names in the schema are told apart.
pub proof fn schema_shapes()
    ensures
        "active"@.len() == 6 && "active"@[0] == 'a',
        "build_command"@.len() == 13,
        "build_path"@.len() == 10 && "build_path"@[0] == 'b',
        "deploy_type"@.len() == 11 && "deploy_type"@[0] == 'd' && "deploy_type"@[2] == 'p',
        "disk"@.len() == 4 && "disk"@[0] == 'd',
        "fk_pod"@.len() == 6 && "fk_pod"@[0] == 'f' && "fk_pod"@[1] == 'k',
        "fk_region"@.len() == 9 && "fk_region"@[0] == 'f',
        "fk_service_secret"@.len() == 17 && "fk_service_secret"@[0] == 'f',
        "health_check_path"@.len() == 17 && "health_check_path"@[0] == 'h',
        "maintenance_mode"@.len() == 16,
        "name"@.len() == 4 && "name"@[0] == 'n',
        "pre_deploy_command"@.len() == 18,
        "registry_url"@.len() == 12 && "registry_url"@[0] == 'r',
        "repository_branch"@.len() == 17 && "repository_branch"@[0] == 'r',
        "repository_url"@.len() == 14,
        "root_path"@.len() == 9 && "root_path"@[0] == 'r',
        "run_command"@.len() == 11 && "run_command"@[0] == 'r',
        "runtime"@.len() == 7 && "runtime"@[0] == 'r',
        "deploy_tag"@.len() == 10 && "deploy_tag"@[0] == 'd',
        "fk_project"@.len() == 10 && "fk_project"@[0] == 'f',
        "fk_workspace"@.len() == 12 && "fk_workspace"@[0] == 'f',
        "id"@.len() == 2,
        "service"@.len() == 7 && "service"@[0] == 's',
        "mount_path"@.len() == 10 && "mount_path"@[0] == 'm',
        "size"@.len() == 4 && "size"@[0] == 's',
        "$schema"@.len() == 7 && "$schema"@[0] == '$',
        "title"@.len() == 5 && "title"@[0] == 't',
        "description"@.len() == 11 && "description"@[0] == 'd' && "description"@[2] == 's',
        "type"@.len() == 4 && "type"@[0] == 't',
        "required"@.len() == 8,
        "properties"@.len() == 10 && "properties"@[0] == 'p',
        "rules"@.len() == 5 && "rules"@[0] == 'r',
        "maxLength"@.len() == 9 && "maxLength"@[0] == 'm',
        "enum"@.len() == 4 && "enum"@[0] == 'e',
        "default"@.len() == 7 && "default"@[0] == 'd',
        "format"@.len() == 6 && "format"@[0] == 'f' && "format"@[1] == 'o',
        "minimum"@.len() == 7 && "minimum"@[0] == 'm' && "minimum"@[1] == 'i',
        "maximum"@.len() == 7 && "maximum"@[0] == 'm' && "maximum"@[1] == 'a',
{
    reveal_strlit("active");
    reveal_strlit("build_command");
    reveal_strlit("build_path");
    reveal_strlit("deploy_type");
    reveal_strlit("disk");
    reveal_strlit("fk_pod");
    reveal_strlit("fk_region");
    reveal_strlit("fk_service_secret");
    reveal_strlit("health_check_path");
    reveal_strlit("maintenance_mode");
    reveal_strlit("name");
    reveal_strlit("pre_deploy_command");
    reveal_strlit("registry_url");
    reveal_strlit("repository_branch");
    reveal_strlit("repository_url");
    reveal_strlit("root_path");
    reveal_strlit("run_command");
    reveal_strlit("runtime");
    reveal_strlit("deploy_tag");
    reveal_strlit("fk_project");
    reveal_strlit("fk_workspace");
    reveal_strlit("id");
    reveal_strlit("service");
    reveal_strlit("mount_path");
    reveal_strlit("size");
    reveal_strlit("$schema");
    reveal_strlit("title");
    reveal_strlit("description");
    reveal_strlit("type");
    reveal_strlit("required");
    reveal_strlit("properties");
    reveal_strlit("rules");
    reveal_strlit("maxLength");
    reveal_strlit("enum");
    reveal_strlit("default");
    reveal_strlit("format");
    reveal_strlit("minimum");
    reveal_strlit("maximum");
    assert("active"@.len() == 6);
    assert("build_command"@.len() == 13);
    assert("build_path"@.len() == 10);
    assert("deploy_type"@.len() == 11);
    assert("disk"@.len() == 4);
    assert("fk_pod"@.len() == 6);
    assert("fk_region"@.len() == 9);
    assert("fk_service_secret"@.len() == 17);
    assert("health_check_path"@.len() == 17);
    assert("maintenance_mode"@.len() == 16);
    assert("name"@.len() == 4);
    assert("pre_deploy_command"@.len() == 18);
    assert("registry_url"@.len() == 12);
    assert("repository_branch"@.len() == 17);
    assert("repository_url"@.len() == 14);
    assert("root_path"@.len() == 9);
    assert("run_command"@.len() == 11);
    assert("runtime"@.len() == 7);
    assert("deploy_tag"@.len() == 10);
    assert("fk_project"@.len() == 10);
    assert("fk_workspace"@.len() == 12);
    assert("id"@.len() == 2);
    assert("service"@.len() == 7);
    assert("mount_path"@.len() == 10);
    assert("size"@.len() == 4);
    assert("$schema"@.len() == 7);
    assert("title"@.len() == 5);
    assert("description"@.len() == 11);
    assert("type"@.len() == 4);
    assert("required"@.len() == 8);
    assert("properties"@.len() == 10);
    assert("rules"@.len() == 5);
    assert("maxLength"@.len() == 9);
    assert("enum"@.len() == 4);
    assert("default"@.len() == 7);
    assert("format"@.len() == 6);
    assert("minimum"@.len() == 7);
    assert("maximum"@.len() == 7);
}

/// What the schema says of a property of the `service` block.
pub open spec fn service_rule(
    schema: JsonView,
    name: Seq<char>,
    rule: Seq<char>,
) -> Option<JsonView> {
    member_of(
        member_of(
            member_of(
                member_of(member_of(schema, "properties"@)->0, "service"@)->0,
                "properties"@,
            )->0,
            name,
        )->0,
        rule,
    )
}

/// The properties of a table are looked up under their names.
proof fn property_is_under_its_name(name: Seq<char>, i: int)
    requires
        0 <= i < service_rows().len(),
        name == service_rows()[i].name,
    ensures
        member_of(
            member_of(
                member_of(member_of(schema_view(), "properties"@)->0, "service"@)->0,
                "properties"@,
            )->0,
            name,
        ) == Some(service_prop(service_rows()[i])),
{
    schema_shapes();
    let rows = service_rows();
    let members = rows.map_values(|r: RowView| (r.name, service_prop(r)));
    let roots = root_rows().map_values(|r: RowView| (r.name, root_prop(r)));
    if let JsonView::Obj(m) = schema_view() {
        first_member_is_found(m, "properties"@, 5);
    }
    first_member_is_found(roots, "service"@, 4);
    if let JsonView::Obj(m) = service_schema() {
        first_member_is_found(m, "properties"@, 3);
    }
    assert forall|j: int| 0 <= j < i implies (#[trigger] members[j]).0 != name by {
        assert(rows[j].name != rows[i].name);
    }
    first_member_is_found(members, name, i);
}

/// A property has what follows its description.
proof fn rule_follows_the_description(row: RowView, rule: Seq<char>, i: int)
    requires
        0 <= i < kind_members(row.kind).len(),
        kind_members(row.kind)[i].0 == rule,
        rule != "description"@,
        forall|j: int| 0 <= j < i ==> (#[trigger] kind_members(row.kind)[j]).0 != rule,
    ensures
        member_of(simple_prop(row), rule) == Some(kind_members(row.kind)[i].1),
{
    let a = seq![("description"@, JsonView::Str(row.description))];
    absent_member_is_not_found(a, rule);
    first_member_is_found(kind_members(row.kind), rule, i);
    lookup_concat(a, kind_members(row.kind), rule);
}

/// The schema says of each property of the `service` block what it may hold: a
/// name has at most sixteen characters, a deploy type and a runtime are among
/// those known, and a switch has its default.
pub proof fn schema_states_the_rules(r: Json)
    requires
        call_ensures(crate::schema::config_schema, (), r),
    ensures
        service_rule(r@, "name"@, "type"@) == Some(JsonView::Str("string"@)),
        service_rule(r@, "name"@, "maxLength"@) == Some(JsonView::Num("16"@)),
        service_rule(r@, "deploy_type"@, "enum"@) == Some(strings_view(strs(DEPLOY_TYPES@))),
        service_rule(r@, "runtime"@, "enum"@) == Some(strings_view(strs(RUNTIMES@))),
        service_rule(r@, "root_path"@, "default"@) == Some(JsonView::Str("."@)),
        service_rule(r@, "active"@, "default"@) == Some(JsonView::Bool(true)),
        service_rule(r@, "maintenance_mode"@, "default"@) == Some(JsonView::Bool(false)),
        service_rule(r@, "active"@, "type"@) == Some(JsonView::Str("boolean"@)),
        service_rule(r@, "maintenance_mode"@, "type"@) == Some(JsonView::Str("boolean"@)),
        service_rule(r@, "fk_pod"@, "type"@) == Some(JsonView::Str("string"@)),
        service_rule(r@, "fk_region"@, "type"@) == Some(JsonView::Str("string"@)),
        may_be_null(service_rule(r@, "build_command"@, "type"@)),
        may_be_null(service_rule(r@, "build_path"@, "type"@)),
        may_be_null(service_rule(r@, "fk_service_secret"@, "type"@)),
        may_be_null(service_rule(r@, "health_check_path"@, "type"@)),
        may_be_null(service_rule(r@, "pre_deploy_command"@, "type"@)),
        may_be_null(service_rule(r@, "registry_url"@, "type"@)),
        may_be_null(service_rule(r@, "repository_branch"@, "type"@)),
        may_be_null(service_rule(r@, "repository_url"@, "type"@)),
        may_be_null(service_rule(r@, "run_command"@, "type"@)),
{
    schema_shapes();
    reveal_with_fuel(decimal_of, 3);
    reveal_strlit("16");
    assert(decimal_of(16) =~= "16"@);
    let rows = service_rows();
    property_is_under_its_name("active"@, 0);
    rule_follows_the_description(rows[0], "type"@, 0);
    rule_follows_the_description(rows[0], "default"@, 1);
    property_is_under_its_name("build_command"@, 1);
    rule_follows_the_description(rows[1], "type"@, 0);
    property_is_under_its_name("build_path"@, 2);
    rule_follows_the_description(rows[2], "type"@, 0);
    property_is_under_its_name("deploy_type"@, 3);
    rule_follows_the_description(rows[3], "enum"@, 1);
    property_is_under_its_name("fk_pod"@, 5);
    rule_follows_the_description(rows[5], "type"@, 0);
    property_is_under_its_name("fk_region"@, 6);
    rule_follows_the_description(rows[6], "type"@, 0);
    property_is_under_its_name("fk_service_secret"@, 7);
    rule_follows_the_description(rows[7], "type"@, 0);
    property_is_under_its_name("health_check_path"@, 8);
    rule_follows_the_description(rows[8], "type"@, 0);
    property_is_under_its_name("maintenance_mode"@, 9);
    rule_follows_the_description(rows[9], "type"@, 0);
    rule_follows_the_description(rows[9], "default"@, 1);
    property_is_under_its_name("name"@, 10);
    rule_follows_the_description(rows[10], "type"@, 0);
    rule_follows_the_description(rows[10], "maxLength"@, 1);
    property_is_under_its_name("pre_deploy_command"@, 11);
    rule_follows_the_description(rows[11], "type"@, 0);
    property_is_under_its_name("registry_url"@, 12);
    rule_follows_the_description(rows[12], "type"@, 0);
    property_is_under_its_name("repository_branch"@, 13);
    rule_follows_the_description(rows[13], "type"@, 0);
    property_is_under_its_name("repository_url"@, 14);
    rule_follows_the_description(rows[14], "type"@, 0);
    property_is_under_its_name("root_path"@, 15);
    rule_follows_the_description(rows[15], "default"@, 1);
    property_is_under_its_name("run_command"@, 16);
    rule_follows_the_description(rows[16], "type"@, 0);
    property_is_under_its_name("runtime"@, 17);
    rule_follows_the_description(rows[17], "enum"@, 1);
}

/// Whether a type is text that may also be `null`.
pub open spec fn may_be_null(t: Option<JsonView>) -> bool {
    t == Some(JsonView::Arr(seq![JsonView::Str("string"@), JsonView::Str("null"@)]))
}

/// The schema says of the disk that its size is a whole number from one to ten.
pub proof fn schema_states_the_size(r: Json)
    requires
        call_ensures(crate::schema::config_schema, (), r),
    ensures
        ({
            let disk = member_of(
                member_of(
                    member_of(
                        member_of(member_of(r@, "properties"@)->0, "service"@)->0,
                        "properties"@,
                    )->0,
                    "disk"@,
                )->0,
                "properties"@,
            )->0;
            &&& member_of(member_of(disk, "size"@)->0, "type"@) == Some(JsonView::Str("integer"@))
            &&& member_of(member_of(disk, "size"@)->0, "minimum"@) == Some(JsonView::Num("1"@))
            &&& member_of(member_of(disk, "size"@)->0, "maximum"@) == Some(JsonView::Num("10"@))
            &&& member_of(member_of(disk, "mount_path"@)->0, "type"@) == Some(
                JsonView::Str("string"@),
            )
        }),
{
    schema_shapes();
    reveal_with_fuel(decimal_of, 3);
    reveal_strlit("1");
    reveal_strlit("10");
    assert(decimal_of(1) =~= "1"@);
    assert(decimal_of(10) =~= "10"@);
    property_is_under_its_name("disk"@, 4);
    let parts = disk_rows().map_values(|r: RowView| (r.name, simple_prop(r)));
    if let JsonView::Obj(m) = disk_schema() {
        first_member_is_found(m, "properties"@, 3);
    }
    first_member_is_found(parts, "mount_path"@, 0);
    first_member_is_found(parts, "size"@, 1);
    rule_follows_the_description(disk_rows()[0], "type"@, 0);
    rule_follows_the_description(disk_rows()[1], "type"@, 0);
    rule_follows_the_description(disk_rows()[1], "minimum"@, 2);
    rule_follows_the_description(disk_rows()[1], "maximum"@, 3);
}

} // verus!
