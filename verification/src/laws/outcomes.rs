//! What the commands decide, stated of every result that they may give.
use vstd::prelude::*;
use vstd::string::*;

use crate::auth::{
    after_word, crlf_parts, first_word, host_matches, query_param, target_query, Answer, AuthArgs,
    KeySource, KeyWrite,
};
use crate::client::{
    ApiRequest, Job, Method, Project, Region, Service, Volume, Workspace, WorkspaceSecret,
};
use crate::common::{cancelled_error, label_index, Confirmation, Resolved};
use crate::config::{
    checks_of, config_flag_suffix_of, ConfigOverride, DiskConfig, PartiriConfig, ServiceConfig,
};
use crate::error::{Failure, FailureView};
use crate::init::{InitArgs, InitStart};
use crate::jobs::{newest_first, JobRow};
use crate::json::{
    absent_member_is_not_found, first_member_is_found, member_of, set_in, set_keeps_the_others,
    set_then_get, Json, JsonView,
};
use crate::laws::agents::{
    doctor_fails_when, misses_a_reference, next_command_leads_on,
    next_step_is_the_first_that_is_open,
};
use crate::laws::bodies::{if_given, key_shapes, said, secret_body_says_each_part};
use crate::laws::commands::tokens_to_pick;
use crate::laws::editor::{
    failing_checks_are_shown, has_prop, is_about, place, problem_is_shown_on_its_value, shown,
};
use crate::laws::requests::picked_label_is_found;
use crate::laws::validation::has_text;
use crate::listings::{ProjectRow, RegionRow, ServiceListRow, WorkspaceRow};
use crate::llm::{Advice, ApiProbe, ConfigProbe, Credentials, DoctorCheck, NextConfig};
use crate::lsp::diagnostics::{diags_view, local_of, Diagnostic, Severity};
use crate::lsp::documents::position_of;
use crate::lsp::locate::{Parsed, PropView, Span};
use crate::mcp::{entry_view, servers_in, SERVER_NAME};
use crate::output::{Ctx, Listing, Report};
use crate::schema::SchemaIndex;
use crate::secret::{
    repository_user, secret_value, CreateRegistryArgs, CreateRepositoryArgs, StdinLine,
};
use crate::service::env::EnvAction;
use crate::service::pull::PullPlan;
use crate::service::token::{offered, secret_label_of, TokenArgs, TokenPlan};
use crate::storage::service_volume;
use crate::text::{opt_view, trimmed, views};

verus! {

/// Whether a diagnostic shows a message over a place of the document.
pub open spec fn shows_at(
    all: Seq<Diagnostic>,
    text: Seq<char>,
    span: Span,
    severity: Severity,
    message: Seq<char>,
) -> bool {
    exists|k: int|
        {
            &&& 0 <= k < all.len()
            &&& (#[trigger] all[k]).message@ == message
            &&& all[k].severity == severity
            &&& all[k].start == position_of(text, span.start as int)
            &&& all[k].end == position_of(text, span.end as int)
        }
}

/// A label is found at its first place.
pub proof fn label_found(all: Seq<Seq<char>>, label: Seq<char>, from: int)
    requires
        0 <= from <= all.len(),
    ensures
        from <= label_index(all, label, from) <= all.len(),
        label_index(all, label, from) < all.len() ==> all[label_index(all, label, from)] == label,
        forall|k: int| from <= k < label_index(all, label, from) ==> #[trigger] all[k] != label,
    decreases all.len() - from,
{
    if from < all.len() && all[from] != label {
        label_found(all, label, from + 1);
    }
}

/// A token that is named is linked, and a token is cleared on request;
/// otherwise it is picked, or refused where nothing can be asked.
pub proof fn tokens_are_linked_and_cleared(
    c: PartiriConfig,
    a: TokenArgs,
    ctx: Ctx,
    r: Result<TokenPlan, Failure>,
)
    requires
        call_ensures(crate::service::token::run, (c, a, ctx), r),
    ensures
        a.secret is Some ==> r is Ok && r->Ok_0 is Save
            && r->Ok_0->Save_0.service.fk_service_secret == a.secret,
        a.secret is None && a.clear ==> r is Ok && r->Ok_0 is Save
            && r->Ok_0->Save_0.service.fk_service_secret is None,
        r is Ok && r->Ok_0 is Save ==> r->Ok_0->Save_0.id == c.id && r->Ok_0->Save_0.service.name
            == c.service.name,
        a.secret is None && !a.clear ==> (r is Err <==> ctx.no_input),
        a.secret is None && !a.clear && !ctx.no_input ==> r->Ok_0 is Pick && (r->Ok_0->Pick_1
            <==> has_text(c.service.registry_url)),
{
}

/// The token that was picked is the one that is linked; the first choice clears it.
pub proof fn picked_tokens_are_linked(
    c: PartiriConfig,
    secrets: &Vec<WorkspaceSecret>,
    labels: &Vec<String>,
    choice: Option<String>,
    r: Result<(PartiriConfig, String), Failure>,
)
    requires
        views(labels@) == offered(secrets@),
        call_ensures(crate::service::token::picked_token, (c, secrets, labels, choice), r),
    ensures
        choice is None ==> r is Err,
        choice is Some && choice->0@ == "-- none (clear token) --"@ ==> r is Ok
            && r->Ok_0.0.service.fk_service_secret is None,
        r is Ok ==> r->Ok_0.0.service.fk_service_secret is None || exists|i: int|
            0 <= i < secrets@.len() && r->Ok_0.0.service.fk_service_secret == Some(
                (#[trigger] secrets@[i]).id,
            ) && secret_label_of(secrets@[i]) == choice->0@,
        r is Ok ==> r->Ok_0.0.id == c.id && r->Ok_0.0.service.name == c.service.name,
{
    tokens_to_pick(secrets@);
    if let Some(x) = choice {
        let all = offered(secrets@);
        let at = label_index(all, x@, 0);
        label_found(all, x@, 0);
        if x@ == all[0] {
            picked_label_is_found(all, 0, 0);
        }
        if 0 < at < all.len() {
            assert(all[at] == x@);
            assert(secret_label_of(secrets@[at - 1]) == x@);
        }
    }
}

/// Variables are saved, replaced or shown as the flags say, for a service that exists.
pub proof fn flags_of_env_decide(
    c: &PartiriConfig,
    path: Option<String>,
    save: bool,
    r: Result<EnvAction, Failure>,
)
    requires
        call_ensures(crate::service::env::run, (c, path, save), r),
    ensures
        r is Ok <==> c.id is Some,
        r is Ok && save ==> r->Ok_0 is Save,
        r is Ok && !save && path is Some ==> r->Ok_0 is Replace && r->Ok_0->Replace_0 == path->0,
        r is Ok && !save && path is None ==> r->Ok_0 is Show,
{
}

/// The volume of a new service is attached to it and has the size and the
/// mount of the disk block.
pub proof fn new_services_get_their_disk(c: &PartiriConfig, id: &str, r: Option<Volume>)
    requires
        call_ensures(crate::service::create::disk_volume, (c, id), r),
    ensures
        r is Some <==> c.service.disk is Some,
        r is Some ==> opt_view(r->0.fk_service) == Some(id@),
        r is Some ==> r->0.size == c.service.disk->0.size && r->0.mount_path@
            == c.service.disk->0.mount_path@,
        r is Some ==> r->0.fk_project@ == c.fk_project@ && r->0.fk_workspace@ == c.fk_workspace@
            && r->0.fk_region@ == c.service.fk_region@,
        r is Some ==> r->0.id is None,
{
}

/// An explicit refresh takes the tag and the live disk, and keeps every other edit.
pub proof fn refreshes_keep_local_edits(
    c: PartiriConfig,
    s: &Service,
    fetched: Result<Option<DiskConfig>, Failure>,
    ctx: Ctx,
    r: (PartiriConfig, Option<String>),
)
    requires
        call_ensures(crate::service::pull::refresh_existing, (c, s, fetched, ctx), r),
    ensures
        r.0.deploy_tag == s.deploy_tag,
        fetched is Ok && fetched->Ok_0 is Some ==> r.0.service.disk == fetched->Ok_0,
        !(fetched is Ok && fetched->Ok_0 is Some) ==> r.0.service.disk == c.service.disk,
        r.0.service == (ServiceConfig { disk: r.0.service.disk, ..c.service }),
        r.0.id == c.id && r.0.fk_workspace == c.fk_workspace && r.0.fk_project == c.fk_project,
        fetched is Err && !ctx.json ==> r.1 is Some,
        ctx.json ==> r.1 is None,
{
}

/// The disk of a service is that of its live volume; a list that failed is
/// not an empty one.
pub proof fn live_disks_are_read(
    v: Result<Vec<Volume>, Failure>,
    id: &str,
    r: Result<Option<DiskConfig>, Failure>,
)
    requires
        call_ensures(crate::service::pull::fetch_service_disk, (v, id), r),
    ensures
        r is Ok <==> v is Ok,
        r is Ok ==> (r->Ok_0 is Some <==> service_volume(v->Ok_0@, id@) is Some),
        r is Ok && r->Ok_0 is Some ==> r->Ok_0->0.size == service_volume(v->Ok_0@, id@)->0.size
            && r->Ok_0->0.mount_path == service_volume(v->Ok_0@, id@)->0.mount_path,
{
}

/// A pull refreshes a file that has an id, and otherwise lets the user pick,
/// after a confirmation where there is a file.
pub proof fn pull_refreshes_or_selects(
    loaded: Option<PartiriConfig>,
    path_exists: bool,
    ctx: Ctx,
    over: &ConfigOverride,
    r: PullPlan,
)
    requires
        call_ensures(crate::service::pull::run, (loaded, path_exists, ctx, over), r),
    ensures
        loaded is Some && loaded->0.id is Some ==> r is Refresh && r->Refresh_0 == loaded->0,
        !(loaded is Some && loaded->0.id is Some) ==> (r is Refuse <==> ctx.no_input),
        !(loaded is Some && loaded->0.id is Some) && !ctx.no_input ==> (r is ConfirmThenSelect
            <==> path_exists) && (r is Select <==> !path_exists),
{
}

/// Jobs are listed newest first: all of them in JSON, five at most in a table.
pub proof fn jobs_are_listed_newest_first(jobs: Vec<Job>, ctx: Ctx, r: Listing<JobRow>)
    requires
        call_ensures(crate::jobs::run_list, (jobs, ctx), r),
    ensures
        r is Message <==> jobs@.len() == 0 && !ctx.json,
        r is Rows ==> r->Rows_0@.len() <= jobs@.len() && (ctx.json ==> r->Rows_0@.len()
            == jobs@.len()) && (!ctx.json ==> r->Rows_0@.len() <= 5),
        r is Rows && !ctx.json && jobs@.len() > 5 ==> r->Rows_0@.len() == 5,
        r is Rows ==> forall|i: int| 0 <= i < r->Rows_0@.len()
            ==> (#[trigger] r->Rows_0@[i]).status@ == newest_first(jobs@)[i].status@
            && r->Rows_0@[i].job_type@ == newest_first(jobs@)[i].job_type@,
{
}

/// Each record is listed, in its order.
pub proof fn list_services_shows_each(v: &Vec<Service>, ctx: Ctx, r: Listing<ServiceListRow>)
    requires
        call_ensures(crate::listings::list_services, (v, ctx), r),
    ensures
        r is Message <==> v@.len() == 0 && !ctx.json,
        v@.len() > 0 ==> r is Rows && r->Rows_0@.len() == v@.len(),
        v@.len() > 0 ==> forall|i: int| 0 <= i < v@.len() ==> (#[trigger] r->Rows_0@[i]).id@
            == v@[i].id@ && r->Rows_0@[i].name@ == v@[i].name@ && r->Rows_0@[i].runtime@
            == v@[i].runtime@ && r->Rows_0@[i].deploy_type@ == v@[i].deploy_type@,
{
}

/// Each record is listed, in its order.
pub proof fn list_projects_shows_each(v: &Vec<Project>, ctx: Ctx, r: Listing<ProjectRow>)
    requires
        call_ensures(crate::listings::list_projects, (v, ctx), r),
    ensures
        r is Message <==> v@.len() == 0 && !ctx.json,
        v@.len() > 0 ==> r is Rows && r->Rows_0@.len() == v@.len(),
        v@.len() > 0 ==> forall|i: int| 0 <= i < v@.len() ==> (#[trigger] r->Rows_0@[i]).id@
            == v@[i].id@ && r->Rows_0@[i].name@ == v@[i].name@ && r->Rows_0@[i].environment@
            == v@[i].environment@,
{
}

/// Each record is listed, in its order.
pub proof fn list_workspaces_shows_each(v: &Vec<Workspace>, ctx: Ctx, r: Listing<WorkspaceRow>)
    requires
        call_ensures(crate::listings::list_workspaces, (v, ctx), r),
    ensures
        r is Message <==> v@.len() == 0 && !ctx.json,
        v@.len() > 0 ==> r is Rows && r->Rows_0@.len() == v@.len(),
        v@.len() > 0 ==> forall|i: int| 0 <= i < v@.len() ==> (#[trigger] r->Rows_0@[i]).id@
            == v@[i].id@ && r->Rows_0@[i].name@ == v@[i].name@,
{
}

/// Each record is listed, in its order.
pub proof fn list_regions_shows_each(v: &Vec<Region>, ctx: Ctx, r: Listing<RegionRow>)
    requires
        call_ensures(crate::listings::list_regions, (v, ctx), r),
    ensures
        r is Message <==> v@.len() == 0 && !ctx.json,
        v@.len() > 0 ==> r is Rows && r->Rows_0@.len() == v@.len(),
        v@.len() > 0 ==> forall|i: int| 0 <= i < v@.len() ==> (#[trigger] r->Rows_0@[i]).id@
            == v@[i].id@ && r->Rows_0@[i].name@ == v@[i].name@,
{
}

/// A registry secret is posted with what was given for it.
pub proof fn registry_secrets_are_posted(
    a: CreateRegistryArgs,
    w: &str,
    line: StdinLine,
    r: Result<ApiRequest, Failure>,
)
    requires
        call_ensures(crate::secret::run_create_registry, (a, w, line), r),
    ensures
        r is Ok <==> a.name is Some && a.provider is Some && a.username is Some
            && (a.password is Some || (a.password_stdin && line is Line)),
        r is Ok ==> r->Ok_0@.path == "/workspaces/secrets/registry"@ && r->Ok_0@.method
            == Method::Post && r->Ok_0@.body is Some,
        r is Ok ==> member_of(r->Ok_0@.body->0, "name"@) == if_given(a.name),
        r is Ok ==> member_of(r->Ok_0@.body->0, "provider"@) == if_given(a.provider),
        r is Ok ==> member_of(r->Ok_0@.body->0, "fk_workspace"@) == said(w@),
        r is Ok ==> member_of(member_of(r->Ok_0@.body->0, "data"@)->0, "username"@)
            == if_given(a.username),
        r is Ok && a.password is Some
            ==> member_of(member_of(r->Ok_0@.body->0, "data"@)->0, "password"@)
            == if_given(a.password),
        r is Ok && a.password is None
            ==> member_of(member_of(r->Ok_0@.body->0, "data"@)->0, "password"@)
            == said(trimmed(line->Line_0@)),
{
    if r is Ok {
        let pw = secret_value(a.password, a.password_stdin, "password"@, line)->Ok_0;
        let data = seq![
            ("username"@, JsonView::Str(a.username->0@)),
            ("password"@, JsonView::Str(pw)),
        ];
        secret_body_says_each_part(a.name->0@, w@, a.provider->0@, data);
        key_shapes();
        first_member_is_found(data, "username"@, 0);
        first_member_is_found(data, "password"@, 1);
    }
}

/// A repository secret is posted with its token, and with a user for Bitbucket alone.
pub proof fn repository_secrets_are_posted(
    a: CreateRepositoryArgs,
    w: &str,
    line: StdinLine,
    r: Result<ApiRequest, Failure>,
)
    requires
        call_ensures(crate::secret::run_create_repository, (a, w, line), r),
    ensures
        r is Ok <==> a.name is Some && a.provider is Some && (a.token is Some || (a.token_stdin
            && line is Line)),
        r is Ok ==> r->Ok_0@.path == "/workspaces/secrets/repository"@ && r->Ok_0@.method
            == Method::Post && r->Ok_0@.body is Some,
        r is Ok ==> member_of(r->Ok_0@.body->0, "name"@) == if_given(a.name),
        r is Ok ==> member_of(r->Ok_0@.body->0, "provider"@) == if_given(a.provider),
        r is Ok ==> member_of(r->Ok_0@.body->0, "fk_workspace"@) == said(w@),
        r is Ok && a.token is Some
            ==> member_of(member_of(r->Ok_0@.body->0, "data"@)->0, "value"@) == if_given(a.token),
        r is Ok && a.provider->0@ == "bitbucket"@ && a.username is Some
            ==> member_of(member_of(r->Ok_0@.body->0, "data"@)->0, "key"@) == if_given(a.username),
        r is Ok && a.provider->0@ != "bitbucket"@
            ==> member_of(member_of(r->Ok_0@.body->0, "data"@)->0, "key"@) == said(seq![]),
{
    if r is Ok {
        let token = secret_value(a.token, a.token_stdin, "token"@, line)->Ok_0;
        let user = repository_user(a);
        let data = seq![("key"@, JsonView::Str(user)), ("value"@, JsonView::Str(token))];
        secret_body_says_each_part(a.name->0@, w@, a.provider->0@, data);
        key_shapes();
        first_member_is_found(data, "key"@, 0);
        first_member_is_found(data, "value"@, 1);
        reveal_strlit("");
        assert(""@ =~= seq![]);
    }
}

/// Only a database is read as one.
pub proof fn databases_are_not_services(s: Service, id: &str, r: Result<Service, Failure>)
    requires
        call_ensures(crate::databases::read_database, (s, id), r),
    ensures
        r is Ok <==> s.deploy_type@ == "database"@,
        r is Ok ==> r->Ok_0 == s,
{
}

/// A file that is there is never overwritten, and the wizard needs a terminal.
pub proof fn init_never_overwrites(
    a: &InitArgs,
    path_exists: bool,
    ctx: Ctx,
    over: &ConfigOverride,
    r: Result<InitStart, Failure>,
)
    requires
        call_ensures(crate::init::run, (a, path_exists, ctx, over), r),
    ensures
        path_exists ==> r is Err,
        !path_exists && a.template ==> r is Ok && r->Ok_0 == InitStart::Template,
        !path_exists && !a.template ==> (r is Err <==> ctx.no_input),
        !path_exists && !a.template && !ctx.no_input ==> r->Ok_0 == InitStart::ChooseMode,
{
}

/// Advice says the state and the command that leads on.
pub proof fn advice_is_the_next_step(
    key: bool,
    config: NextConfig,
    over: &ConfigOverride,
    r: Advice,
)
    requires
        call_ensures(crate::llm::run_next, (key, config, over), r),
    ensures
        r.state@ == "needs_auth"@ <==> !key,
        r.state@ == "needs_init"@ <==> key && config is Missing,
        r.state@ == "config_broken"@ <==> key && config is Broken,
        r.state@ == "needs_uuids"@ <==> key && config is Loaded
            && misses_a_reference(config->Loaded_0),
        r.state@ == "needs_create"@ <==> key && config is Loaded
            && !misses_a_reference(config->Loaded_0) && config->Loaded_0.id is None,
        r.state@ == "needs_create"@ ==> r.next_command@
            == "partiri -j validate --remote"@ + config_flag_suffix_of(over@) + " && partiri -j -y service create"@ + config_flag_suffix_of(over@),
{
    next_step_is_the_first_that_is_open(key, config, over@);
    next_command_leads_on(key, config, over@);
}

/// The doctor fails exactly where a check does.
pub proof fn doctor_reports_failures(
    c: &Credentials,
    loaded: bool,
    api: &ApiProbe,
    config: &ConfigProbe,
    over: &ConfigOverride,
    r: (Vec<DoctorCheck>, Result<(), Failure>),
)
    requires
        call_ensures(crate::llm::run_doctor, (c, loaded, api, config, over), r),
    ensures
        r.1 is Err <==> !(*c is Found) || !loaded || !(*api is Workspaces) || *config is Broken,
{
    doctor_fails_when(*c, loaded, *api, *config, over@);
}

/// A key comes from its flag, from standard input, or from a prompt.
pub proof fn key_sources(a: AuthArgs, dir: bool, ctx: Ctx, r: Result<KeySource, Failure>)
    requires
        call_ensures(crate::auth::run, (a, dir, ctx), r),
    ensures
        !dir ==> r is Err,
        dir && a.key is Some ==> r is Ok && r->Ok_0 is Flag && r->Ok_0->Flag_0 == a.key->0,
        dir && a.key is None && a.key_stdin ==> r is Ok && r->Ok_0 is Stdin,
        dir && a.key is None && !a.key_stdin ==> (r is Err <==> ctx.no_input),
        dir && a.key is None && !a.key_stdin && !ctx.no_input ==> r->Ok_0 is Prompt,
{
}

/// Signing in through the browser needs a terminal.
pub proof fn browser_login_needs_a_terminal(ctx: Ctx, r: Result<(), Failure>)
    requires
        call_ensures(crate::auth::run_login, (ctx,), r),
    ensures
        r is Ok <==> !ctx.json && !ctx.no_input,
{
}

/// A callback gives its key where its state is the one that was handed out.
pub proof fn callbacks_are_judged(
    text: &str,
    state: &str,
    port: u16,
    r: (Option<Answer>, Result<String, Failure>),
)
    requires
        call_ensures(crate::auth::judge_callback, (text, state, port), r),
    ensures
        r.1 is Ok ==> r.0 == Some(Answer::SignedIn),
        r.0 == Some(Answer::SignedIn) ==> r.1 is Ok,
        r.1 is Ok ==> query_param(target_query(first_word(after_word(crlf_parts(text@, 0)[0]))), "state"@) == Some(state@),
        r.1 is Ok ==> query_param(target_query(first_word(after_word(crlf_parts(text@, 0)[0]))), "key"@) == Some(r.1->Ok_0@),
        r.1 is Ok ==> host_matches(crlf_parts(text@, 0), 1, port),
{
}

/// A key was stored where it reads back.
pub proof fn written_keys_read_back(key: &str, path: &str, w: KeyWrite, r: Result<Report, Failure>)
    requires
        call_ensures(crate::auth::key_written, (key, path, w), r),
    ensures
        r is Ok <==> w is Written && trimmed(w->Written_0@) == key@,
{
}

/// A cancelled command exits with two, and any other failure with one.
pub proof fn exit_codes(e: &Failure, r: i32)
    requires
        call_ensures(crate::cli::exit_code_for, (e,), r),
    ensures
        r == 1 || r == 2,
        e@ == FailureView::Cli(cancelled_error()) ==> r == 2,
        e@ is Text && trimmed(e@->Text_0) != "Cancelled."@ ==> r == 1,
        e@ is Cli && e@->Cli_0.code == "cancelled"@ ==> r == 2,
{
}

/// Installing puts the server in and says whether it was there.
pub proof fn servers_are_installed(config: Json, key: &str, r: Result<(Json, bool), Failure>)
    requires
        call_ensures(crate::mcp::install, (config, key), r),
    ensures
        r is Ok ==> member_of(member_of((r->Ok_0).0@, key@)->0, "partiri-cloud"@) is Some,
        r is Ok ==> member_of(member_of(member_of((r->Ok_0).0@, key@)->0, "partiri-cloud"@)->0, "url"@) == said("https://mcp.partiri.cloud/mcp"@),
        r is Ok ==> forall|k: Seq<char>| k != key@ ==> #[trigger] member_of((r->Ok_0).0@, k)
            == member_of(config@, k),
        config@ is Obj && member_of(config@, key@) is None ==> r is Ok && !(r->Ok_0).1,
{
    if config@ is Obj {
        let m = config@->Obj_0;
        if let JsonView::Obj(servers) = servers_in(m, key@) {
            let inner = set_in(servers, SERVER_NAME@, entry_view());
            set_then_get(m, key@, JsonView::Obj(inner));
            set_then_get(servers, SERVER_NAME@, entry_view());
            first_member_is_found(entry_view()->Obj_0, "url"@, 0);
            assert forall|k: Seq<char>| k != key@ implies #[trigger] member_of(
                JsonView::Obj(set_in(m, key@, JsonView::Obj(inner))),
                k,
            ) == member_of(config@, k) by {
                set_keeps_the_others(m, key@, JsonView::Obj(inner), k);
            }
        }
        if member_of(config@, key@) is None {
            absent_member_is_not_found(seq![], SERVER_NAME@);
        }
    }
}

/// The only workspace is taken, one of many is asked for, and none is an error.
pub proof fn one_workspace_is_taken(v: &Vec<Workspace>, ctx: Ctx, r: Result<Resolved, Failure>)
    requires
        call_ensures(crate::common::resolve_workspace, (v, ctx), r),
    ensures
        v@.len() == 0 ==> r is Err,
        v@.len() == 1 ==> r is Ok && r->Ok_0 is One && r->Ok_0->One_0@ == v@[0].id@,
        v@.len() > 1 ==> (r is Err <==> ctx.no_input),
        v@.len() > 1 && !ctx.no_input ==> r->Ok_0 is Ask && r->Ok_0->Ask_0@.len() == v@.len(),
{
    if r is Ok && r->Ok_0 is Ask {
        assert(views(r->Ok_0->Ask_0@).len() == r->Ok_0->Ask_0@.len());
    }
}

/// The only project is taken, one of many is asked for, and none is an error.
pub proof fn one_project_is_taken(v: &Vec<Project>, ctx: Ctx, r: Result<Resolved, Failure>)
    requires
        call_ensures(crate::common::resolve_project, (v, ctx), r),
    ensures
        v@.len() == 0 ==> r is Err,
        v@.len() == 1 ==> r is Ok && r->Ok_0 is One && r->Ok_0->One_0@ == v@[0].id@,
        v@.len() > 1 ==> (r is Err <==> ctx.no_input),
        v@.len() > 1 && !ctx.no_input ==> r->Ok_0 is Ask && r->Ok_0->Ask_0@.len() == v@.len(),
{
    if r is Ok && r->Ok_0 is Ask {
        assert(views(r->Ok_0->Ask_0@).len() == r->Ok_0->Ask_0@.len());
    }
}

/// What was picked is the record whose label was picked.
pub proof fn picked_records_are_found(
    labels: &Vec<String>,
    choice: Result<String, String>,
    r: Result<usize, Failure>,
)
    requires
        call_ensures(crate::common::select_by_label, (labels, choice), r),
    ensures
        choice is Err ==> r is Err,
        r is Ok ==> r->Ok_0 < labels@.len() && labels@[r->Ok_0 as int]@ == choice->Ok_0@,
        r is Ok ==> forall|k: int| 0 <= k < r->Ok_0 ==> (#[trigger] labels@[k])@ != choice->Ok_0@,
{
    if r is Ok {
        let all = views(labels@);
        label_found(all, choice->Ok_0@, 0);
        assert forall|k: int| 0 <= k < r->Ok_0 implies (#[trigger] labels@[k])@ != choice->Ok_0@ by {
            assert(all[k] == labels@[k]@);
        }
    }
}

/// A deploy goes ahead unasked only where the user said yes beforehand.
pub proof fn deploys_are_confirmed(ctx: Ctx, name: &str, r: Confirmation)
    requires
        call_ensures(crate::service::run::confirm_deploy, (ctx, name), r),
    ensures
        r is Proceed <==> ctx.yes,
        r is Refuse <==> !ctx.yes && ctx.no_input,
        r is Ask ==> r->Ask_0@ == "Are you sure you want to deploy service "@ + name@ + "?"@,
{
}

/// A failing check is shown as an error on the value that it is about.
pub proof fn problems_are_shown_in_the_document(
    text: &str,
    parsed: &Parsed,
    config: &Result<PartiriConfig, String>,
    schema: &SchemaIndex,
    r: Vec<Diagnostic>,
)
    requires
        schema.wf(),
        call_ensures(crate::lsp::diagnostics::diagnose, (text, parsed, config, schema), r),
    ensures
        (parsed@ is Value && *config is Ok) ==> forall|i: int, key: Seq<char>, service: PropView, p: PropView|
            #![trigger checks_of(config->Ok_0)[i], has_prop(parsed@->Value_0, "service"@, service), has_prop(service.value, key, p)]
            0 <= i < checks_of(config->Ok_0).len() && !checks_of(config->Ok_0)[i].ok
                && is_about(checks_of(config->Ok_0)[i].field, key)
                && has_prop(parsed@->Value_0, "service"@, service)
                && has_prop(service.value, key, p)
                ==> shows_at(r@, text@, place(p.value), Severity::Error, checks_of(config->Ok_0)[i].message),
        parsed@ is Empty ==> r@.len() == 0,
{
    if parsed@ is Value && *config is Ok {
        let n = parsed@->Value_0;
        let c = config->Ok_0;
        failing_checks_are_shown(text@, n, c);
        let all = local_of(text@, parsed@, *config);
        assert forall|i: int, key: Seq<char>, service: PropView, p: PropView|
            #![trigger checks_of(c)[i], has_prop(n, "service"@, service), has_prop(service.value, key, p)]
            0 <= i < checks_of(c).len() && !checks_of(c)[i].ok && is_about(checks_of(c)[i].field, key)
                && has_prop(n, "service"@, service) && has_prop(service.value, key, p) implies shows_at(
            r@,
            text@,
            place(p.value),
            Severity::Error,
            checks_of(c)[i].message,
        ) by {
            problem_is_shown_on_its_value(checks_of(c)[i].field, key, n, service, p);
            let want = shown(
                text@,
                place(p.value),
                Severity::Error,
                "partiri"@,
                checks_of(c)[i].message,
            );
            assert(all.contains(want));
            let k = all.index_of(want);
            assert(diags_view(r@)[k] == want);
            assert(r@[k]@ == want);
        }
    } else if parsed@ is Empty {
        assert(diags_view(r@).len() == r@.len());
    }
}

} // verus!
