//! What is offered, asked for and answered, stated of every result.
use vstd::prelude::*;
use vstd::string::*;

use crate::client::{
    ApiClient, ApiRequest, Job, Method, Project, Region, Service, Volume, Workspace,
};
use crate::config::{ConfigOverride, DiskConfig, EnvVar, PartiriConfig};
use crate::error::{error_text, Failure, FailureView};
use crate::init::Offer;
use crate::jobs::{newest_first, JobRow};
use crate::json::{
    first_member_is_found, member_of, members_view, set_then_get, Json, JsonView, Member,
};
use crate::llm::{ContextData, ProjectService, TemplateArgs};
use crate::lsp::actions::CodeAction;
use crate::lsp::completion::CompletionItem;
use crate::lsp::context_cache::ContextCache;
use crate::lsp::diagnostics::{diags_view, Diagnostic};
use crate::lsp::documents::Position;
use crate::lsp::server::{
    doc_at, pending_at, CommandStep, Level, Notice, PendingAction, RemoteValidation, Server,
};
use crate::mcp::{Family, McpClient};
use crate::output::{Ctx, Listing};
use crate::projects::Needed;
use crate::service::env::{dotenv_of, vars, EnvFile};
use crate::storage::service_volume;
use crate::text::{ascii_lower, has_substring, views};
use crate::validate::CheckRow;

verus! {

// ─── The editor's session ──────────────────────────────────────────────────

/// Nothing of a session changed but what waits for an answer.
pub open spec fn only_the_waiting_changed(a: Server, b: Server) -> bool {
    a.docs == b.docs && a.cache == b.cache && a.schema == b.schema && a.opts == b.opts
        && a.last_remote_run == b.last_remote_run
}

/// A deploy is asked for by the name of the service, under a new number, and
/// waits for the answer with the service's id. Where no service was created
/// there is an error, and nothing waits.
pub proof fn deploy_is_asked_for(config: Option<PartiriConfig>, r: CommandStep)
    ensures
        forall|s: &mut Server| #[trigger]
            call_ensures(Server::cmd_deploy, (s, config), r) ==> only_the_waiting_changed(
                *final(s),
                *s,
            ) && (r is Ask <==> config is Some && config->0.id is Some) && (r is Say ==> *final(s)
                == *s && r->Say_0.level == Level::Error) && (r is Ask ==> {
                &&& r->Ask_0.id != s.next_req_id
                &&& r->Ask_0.message@ == "Deploy service '"@ + config->0.service.name@
                    + "'? This restarts the service."@
                &&& r->Ask_0.choices@.len() == 2
                &&& r->Ask_0.choices@[0]@ == "Deploy"@
                &&& r->Ask_0.choices@[1]@ == "Cancel"@
                &&& final(s).pending@.len() == s.pending@.len() + 1
                &&& forall|i: int|
                    0 <= i < s.pending@.len() ==> #[trigger] final(s).pending@[i] == s.pending@[i]
                &&& final(s).pending@.last().id == r->Ask_0.id
                &&& final(s).pending@.last().action is Deploy
                &&& final(s).pending@.last().action->Deploy_service_id@ == config->0.id->0@
                &&& final(s).pending@.last().action->Deploy_name@ == config->0.service.name@
            }),
{
    assert forall|s: &mut Server| #[trigger]
        call_ensures(Server::cmd_deploy, (s, config), r) && r is Ask implies {
        &&& r->Ask_0.choices@.len() == 2
        &&& r->Ask_0.choices@[0]@ == "Deploy"@
        &&& r->Ask_0.choices@[1]@ == "Cancel"@
        &&& forall|i: int|
            0 <= i < s.pending@.len() ==> #[trigger] final(s).pending@[i] == s.pending@[i]
    } by {
        let c = r->Ask_0.choices@;
        assert(crate::text::strs(c).len() == c.len());
        assert(crate::text::strs(c)[0] == c[0]@ && crate::text::strs(c)[1] == c[1]@);
        assert forall|i: int| 0 <= i < s.pending@.len() implies #[trigger] final(s).pending@[i]
            == s.pending@[i] by {
            assert(final(s).pending@.drop_last()[i] == final(s).pending@[i]);
        }
    }
}

/// A pull is asked for by the path that it overwrites, under a new number, and
/// waits for the answer with the service's id and its place.
pub proof fn pull_is_asked_for(config: Option<PartiriConfig>, path: Option<String>, r: CommandStep)
    ensures
        forall|s: &mut Server| #[trigger]
            call_ensures(Server::cmd_pull, (s, config, path), r) ==> only_the_waiting_changed(
                *final(s),
                *s,
            ) && (r is Ask <==> config is Some && config->0.id is Some && path is Some) && (r is Say
                ==> *final(s) == *s && r->Say_0.level == Level::Error) && (r is Ask ==> {
                let action = final(s).pending@.last().action;
                &&& r->Ask_0.id != s.next_req_id
                &&& r->Ask_0.message@ == "Overwrite "@ + path->0@
                    + " with the deployed configuration?"@
                &&& r->Ask_0.choices@.len() == 2
                &&& r->Ask_0.choices@[0]@ == "Pull"@
                &&& r->Ask_0.choices@[1]@ == "Cancel"@
                &&& final(s).pending@.len() == s.pending@.len() + 1
                &&& final(s).pending@.last().id == r->Ask_0.id
                &&& action is Pull
                &&& action->Pull_service_id@ == config->0.id->0@
                &&& action->Pull_path@ == path->0@
                &&& action->Pull_fk_workspace@ == config->0.fk_workspace@
                &&& action->Pull_fk_project@ == config->0.fk_project@
            }),
{
    assert forall|s: &mut Server| #[trigger]
        call_ensures(Server::cmd_pull, (s, config, path), r) && r is Ask implies {
        &&& r->Ask_0.choices@.len() == 2
        &&& r->Ask_0.choices@[0]@ == "Pull"@
        &&& r->Ask_0.choices@[1]@ == "Cancel"@
    } by {
        let c = r->Ask_0.choices@;
        assert(crate::text::strs(c).len() == c.len());
        assert(crate::text::strs(c)[0] == c[0]@ && crate::text::strs(c)[1] == c[1]@);
    }
}

/// An answer starts what waited for it only where it confirms it, and nothing
/// waits for that answer any more.
pub proof fn only_a_confirmation_starts_it(
    id: i32,
    selected: Option<&str>,
    r: Option<PendingAction>,
)
    ensures
        forall|s: &mut Server| #[trigger]
            call_ensures(Server::handle_response, (s, id, selected), r) ==> {
                &&& pending_at(final(s).pending@, id, 0) is None
                &&& only_the_waiting_changed(*final(s), *s)
                &&& selected is None ==> r is None
                &&& r matches Some(a) ==> pending_at(s.pending@, id, 0) == Some(a) && (a is Deploy
                    ==> selected->0@ == "Deploy"@) && (a is Pull ==> selected->0@ == "Pull"@)
                &&& (pending_at(s.pending@, id, 0) matches Some(a) && a is Deploy && selected is Some
                    && selected->0@ == "Deploy"@) ==> r == pending_at(s.pending@, id, 0)
                &&& (pending_at(s.pending@, id, 0) matches Some(a) && a is Pull && selected is Some
                    && selected->0@ == "Pull"@) ==> r == pending_at(s.pending@, id, 0)
            },
{
    reveal_strlit("Deploy");
    reveal_strlit("Pull");
}

/// A document that was changed is there with its new text and no remote
/// findings; the other documents and the session stay as they were.
pub proof fn changed_document_is_there(
    uri: &str,
    text: String,
    config: &Result<PartiriConfig, String>,
    other: Seq<char>,
    r: Vec<Diagnostic>,
)
    requires
        other != uri@,
    ensures
        forall|s: &mut Server| #[trigger]
            call_ensures(Server::update_doc_text, (s, uri, text, config), r) ==> {
                &&& doc_at(final(s).docs@, uri@) is Some
                &&& doc_at(final(s).docs@, uri@)->0.text == text@
                &&& doc_at(final(s).docs@, uri@)->0.local == diags_view(r@)
                &&& doc_at(final(s).docs@, uri@)->0.remote.len() == 0
                &&& doc_at(final(s).docs@, other) == doc_at(s.docs@, other)
                &&& final(s).pending == s.pending && final(s).cache == s.cache && final(s).opts
                    == s.opts && final(s).next_req_id == s.next_req_id
            },
{
}

/// A document that was closed is not there, and the others are.
pub proof fn closed_document_is_gone(uri: &str, other: Seq<char>)
    requires
        other != uri@,
    ensures
        forall|s: &mut Server| #[trigger]
            call_ensures(Server::close_doc, (s, uri), ()) ==> {
                &&& doc_at(final(s).docs@, uri@) is None
                &&& doc_at(final(s).docs@, other) == doc_at(s.docs@, other)
                &&& final(s).pending == s.pending && final(s).cache == s.cache && final(s).opts
                    == s.opts && final(s).next_req_id == s.next_req_id
            },
{
}

/// A remote validation takes the text of the document and marks its time; one
/// that was not asked for by hand waits five seconds after the last.
pub proof fn validation_waits_after_the_last(uri: &str, by_hand: bool, now: u64, r: Option<String>)
    ensures
        forall|s: &mut Server| #[trigger]
            call_ensures(Server::trigger_remote_validation, (s, uri, by_hand, now), r) ==> {
                let due = by_hand || s.last_remote_run is None || now - s.last_remote_run->0
                    >= 5000;
                &&& final(s).docs == s.docs && final(s).pending == s.pending && final(s).cache
                    == s.cache
                &&& due ==> final(s).last_remote_run == Some(now)
                &&& !due ==> final(s).last_remote_run == s.last_remote_run && r is None
                &&& r is Some <==> due && doc_at(s.docs@, uri@) is Some
                &&& r matches Some(text) ==> text@ == doc_at(s.docs@, uri@)->0.text
            },
{
}

/// Saving starts a remote validation only where it is set to.
pub proof fn saving_validates_where_it_is_set(uri: &str, now: u64, r: Option<String>)
    ensures
        forall|s: &mut Server| #[trigger]
            call_ensures(Server::maybe_remote_validate, (s, uri, now), r) ==> {
                let due = s.opts.remote_validation == RemoteValidation::OnSave && (
                s.last_remote_run is None || now - s.last_remote_run->0 >= 5000);
                &&& final(s).docs == s.docs && final(s).pending == s.pending && final(s).cache
                    == s.cache
                &&& due ==> final(s).last_remote_run == Some(now)
                &&& !due ==> final(s).last_remote_run == s.last_remote_run && r is None
                &&& r is Some <==> due && doc_at(s.docs@, uri@) is Some
                &&& r matches Some(text) ==> text@ == doc_at(s.docs@, uri@)->0.text
            },
{
}

/// Remote findings are kept only for the text that they were made of, and are
/// shown behind the local ones.
pub proof fn findings_are_of_the_text(
    uri: &str,
    text: &str,
    rows: &Vec<CheckRow>,
    r: Option<Vec<Diagnostic>>,
)
    ensures
        forall|s: &mut Server| #[trigger]
            call_ensures(Server::apply_remote, (s, uri, text, rows), r) ==> {
                let before = doc_at(s.docs@, uri@);
                let after = doc_at(final(s).docs@, uri@);
                &&& r is Some <==> before is Some && before->0.text == text@
                &&& r is None ==> *final(s) == *s
                &&& r matches Some(all) ==> after is Some && after->0.text == before->0.text
                    && after->0.local == before->0.local && diags_view(all@) == after->0.local
                    + after->0.remote
                &&& final(s).pending == s.pending && final(s).cache == s.cache
            },
{
}

/// Only one refresh runs at a time.
pub proof fn one_refresh_at_a_time(r: bool)
    ensures
        forall|c: &mut ContextCache| #[trigger]
            call_ensures(ContextCache::begin_refresh, (c,), r) ==> {
                &&& r <==> !c.refreshing
                &&& final(c).refreshing
                &&& final(c).data == c.data && final(c).fetched == c.fetched
            },
{
}

/// A refresh that failed keeps what was known.
pub proof fn failed_refresh_keeps_the_data(fetched: Option<ContextData>, now: u64)
    ensures
        forall|c: &mut ContextCache| #[trigger]
            call_ensures(ContextCache::end_refresh, (c, fetched, now), ()) ==> {
                &&& !final(c).refreshing
                &&& fetched is None ==> final(c).data == c.data && final(c).fetched == c.fetched
                &&& fetched is Some ==> final(c).data == fetched && final(c).fetched == Some(now)
            },
{
}

/// Nothing is offered for a document that is not open, and no actions where
/// they are switched off.
pub proof fn closed_documents_offer_nothing(
    s: &Server,
    uri: &str,
    at: Position,
    config: Option<&PartiriConfig>,
    now: u64,
    items: (Vec<CompletionItem>, bool),
    actions: Vec<CodeAction>,
)
    requires
        call_ensures(Server::on_completion, (s, uri, at, config, now), items),
        call_ensures(Server::on_code_action, (s, uri, config), actions),
    ensures
        doc_at(s.docs@, uri@) is None ==> items.0@.len() == 0 && !items.1 && actions@.len() == 0,
        !s.opts.enable_code_actions ==> actions@.len() == 0,
        doc_at(s.docs@, uri@) is Some ==> (items.1 <==> s.cache.fetched is None || now
            - s.cache.fetched->0 > 300000),
{
}

// ─── The wizard's offers ───────────────────────────────────────────────────

/// Workspaces are picked where there are any, and typed in otherwise.
pub proof fn workspaces_are_picked(list: Option<Result<Vec<Workspace>, Failure>>, r: Offer)
    requires
        call_ensures(crate::init::prompt_for_workspace, (list,), r),
    ensures
        r is Pick <==> list is Some && list->0 is Ok && list->0->Ok_0@.len() > 0,
        r is Pick ==> r->Pick_0@.len() == list->0->Ok_0@.len(),
        list is None ==> r is Type && r->Type_0 is None,
        list is Some && !(r is Pick) ==> r is Type && r->Type_0 is Some,
{
    if r is Pick {
        assert(views(r->Pick_0@).len() == r->Pick_0@.len());
    }
}

/// Projects are picked where there are any, and typed in otherwise.
pub proof fn projects_are_picked(list: Option<Result<Vec<Project>, Failure>>, r: Offer)
    requires
        call_ensures(crate::init::prompt_for_project, (list,), r),
    ensures
        r is Pick <==> list is Some && list->0 is Ok && list->0->Ok_0@.len() > 0,
        r is Pick ==> r->Pick_0@.len() == list->0->Ok_0@.len(),
        list is None ==> r is Type && r->Type_0 is None,
        list is Some && !(r is Pick) ==> r is Type && r->Type_0 is Some,
{
    if r is Pick {
        assert(views(r->Pick_0@).len() == r->Pick_0@.len());
    }
}

/// Regions are picked where there are any, and typed in otherwise.
pub proof fn regions_are_picked(list: Option<Result<Vec<Region>, Failure>>, r: Offer)
    requires
        call_ensures(crate::init::prompt_for_region, (list,), r),
    ensures
        r is Pick <==> list is Some && list->0 is Ok && list->0->Ok_0@.len() > 0,
        r is Pick ==> r->Pick_0@.len() == list->0->Ok_0@.len(),
        list is None ==> r is Type && r->Type_0 is None,
        list is Some && !(r is Pick) ==> r is Type && r->Type_0 is Some,
{
    if r is Pick {
        assert(views(r->Pick_0@).len() == r->Pick_0@.len());
    }
}

/// A pick is the first entry that reads as the choice does.
pub proof fn picks_are_found_by_their_label(
    labels: &Vec<String>,
    choice: Option<String>,
    what: &str,
    r: Result<usize, Failure>,
)
    requires
        call_ensures(crate::service::pull::picked, (labels, choice, what), r),
    ensures
        r matches Ok(i) ==> i < labels@.len() && choice is Some && labels@[i as int]@
            == choice->0@ && forall|k: int| 0 <= k < i ==> (#[trigger] labels@[k])@ != choice->0@,
        choice is None ==> r is Err && r->Err_0@ == FailureView::Text("Cancelled."@),
        choice is Some && (exists|k: int| 0 <= k < labels@.len() && (#[trigger] labels@[k])@
            == choice->0@) ==> r is Ok,
{
    if choice is Some {
        crate::laws::outcomes::label_found(views(labels@), choice->0@, 0);
        assert(views(labels@).len() == labels@.len());
        assert forall|k: int| 0 <= k < labels@.len() implies views(labels@)[k] == (
        #[trigger] labels@[k])@ by {}
    }
}

// ─── The client ────────────────────────────────────────────────────────────

/// A client has the key, and talks over HTTPS or not at all.
pub proof fn clients_talk_over_https(
    key: Option<String>,
    url: Option<String>,
    timeout: Option<String>,
    r: Result<ApiClient, Failure>,
)
    requires
        call_ensures(ApiClient::new, (key, url, timeout), r),
    ensures
        key is None ==> r is Err,
        r matches Ok(c) ==> c.api_key@ == key->0@ && "https://"@.is_prefix_of(c.base_url@),
        r is Ok && url is Some ==> r->Ok_0.base_url@ == url->0@,
        r is Ok && url is None ==> r->Ok_0.base_url@ == "https://api.partiri.cloud"@,
        r is Ok && timeout is None ==> r->Ok_0.timeout_secs == 30,
        key is Some && url is Some && "https://"@.is_prefix_of(url->0@) ==> r is Ok,
{
}

/// A reply is what was parsed where the status is a success, and an error with
/// the status otherwise.
pub proof fn replies_are_what_was_parsed(
    status: u16,
    body: Result<String, String>,
    parsed: Result<Job, String>,
    r: Result<Job, Failure>,
)
    requires
        call_ensures(crate::client::handle_response::<Job>, (status, body, parsed), r),
    ensures
        r is Ok <==> 200 <= status <= 299 && body is Ok && parsed is Ok,
        r matches Ok(x) ==> x == parsed->Ok_0,
        !(200 <= status <= 299) ==> r is Err && r->Err_0@ is Cli && r->Err_0@->Cli_0.code
            == crate::text::decimal_of(status as nat),
        200 <= status <= 299 && body is Err ==> r->Err_0@ == FailureView::Text(
            "Failed to read response: "@ + body->Err_0@,
        ),
{
}

/// The volumes asked for are those of the project.
pub proof fn volumes_asked_for_are_the_projects(
    c: &PartiriConfig,
    over: &ConfigOverride,
    r: Result<ApiRequest, Failure>,
)
    requires
        call_ensures(crate::storage::list_request, (c, over), r),
    ensures
        r matches Ok(q) ==> q.method == Method::Get && q.path@ == "/storage/volumes"@ && q@.query
            == seq![("project"@, c.fk_project@)] && q.body is None,
{
}

// ─── Commands ──────────────────────────────────────────────────────────────

/// An environment is known by its names in any letter case; one that is not
/// known is refused, and one that is missing asked for.
pub proof fn environments_are_known(
    environment: Option<String>,
    ctx: Ctx,
    r: Result<Needed, Failure>,
)
    requires
        call_ensures(crate::projects::project_environment, (environment, ctx), r),
    ensures
        environment is None ==> (r is Err <==> ctx.no_input),
        environment is None && !ctx.no_input ==> r->Ok_0 is Ask,
        environment matches Some(e) && (ascii_lower(e@) == "dev"@ || ascii_lower(e@)
            == "development"@) ==> r is Ok && r->Ok_0 is Known && r->Ok_0->Known_0@ == "dev"@,
        environment matches Some(e) && (ascii_lower(e@) == "staging"@ || ascii_lower(e@) == "stage"@)
            ==> r is Ok && r->Ok_0 is Known && r->Ok_0->Known_0@ == "staging"@,
        environment matches Some(e) && (ascii_lower(e@) == "prod"@ || ascii_lower(e@)
            == "production"@) ==> r is Ok && r->Ok_0 is Known && r->Ok_0->Known_0@ == "prod"@,
        environment is Some && r is Ok ==> r->Ok_0 is Known && (r->Ok_0->Known_0@ == "dev"@
            || r->Ok_0->Known_0@ == "staging"@ || r->Ok_0->Known_0@ == "prod"@),
{
    reveal_strlit("dev");
    reveal_strlit("development");
    reveal_strlit("staging");
    reveal_strlit("stage");
    reveal_strlit("prod");
    reveal_strlit("production");
    assert("dev"@.len() == 3 && "development"@.len() == 11 && "staging"@.len() == 7);
    assert("stage"@.len() == 5 && "prod"@.len() == 4 && "production"@.len() == 10);
}

/// The variables that replace the old ones are those of the file.
pub proof fn replacement_is_the_files(path: &str, file: EnvFile, r: Result<Vec<EnvVar>, Failure>)
    requires
        call_ensures(crate::service::env::replacement, (path, file), r),
    ensures
        file is Missing || file is Unreadable ==> r is Err,
        file matches EnvFile::Text(raw) ==> (r is Ok <==> dotenv_of(raw@) is Ok),
        r matches Ok(v) ==> file is Text && vars(v@) == dotenv_of(file->Text_0@)->Ok_0,
{
}

/// A tool is chosen by its name, in any letter case.
pub proof fn tools_are_chosen_by_name(slug: &str, family: &Family, r: Result<McpClient, Failure>)
    requires
        call_ensures(crate::mcp::chosen_client, (slug, family), r),
    ensures
        r matches Ok(c) ==> {
            &&& c is Cursor ==> ascii_lower(slug@) == ascii_lower("cursor"@)
            &&& c is Vscode ==> ascii_lower(slug@) == ascii_lower("vscode"@)
            &&& c is CopilotCli ==> ascii_lower(slug@) == ascii_lower("copilot-cli"@)
            &&& c is Windsurf ==> ascii_lower(slug@) == ascii_lower("windsurf"@)
            &&& c is ClaudeDesktop ==> ascii_lower(slug@) == ascii_lower(family.word@ + "-desktop"@)
            &&& c is ClaudeCode ==> ascii_lower(slug@) == ascii_lower(family.word@ + "-code"@)
        },
        ascii_lower(slug@) == ascii_lower("cursor"@) ==> r is Ok,
        ascii_lower(slug@) == ascii_lower("vscode"@) ==> r is Ok,
        ascii_lower(slug@) == ascii_lower("copilot-cli"@) ==> r is Ok,
        ascii_lower(slug@) == ascii_lower("windsurf"@) ==> r is Ok,
        ascii_lower(slug@) == ascii_lower(family.word@ + "-desktop"@) ==> r is Ok,
        ascii_lower(slug@) == ascii_lower(family.word@ + "-code"@) ==> r is Ok,
{
    reveal_with_fuel(crate::mcp::client_from, 8);
}

/// An error about storage that is not attached is explained; any other is
/// handed on.
pub proof fn other_errors_are_handed_on(err: Failure, r: Failure)
    requires
        call_ensures(crate::databases::explain_deploy_error, (err,), r),
    ensures
        has_substring(error_text(err@), "no attached storage volume"@) ==> r@ is Cli,
        !has_substring(error_text(err@), "no attached storage volume"@) ==> r == err,
{
}

/// The template is made for what was given, and for a web service on node from
/// a repository where nothing was.
pub proof fn template_is_for_what_was_given(args: &TemplateArgs, r: (String, Json))
    requires
        call_ensures(crate::llm::run_template, (args,), r),
    ensures
        ({
            let dt = if args.deploy_type is Some {
                args.deploy_type->0@
            } else {
                "webservice"@
            };
            let runtime = if args.runtime is Some {
                args.runtime->0@
            } else {
                "node"@
            };
            let source = if args.source is Some {
                args.source->0@
            } else {
                "repo"@
            };
            &&& r.0@ == crate::llm::template_of(dt, runtime, source)
            &&& member_of(r.1@, "deploy_type"@) == Some(JsonView::Str(dt))
            &&& member_of(r.1@, "runtime"@) == Some(JsonView::Str(runtime))
            &&& member_of(r.1@, "source"@) == Some(JsonView::Str(source))
            &&& member_of(r.1@, "template"@) == Some(JsonView::Str(r.0@))
        }),
{
    reveal_strlit("deploy_type");
    reveal_strlit("runtime");
    reveal_strlit("source");
    reveal_strlit("template");
    assert("deploy_type"@.len() == 11 && "runtime"@.len() == 7);
    assert("source"@.len() == 6 && "template"@.len() == 8);
    let m = r.1@->Obj_0;
    first_member_is_found(m, "deploy_type"@, 0);
    first_member_is_found(m, "runtime"@, 1);
    first_member_is_found(m, "source"@, 2);
    first_member_is_found(m, "template"@, 3);
}

/// The path of the configuration is set once.
pub proof fn first_path_stays(path: Option<String>, is_dir: bool, separator: char)
    ensures
        forall|over: &mut ConfigOverride| #[trigger]
            call_ensures(
                crate::config::init_config_path,
                (over, path, is_dir, separator),
                (),
            ) ==> {
                &&& (*over)@ is Some ==> final(over)@ == (*over)@
                &&& path is None ==> final(over)@ == (*over)@
                &&& path is Some && (*over)@ is None ==> final(over)@ is Some
                &&& path is Some && (*over)@ is None && !is_dir ==> path->0@.is_prefix_of(
                    final(over)@->0,
                )
            },
{
}

/// A live disk replaces that of the file, and nothing else changes.
pub proof fn live_disk_replaces_the_files(
    fetched: Result<Option<DiskConfig>, Failure>,
    ctx: Ctx,
    r: Option<String>,
)
    ensures
        forall|c: &mut PartiriConfig| #[trigger]
            call_ensures(crate::service::pull::apply_live_disk, (c, fetched, ctx), r) ==> {
                &&& fetched is Ok && fetched->Ok_0 is Some ==> final(c).service.disk
                    == fetched->Ok_0
                &&& fetched is Err || fetched->Ok_0 is None ==> final(c).service.disk
                    == c.service.disk
                &&& final(c).id == c.id && final(c).fk_workspace == c.fk_workspace
                    && final(c).fk_project == c.fk_project
                &&& final(c).service.name == c.service.name && final(c).service.fk_pod
                    == c.service.fk_pod && final(c).service.env == c.service.env
            },
{
}

/// The services of a project are added behind those that are there, each with
/// its project.
pub proof fn services_are_added_behind(project: &Project, reply: Result<Vec<Service>, Failure>)
    ensures
        forall|out: &mut Vec<ProjectService>| #[trigger]
            call_ensures(crate::llm::add_services, (out, project, reply), ()) ==> {
                &&& reply is Err ==> final(out)@.len() == out@.len()
                &&& reply is Ok ==> final(out)@.len() == out@.len() + reply->Ok_0@.len()
                &&& forall|i: int|
                    0 <= i < out@.len() ==> #[trigger] final(out)@[i] == out@[i]
                &&& reply is Ok ==> forall|i: int|
                    out@.len() <= i < final(out)@.len() ==> (#[trigger] final(out)@[i]).service
                        == reply->Ok_0@[i - out@.len()] && final(out)@[i].fk_project@ == project.id@
            },
{
    assert forall|out: &mut Vec<ProjectService>| #[trigger]
        call_ensures(crate::llm::add_services, (out, project, reply), ()) implies {
        &&& forall|i: int| 0 <= i < out@.len() ==> #[trigger] final(out)@[i] == out@[i]
        &&& reply is Ok ==> forall|i: int|
            out@.len() <= i < final(out)@.len() ==> (#[trigger] final(out)@[i]).service
                == reply->Ok_0@[i - out@.len()] && final(out)@[i].fk_project@ == project.id@
    } by {
        assert forall|i: int| 0 <= i < out@.len() implies #[trigger] final(out)@[i] == out@[i] by {
            assert(final(out)@.take(out@.len() as int)[i] == final(out)@[i]);
        }
        if reply is Ok {
            assert forall|i: int| out@.len() <= i < final(out)@.len() implies (
            #[trigger] final(out)@[i]).service == reply->Ok_0@[i - out@.len()]
                && final(out)@[i].fk_project@ == project.id@ by {
                let k = i - out@.len();
                assert(final(out)@[out@.len() + k].service == reply->Ok_0@[k]);
            }
        }
    }
}

/// A member that was set is read back, and the others are kept.
pub proof fn member_set_is_read_back(key: &str, value: Json)
    ensures
        forall|m: &mut Vec<Member>| #[trigger]
            call_ensures(crate::json::set_member, (m, key, value), ()) ==> member_of(
                JsonView::Obj(members_view(final(m)@)),
                key@,
            ) == Some(value@),
{
    assert forall|m: &mut Vec<Member>| #[trigger]
        call_ensures(crate::json::set_member, (m, key, value), ()) implies member_of(
        JsonView::Obj(members_view(final(m)@)),
        key@,
    ) == Some(value@) by {
        set_then_get(members_view(m@), key@, value@);
    }
}

/// The workspaces to pull from are offered by their labels, in their order.
pub proof fn pulls_offer_what_is_there(
    workspaces: &Vec<Workspace>,
    projects: &Vec<Project>,
    services: &Vec<Service>,
    a: Result<Vec<String>, Failure>,
    b: Result<Vec<String>, Failure>,
    c: Result<Vec<String>, Failure>,
)
    requires
        call_ensures(crate::service::pull::offered_workspaces, (workspaces,), a),
        call_ensures(crate::service::pull::offered_projects, (projects,), b),
        call_ensures(crate::service::pull::offered_services, (services,), c),
    ensures
        a is Err <==> workspaces@.len() == 0,
        b is Err <==> projects@.len() == 0,
        c is Err <==> services@.len() == 0,
        a matches Ok(l) ==> l@.len() == workspaces@.len(),
        b matches Ok(l) ==> l@.len() == projects@.len(),
        c matches Ok(l) ==> l@.len() == services@.len(),
{
    if let Ok(l) = a {
        assert(views(l@).len() == l@.len());
    }
    if let Ok(l) = b {
        assert(views(l@).len() == l@.len());
    }
    if let Ok(l) = c {
        assert(views(l@).len() == l@.len());
    }
}

/// A pull that was written is reported with its path, and a failure as one.
pub proof fn pulls_are_reported(path: &str, outcome: &Result<(), Failure>, r: Notice)
    requires
        call_ensures(crate::lsp::server::pull_notice, (path, outcome), r),
    ensures
        *outcome is Ok ==> r.level == Level::Info && r.text@ == path@ + " pulled from Partiri."@,
        *outcome is Err ==> r.level == Level::Error && r.text@ == "Pull failed: "@ + error_text(
            (*outcome)->Err_0@,
        ),
{
}

/// The account is described by where its key is, whether there is one, the
/// address in use, the first e-mail address known and how many workspaces there
/// are.
pub proof fn account_is_described(
    key_path: &Option<String>,
    configured: bool,
    url: &Option<String>,
    workspaces: &Vec<Workspace>,
    r: Json,
)
    requires
        call_ensures(crate::llm::run_whoami, (key_path, configured, url, workspaces), r),
    ensures
        *key_path matches Some(p) ==> member_of(r@, "key_path"@) == Some(JsonView::Str(p@)),
        member_of(r@, "key_configured"@) == Some(JsonView::Bool(configured)),
        *url matches Some(u) ==> member_of(r@, "api_url"@) == Some(JsonView::Str(u@)),
        *url is None ==> member_of(r@, "api_url"@) == Some(
            JsonView::Str("https://api.partiri.cloud"@),
        ),
        member_of(r@, "workspace_count"@) == Some(
            JsonView::Num(crate::text::decimal_of(workspaces@.len())),
        ),
{
    reveal_strlit("key_path");
    reveal_strlit("key_configured");
    reveal_strlit("api_url");
    reveal_strlit("user_email");
    reveal_strlit("workspace_count");
    assert("key_path"@.len() == 8 && "key_configured"@.len() == 14 && "api_url"@.len() == 7);
    assert("user_email"@.len() == 10 && "workspace_count"@.len() == 15);
    let m = r@->Obj_0;
    first_member_is_found(m, "key_path"@, 0);
    first_member_is_found(m, "key_configured"@, 1);
    first_member_is_found(m, "api_url"@, 2);
    first_member_is_found(m, "workspace_count"@, 4);
}

/// The jobs of a database are listed from the newest on, each in its own row.
pub proof fn database_jobs_are_listed(jobs: Vec<Job>, ctx: Ctx, r: Listing<JobRow>)
    requires
        call_ensures(crate::databases::run_jobs, (jobs, ctx), r),
    ensures
        r is Message <==> jobs@.len() == 0 && !ctx.json,
        r matches Listing::Rows(rows) ==> (ctx.json ==> rows@.len() == jobs@.len()) && rows@.len()
            <= jobs@.len() && forall|i: int|
            0 <= i < rows@.len() ==> (#[trigger] rows@[i]).status@ == newest_first(jobs@)[i].status@
                && rows@[i].job_type@ == newest_first(jobs@)[i].job_type@ && rows@[i].created_at
                == newest_first(jobs@)[i].created_at,
        r is Rows && !ctx.json && jobs@.len() >= 5 ==> r->Rows_0@.len() == 5,
        r is Rows && jobs@.len() < 5 ==> r->Rows_0@.len() == jobs@.len(),
{
}

/// The disk of a service is as large as the volume that it is attached to.
pub proof fn disk_is_the_volumes(svc: &Service, volumes: &Option<Vec<Volume>>, r: Option<u32>)
    requires
        call_ensures(crate::databases::disk_of, (svc, volumes), r),
    ensures
        *volumes is None ==> r is None,
        (*volumes matches Some(v) && service_volume(v@, svc.id@) is None) ==> r is None,
        (*volumes matches Some(v) && service_volume(v@, svc.id@) is Some) ==> r == Some(
            service_volume((*volumes)->0@, svc.id@)->0.size,
        ),
{
}

} // verus!
