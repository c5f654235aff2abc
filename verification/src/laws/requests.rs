//! What is sent, how an answer is taken, and which command does what.
use vstd::prelude::*;
use vstd::string::*;

use crate::cli::{
    is_cancellation, task_of, Commands, LlmCommands, ServiceCommands, Setup, StorageCommands, Task,
};
use crate::client::{
    backoff, base_url_of, body_message, is_preview, is_success_status, job_request, plain, query,
    status_error_of, status_hint, tagged, timeout_of, wait_of, with_body, with_secret, Method,
};
use crate::common::{cancelled_error, label_index, project_label, workspace_label};
use crate::error::{
    error_text, extracted, human_text, is_http_code, validation_hint_of, validation_of,
    CliErrorView, FailureView,
};
use crate::init::{pod_label, region_label, Price};
use crate::json::{first_member_is_found, member_of, parsed_json, JsonView};
use crate::mcp::{entry_view, location_of, servers_key_of, BaseDir, Family, McpClient, Platform};
use crate::service::pull::service_label;
use crate::service::run::{verb, Lifecycle};
use crate::service::token::secret_label_of;
use crate::text::{byte_len, decimal_of, decimal_reads_back, parsed_number, text_lt, trimmed};

verus! {

// ─── Requests ──────────────────────────────────────────────────────────────

/// A request says its method, its path, its parameters and its body, and nothing
/// that was not asked for.
pub proof fn requests_say_what_was_asked(
    m: Method,
    path: Seq<char>,
    params: Seq<(Seq<char>, Seq<char>)>,
    body: JsonView,
)
    ensures
        plain(m, path).method == m && plain(m, path).path == path && plain(m, path).query.len() == 0
            && plain(m, path).body is None,
        with_body(m, path, body).method == m && with_body(m, path, body).path == path && with_body(
            m,
            path,
            body,
        ).query.len() == 0 && with_body(m, path, body).body == Some(body),
        query(path, params).method == Method::Get && query(path, params).path == path && query(
            path,
            params,
        ).query == params && query(path, params).body is None,
{
}

/// A job is posted for its action and its service, and a tag or a secret is a
/// parameter exactly where it is known.
pub proof fn parameters_say_the_tag_and_the_secret(
    path: Seq<char>,
    tag: Option<Seq<char>>,
    first: (Seq<char>, Seq<char>),
    secret: Option<Seq<char>>,
    action: Seq<char>,
    id: Seq<char>,
)
    ensures
        tagged(path, tag).method == Method::Get && tagged(path, tag).path == path,
        tag matches Some(t) ==> tagged(path, tag).query == seq![("deployTag"@, t)],
        tag is None ==> tagged(path, tag).query.len() == 0,
        with_secret(first, secret)[0] == first,
        secret matches Some(s) ==> with_secret(first, secret) == seq![first, ("id"@, s)],
        secret is None ==> with_secret(first, secret).len() == 1,
        job_request(action, id).method == Method::Post,
        job_request(action, id).path == "/jobs/services/"@ + action + "/"@ + id,
{
}

/// Pausing, resuming and killing a service ask for the job of that name.
pub proof fn lifecycle_jobs_are_named()
    ensures
        verb(Lifecycle::Pause) == "pause"@,
        verb(Lifecycle::Unpause) == "unpause"@,
        verb(Lifecycle::Kill) == "kill"@,
{
}

/// The address of the API is the one that is set, or the public one, and a
/// request may take as many seconds as are set, or thirty.
pub proof fn settings_of_the_client(url: Option<String>, timeout: Option<String>, n: nat)
    ensures
        url matches Some(u) ==> base_url_of(url) == u@,
        url is None ==> base_url_of(url) == "https://api.partiri.cloud"@,
        timeout is None ==> timeout_of(timeout) == 30,
        (timeout matches Some(t) && t@ == decimal_of(n)) && n <= u64::MAX ==> timeout_of(timeout)
            == n,
        timeout matches Some(t) && parsed_number(t@, u64::MAX as nat) is None ==> timeout_of(timeout)
            == 30,
{
    if n <= u64::MAX {
        decimal_reads_back(n, u64::MAX as nat);
    }
}

/// A request is sent again only where the API asks to slow down, three times at
/// most: after as many seconds as the API says, or else after one, two and four.
pub proof fn waits_between_tries(status: u16, attempt: u32, n: nat)
    ensures
        status != 429 || attempt >= 3 ==> forall|h: Option<Seq<char>>|
            #[trigger] wait_of(status, h, attempt) is None,
        wait_of(429, None, 0) == Some(1nat),
        wait_of(429, None, 1) == Some(2nat),
        wait_of(429, None, 2) == Some(4nat),
        attempt < 3 && n <= u64::MAX ==> wait_of(429, Some(decimal_of(n)), attempt) == Some(n),
{
    reveal_with_fuel(backoff, 4);
    if n <= u64::MAX {
        decimal_reads_back(n, u64::MAX as nat);
    }
}

/// A response succeeds with a status from 200 to 299.
pub proof fn successful_statuses(status: u16)
    ensures
        is_success_status(status) <==> 200 <= status <= 299,
{
}

/// The error of a response says its status and the message of its body, or that
/// there was none; a hint belongs to the statuses that are known.
pub proof fn error_of_a_response(status: u16, message: Option<Seq<char>>)
    ensures
        status_error_of(status, message).code == decimal_of(status as nat),
        message matches Some(m) ==> status_error_of(status, message).message == m,
        message is None ==> status_error_of(status, message).message
            == "An unexpected error occurred."@,
        status_hint(status) is Some <==> status == 400 || status == 401 || status == 402 || status
            == 403 || status == 404 || status == 409 || status == 422 || status == 429 || 500
            <= status <= 599,
{
}

/// The message of an error is the text under `message` in its body.
pub proof fn message_of_a_body(
    body: Seq<char>,
    m: Seq<(Seq<char>, JsonView)>,
    i: int,
    text: Seq<char>,
)
    requires
        parsed_json(body) == Some(JsonView::Obj(m)),
        0 <= i < m.len(),
        m[i] == ("message"@, JsonView::Str(text)),
        forall|k: int| 0 <= k < i ==> (#[trigger] m[k]).0 != "message"@,
    ensures
        body_message(body) == Some(text),
{
    first_member_is_found(m, "message"@, i);
}

/// A preview is the start of the text: all of it, or two hundred bytes.
pub proof fn previews_are_short(p: Seq<char>, s: Seq<char>)
    requires
        is_preview(p, s),
    ensures
        p.is_prefix_of(s),
        byte_len(p) <= 200,
        byte_len(s) <= 200 ==> p == s,
        byte_len(s) > 200 ==> byte_len(p) == 200,
{
}

// ─── Errors ────────────────────────────────────────────────────────────────

/// An error is shown with its message and its hint; one of the API also with its
/// status.
pub proof fn errors_are_shown(e: CliErrorView)
    ensures
        !is_http_code(e.code) && e.hint is None ==> human_text(e) == e.message,
        !is_http_code(e.code) && e.hint is Some ==> human_text(e)
            == e.message + "\n  "@ + e.hint->0,
        is_http_code(e.code) && e.hint is None ==> human_text(e) == "API error "@ + e.code + " — "@
            + e.message,
        is_http_code(e.code) && e.hint is Some ==> human_text(e) == "API error "@ + e.code + " — "@
            + e.message + "\n  "@ + e.hint->0,
        error_text(FailureView::Cli(e)) == human_text(e),
        extracted(FailureView::Cli(e)) == e,
{
}

/// An error that is only a text is shown as it is, and carried as a plain error.
pub proof fn plain_errors(s: Seq<char>)
    ensures
        error_text(FailureView::Text(s)) == s,
        extracted(FailureView::Text(s)).message == s,
        extracted(FailureView::Text(s)).code == "error"@,
        extracted(FailureView::Text(s)).hint is None,
{
}

/// A status of three digits is one of the API.
pub proof fn api_statuses(n: nat)
    requires
        n <= 65535,
    ensures
        is_http_code(decimal_of(n)) <==> 100 <= n <= 999,
{
    decimal_reads_back(n, 65535);
}

/// A refused value is a validation error with its message, and with its hint
/// where it has one.
pub proof fn validation_errors(message: Seq<char>, hint: Seq<char>)
    ensures
        validation_of(message).code == "validation"@,
        validation_of(message).message == message,
        validation_of(message).hint is None,
        validation_hint_of(message, hint).code == "validation"@,
        validation_hint_of(message, hint).message == message,
        trimmed(hint).len() > 0 ==> validation_hint_of(message, hint).hint == Some(trimmed(hint)),
        trimmed(hint).len() == 0 ==> validation_hint_of(message, hint).hint is None,
{
}

/// What the user cancels ends as a cancellation, and nothing else does.
pub proof fn cancellations(code: Seq<char>, message: Seq<char>)
    ensures
        is_cancellation(FailureView::Cli(cancelled_error())),
        is_cancellation(FailureView::Text("Cancelled."@)),
        !(trimmed(message) == "Cancelled."@) ==> !is_cancellation(FailureView::Text(message)),
{
    reveal_strlit("Cancelled.");
    assert("Cancelled."@[0] == 'C' && "Cancelled."@.last() == '.');
    crate::text::trimmed_keeps("Cancelled."@);
}

// ─── Labels ────────────────────────────────────────────────────────────────

/// Whether a label begins with a name and ends with an id in brackets.
pub open spec fn labels(label: Seq<char>, name: Seq<char>, id: Seq<char>) -> bool {
    exists|between: Seq<char>| label == #[trigger] (name + between) + (" ("@ + id + ")"@)
}

/// What is picked from a list is shown by its name, with its id behind it.
pub proof fn labels_name_their_records(
    w: crate::client::Workspace,
    p: crate::client::Project,
    x: crate::client::Region,
    s: crate::client::Service,
    t: crate::client::WorkspaceSecret,
    d: crate::client::Pod,
    pricing: Option<crate::client::RegionPricing<Price>>,
)
    ensures
        labels(workspace_label(w), w.name@, w.id@),
        labels(project_label(p), p.name@, p.id@),
        labels(
            region_label(x),
            match x.label {
                Some(l) => l@,
                None => x.name@,
            },
            x.id@,
        ),
        labels(service_label(s), s.name@, s.id@),
        labels(
            secret_label_of(t),
            match t.name {
                Some(n) => n@,
                None => "unnamed"@,
            },
            t.id@,
        ),
        labels(
            pod_label(d, pricing),
            match d.label {
                Some(l) => l@,
                None => d.name@,
            },
            d.id@,
        ),
{
    splits(workspace_label(w), w.name@, Seq::empty(), w.id@);
    splits(project_label(p), p.name@, " ["@ + p.environment@ + "]"@, p.id@);
    let shown = match x.label {
        Some(l) => l@,
        None => x.name@,
    };
    let country = match x.country_code {
        Some(cc) => " ["@ + cc@ + "]"@,
        None => Seq::empty(),
    };
    brackets();
    assert(workspace_label(w) =~= w.name@ + Seq::empty() + (" ("@ + w.id@ + ")"@));
    assert(project_label(p) =~= p.name@ + (" ["@ + p.environment@ + "]"@) + (" ("@ + p.id@ + ")"@));
    assert(region_label(x) =~= shown + country + (" ("@ + x.id@ + ")"@));
    assert(service_label(s) =~= s.name@ + (" ["@ + s.deploy_type@ + "]"@) + (" ("@ + s.id@ + ")"@));
    splits(region_label(x), shown, country, x.id@);
    splits(service_label(s), s.name@, " ["@ + s.deploy_type@ + "]"@, s.id@);
    let named = match t.name {
        Some(n) => n@,
        None => "unnamed"@,
    };
    let provider = match t.provider {
        Some(v) => " ["@ + v@ + "]"@,
        None => Seq::empty(),
    };
    assert(secret_label_of(t) =~= named + provider + (" ("@ + t.id@ + ")"@));
    splits(secret_label_of(t), named, provider, t.id@);
    let display = match d.label {
        Some(l) => l@,
        None => d.name@,
    };
    let specs = match (d.cpu, d.ram) {
        (Some(cpu), Some(ram)) => " — "@ + cpu@ + " CPU / "@ + ram@ + " RAM"@,
        _ => ""@,
    };
    let price = match pricing {
        Some(_) => match crate::init::price_in(pricing, d.id@) {
            Some(v) => " — €"@ + v.shown@ + "/mo"@,
            None => " — price unavailable"@,
        },
        None => ""@,
    };
    assert(pod_label(d, pricing) =~= display + (specs + price) + (" ("@ + d.id@ + ")"@));
    splits(pod_label(d, pricing), display, specs + price, d.id@);
}

/// The brackets that labels are made of.
proof fn brackets()
    ensures
        "] ("@ == "]"@ + " ("@,
{
    reveal_strlit("] (");
    reveal_strlit("]");
    reveal_strlit(" (");
    assert("] ("@ =~= "]"@ + " ("@);
}

proof fn splits(label: Seq<char>, name: Seq<char>, between: Seq<char>, id: Seq<char>)
    ensures
        label == name + between + (" ("@ + id + ")"@) ==> labels(label, name, id),
{
}

/// The first label that was picked is the one that is found.
pub proof fn picked_label_is_found(all: Seq<Seq<char>>, i: int, from: int)
    requires
        0 <= from <= i < all.len(),
        forall|k: int| 0 <= k < i ==> #[trigger] all[k] != all[i],
    ensures
        label_index(all, all[i], from) == i,
    decreases i - from,
{
    if from < i {
        assert(all[from] != all[i]);
        picked_label_is_found(all, i, from + 1);
    }
}

/// A label that is not in the list is not found.
pub proof fn unknown_label_is_not_found(all: Seq<Seq<char>>, label: Seq<char>, from: int)
    requires
        0 <= from <= all.len(),
        !all.contains(label),
    ensures
        label_index(all, label, from) == all.len(),
    decreases all.len() - from,
{
    if from < all.len() {
        assert(all.contains(all[from]));
        unknown_label_is_not_found(all, label, from + 1);
    }
}

// ─── Order ─────────────────────────────────────────────────────────────────

/// Of two texts the one with the smaller character at the first place where they
/// differ comes first, and a text comes before what goes on from it.
pub proof fn texts_are_ordered(head: Seq<char>, a: Seq<char>, b: Seq<char>)
    ensures
        a.len() > 0 && b.len() > 0 && (a[0] as u32) < (b[0] as u32) ==> text_lt(head + a, head + b),
        b.len() > 0 ==> text_lt(head, head + b),
    decreases head.len(),
{
    if head.len() == 0 {
        assert(head + a =~= a);
        assert(head + b =~= b);
    } else {
        let t = head.drop_first();
        texts_are_ordered(t, a, b);
        assert((head + a).drop_first() =~= t + a);
        assert((head + b).drop_first() =~= t + b);
    }
}

// ─── Commands ──────────────────────────────────────────────────────────────

/// Each command of a service does what it is called, on the service of the
/// configuration or on the one that is named.
pub proof fn service_commands_do_what_they_are_called(cmd: ServiceCommands)
    ensures
        ({
            let (setup, task) = task_of(Commands::Service(cmd));
            &&& cmd is Create <==> task is Create
            &&& cmd is Push <==> task is Push
            &&& cmd is Metrics <==> task is Metrics
            &&& cmd is Logs <==> task is Logs
            &&& cmd is Jobs <==> task is Jobs
            &&& cmd is Pause <==> task is Pause
            &&& cmd is Unpause <==> task is Unpause
            &&& cmd is Kill <==> task is Kill
            &&& cmd matches ServiceCommands::Pull { service: Some(id) } ==> task == Task::PullById(id)
            &&& cmd matches ServiceCommands::Pull { service: None } ==> task is Pull
            &&& cmd matches ServiceCommands::Deploy { service: Some(id) } ==> task
                == Task::DeployById(id)
            &&& cmd matches ServiceCommands::Deploy { service: None } ==> task is Deploy
            &&& cmd matches ServiceCommands::List { project, workspace } ==> (task
                == Task::ServiceList { project, workspace })
            &&& cmd matches ServiceCommands::Env { path, save } ==> (task == Task::Env { path, save })
            &&& cmd matches ServiceCommands::Token { secret, clear } ==> task is Token
                && task->Token_0.secret == secret && task->Token_0.clear == clear
            &&& cmd matches ServiceCommands::Link {
                workspace,
                project,
                region,
                pod,
                token,
                clear_token,
            } ==> task is Link && task->Link_0.workspace == workspace && task->Link_0.project
                == project && task->Link_0.region == region && task->Link_0.pod == pod
                && task->Link_0.token == token && task->Link_0.clear_token == clear_token
            &&& setup == Setup::Client || setup == Setup::ClientThenConfig
            &&& setup == Setup::Client <==> cmd is Pull || cmd is List || (cmd matches
                ServiceCommands::Deploy { service } && service is Some)
        }),
{
}

/// Each command on storage does what it is called, to the volume that is named.
pub proof fn storage_commands_do_what_they_are_called(cmd: StorageCommands)
    ensures
        ({
            let (setup, task) = task_of(Commands::Storage(cmd));
            &&& cmd is Create <==> task is StorageCreate
            &&& cmd is Update <==> task is StorageUpdate
            &&& cmd matches StorageCommands::Show { id } ==> task == Task::StorageShow(id)
            &&& cmd matches StorageCommands::Detach { id } ==> task == Task::StorageDetach(id)
            &&& cmd matches StorageCommands::Delete { id } ==> task == Task::StorageDelete(id)
            &&& cmd matches StorageCommands::List { project, workspace } ==> (task
                == Task::StorageList { project, workspace })
            &&& cmd is Create || cmd is Update ==> setup == Setup::ClientThenConfig
            &&& !(cmd is Create || cmd is Update) ==> setup == Setup::Client
        }),
{
}

/// Each command for agents does what it is called, and validation asks the API
/// only where it is told to.
pub proof fn other_commands_do_what_they_are_called(cmd: LlmCommands, remote: bool)
    ensures
        ({
            let (setup, task) = task_of(Commands::Llm(cmd));
            &&& cmd is Guide <==> task is Guide
            &&& cmd is Schema <==> task is Schema
            &&& cmd is Examples <==> task is Examples
            &&& cmd is Capabilities <==> task is Capabilities
            &&& cmd is Errors <==> task is Errors
            &&& cmd is Whoami <==> task is Whoami
            &&& cmd is Doctor <==> task is Doctor
            &&& cmd is Next <==> task is Next
            &&& cmd matches LlmCommands::Explain { command } ==> task == Task::Explain(command)
            &&& cmd matches LlmCommands::Context { workspace } ==> (task == Task::Context { workspace })
            &&& cmd matches LlmCommands::Template { deploy_type, runtime, source } ==> task is Template
                && task->Template_0.deploy_type == deploy_type && task->Template_0.runtime == runtime
                && task->Template_0.source == source
        }),
        task_of(Commands::Validate { remote }).1 is ValidateRemote <==> remote,
        task_of(Commands::Validate { remote }).1 is Validate <==> !remote,
        task_of(Commands::Validate { remote: false }).0 == Setup::Config,
{
}

// ─── Editor tools ──────────────────────────────────────────────────────────

/// The entry that is installed points at the server, under the key that the tool
/// looks at: its own for Visual Studio Code, the common one for every other.
pub proof fn tools_find_the_server(c: McpClient)
    ensures
        member_of(entry_view(), "url"@) == Some(JsonView::Str("https://mcp.partiri.cloud/mcp"@)),
        servers_key_of(c) == "servers"@ <==> c is Vscode,
        servers_key_of(c) == "mcpServers"@ <==> !(c is Vscode),
{
    first_member_is_found(entry_view()->Obj_0, "url"@, 0);
    reveal_strlit("servers");
    reveal_strlit("mcpServers");
    assert("servers"@.len() == 7);
    assert("mcpServers"@.len() == 10);
}

/// Each tool has its settings in its own place: no two tools of a platform share
/// one, and those under the home directory are the same everywhere.
pub proof fn tools_have_their_own_settings(f: Family, p: Platform, q: Platform)
    ensures
        location_of(McpClient::Cursor, f, p) == Some(
            (BaseDir::Home, seq![".cursor"@, "mcp.json"@]),
        ),
        location_of(McpClient::CopilotCli, f, p) == Some(
            (BaseDir::Home, seq![".copilot"@, "mcp-config.json"@]),
        ),
        location_of(McpClient::Windsurf, f, p) == Some(
            (BaseDir::Home, seq![".codeium"@, "windsurf"@, "mcp_config.json"@]),
        ),
        location_of(McpClient::ClaudeCode, f, p) == location_of(McpClient::ClaudeCode, f, q),
        location_of(McpClient::ClaudeCode, f, p) matches Some(x) && x.0 == BaseDir::Home,
        location_of(McpClient::Vscode, f, p) is None <==> p is Other,
        location_of(McpClient::ClaudeDesktop, f, p) is None <==> p is Other,
        location_of(McpClient::Vscode, f, p) matches Some(x) ==> x.1 == seq![
            "Code"@,
            "User"@,
            "mcp.json"@,
        ] && (x.0 == BaseDir::Data <==> p is MacOs) && (x.0 == BaseDir::Config <==> p is Linux || p
            is Windows),
        location_of(McpClient::ClaudeDesktop, f, p) matches Some(x) ==> x.1[0] == f.title@ && (x.0
            == BaseDir::Data <==> p is MacOs),
{
}

} // verus!
