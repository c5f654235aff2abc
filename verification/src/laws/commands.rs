//! What commands report, refuse and read, stated of what they were given.
use vstd::prelude::*;
use vstd::string::*;

use crate::client::{status_hint, Job, Service, Workspace, WorkspaceSecret};
use crate::config::{
    checks_of, config_display_of, config_flag_suffix_of, read_error, resolved_path, ConfigRead,
    DiskConfig, EnvVar, PartiriConfig, ValidationView,
};
use crate::databases::{created_notes, is_db, not_a_database, queued_view, DbJob};
use crate::error::{metadata_of, Failure, FailureView};
use crate::init::{image_input_error, name_input_error, runtime_position};
use crate::jobs::{newest_first, newest_first_is_a_permutation};
use crate::json::{first_member_is_found, lookup_concat, member_of, JsonView};
use crate::laws::bodies::said;
use crate::laws::resources::shown_text;
use crate::laws::rules::{core_is_unique, is_core};
use crate::llm::{
    command_at, command_view, email_of, explained, listed_args, pitfalls_of, sub_index, text_member,
    CommandTree,
};
use crate::mcp::{config_value, display_name_of, slug_of, Family, McpClient};
use crate::output::message_only;
use crate::service::create::{collapsed, failed_causes, label_char, volume_name_of};
use crate::service::env::{line_meaning, quoted, unquoted, var_line, vars, LineMeaning, VarView};
use crate::service::pull::{disk_warning_of, diverges, is_placed};
use crate::service::run::{job_json_of, recent_jobs_of};
use crate::service::token::{offered, secret_label_of};
use crate::storage::{disk_problem, local_problem};
use crate::text::{find_from, find_from_is_first, has_substring, is_white, trimmed, trimmed_keeps};
use crate::validate::{status_text, Status};

verus! {

// ─── Files ─────────────────────────────────────────────────────────────────

/// A path that ends in a separator, or is that of a directory, stands for the
/// configuration file in it; any other path is that of the file.
pub proof fn config_paths(p: Seq<char>, is_dir: bool, separator: char)
    requires
        p.len() > 0,
    ensures
        p.last() == '/' || p.last() == separator ==> resolved_path(p, is_dir, separator) == p
            + ".partiri.jsonc"@,
        p.last() != '/' && p.last() != separator && is_dir ==> resolved_path(p, is_dir, separator)
            == p + seq![separator] + ".partiri.jsonc"@,
        p.last() != '/' && p.last() != separator && !is_dir ==> resolved_path(p, is_dir, separator)
            == p,
{
    assert(p.push(separator) =~= p + seq![separator]);
}

/// Messages name the file that is in use, and suggested commands carry it along,
/// in quotes where it holds whitespace.
pub proof fn messages_name_the_file(p: Seq<char>)
    ensures
        config_display_of(None) == ".partiri.jsonc"@,
        config_display_of(Some(p)) == p,
        config_flag_suffix_of(None).len() == 0,
        (forall|i: int| 0 <= i < p.len() ==> !is_white(#[trigger] p[i])) ==> config_flag_suffix_of(
            Some(p),
        ) == " --config "@ + p,
        (exists|i: int| 0 <= i < p.len() && is_white(#[trigger] p[i])) ==> config_flag_suffix_of(
            Some(p),
        ) == " --config '"@ + p + "'"@,
{
}

/// A configuration that cannot be read is an error that names the file and says
/// why; one that can be read is none.
pub proof fn unread_files_are_errors(path: Seq<char>, over: Option<Seq<char>>, read: ConfigRead)
    ensures
        read_error(path, over, read) is None <==> read is Parsed,
        read_error(path, over, read) matches Some(e) ==> e.code == "config"@,
        read is Missing ==> read_error(path, over, read)->0.message == "No "@ + path + " found."@,
        read matches ConfigRead::Unreadable(why) ==> read_error(path, over, read)->0.message
            == "Failed to read "@ + path + ": "@ + why@,
        read matches ConfigRead::Unparseable(why) ==> read_error(path, over, read)->0.message
            == "Failed to parse "@ + path + ": "@ + why@,
{
}

// ─── Disks ─────────────────────────────────────────────────────────────────

/// Storage commands need a service that exists and a disk that is accepted.
pub proof fn storage_needs_a_service_and_a_disk(c: PartiriConfig, over: Option<Seq<char>>)
    ensures
        local_problem(c, over) is None <==> c.id is Some && c.service.disk is Some && disk_problem(
            c.service.disk->0,
        ) is None,
        c.id is None ==> local_problem(c, over) == Some(
            FailureView::Text("Service not yet created. Run 'partiri service create' first."@),
        ),
        c.id is Some && c.service.disk is Some && disk_problem(c.service.disk->0) is Some
            ==> local_problem(c, over) == Some(
            FailureView::Cli(disk_problem(c.service.disk->0)->0),
        ),
{
}

/// A pull warns where it replaces a disk block that differs from the live volume,
/// and where it could not tell; never in JSON.
pub proof fn pull_warns_when(
    local: Option<DiskConfig>,
    fetched: Result<Option<DiskConfig>, Failure>,
    json: bool,
)
    ensures
        disk_warning_of(local, fetched, json) is Some <==> !json && (fetched is Err || (local is Some
            && fetched->Ok_0 is Some && diverges(local->0, fetched->Ok_0->0))),
{
}

/// Two disks differ where their sizes do or where their paths do, slashes at the
/// end aside.
pub proof fn disks_differ(a: DiskConfig, b: DiskConfig, x: Seq<char>, y: Seq<char>)
    requires
        is_core(x, a.mount_path@),
        is_core(y, b.mount_path@),
        x.len() > 0,
        y.len() > 0,
    ensures
        diverges(a, b) <==> a.size != b.size || x != y,
{
    core_is_unique(x, a.mount_path@);
    core_is_unique(y, b.mount_path@);
}

/// A service is pulled by its id alone only where it names its workspace and its
/// project.
pub proof fn placed_services(svc: Service)
    ensures
        is_placed(svc) <==> (svc.fk_workspace matches Some(w) && w@.len() > 0) && (svc.fk_project
            matches Some(p) && p@.len() > 0),
{
}

// ─── Reports ───────────────────────────────────────────────────────────────

/// A report of a message alone says nothing else.
pub proof fn plain_reports(m: Seq<char>)
    ensures
        message_only(m).message == m,
        message_only(m).data is None,
        message_only(m).notes.len() == 0,
{
}

/// How a check is shown tells the three outcomes apart.
pub proof fn outcomes_are_told_apart(s: Status)
    ensures
        status_text(s, true) == "ok"@ <==> s == Status::Pass,
        status_text(s, true) == "warn"@ <==> s == Status::Warn,
        status_text(s, true) == "fail"@ <==> s == Status::Fail,
        status_text(s, false) == "✓"@ <==> s == Status::Pass,
        status_text(s, false) == "!"@ <==> s == Status::Warn,
        status_text(s, false) == "✗"@ <==> s == Status::Fail,
{
    outcome_marks();
}

/// The marks of the outcomes differ from each other.
pub proof fn outcome_marks()
    ensures
        "ok"@.len() == 2,
        "warn"@.len() == 4 && "warn"@[0] == 'w',
        "fail"@.len() == 4 && "fail"@[0] == 'f',
        "✓"@.len() == 1 && "✓"@[0] == '✓',
        "!"@.len() == 1 && "!"@[0] == '!',
        "✗"@.len() == 1 && "✗"@[0] == '✗',
{
    reveal_strlit("ok");
    reveal_strlit("warn");
    reveal_strlit("fail");
    reveal_strlit("✓");
    reveal_strlit("!");
    reveal_strlit("✗");
    assert("ok"@.len() == 2);
    assert("warn"@.len() == 4);
    assert("fail"@.len() == 4);
    assert("✓"@.len() == 1);
    assert("!"@.len() == 1);
    assert("✗"@.len() == 1);
}

/// A service that is not valid is refused with every check that fails.
pub proof fn refusals_name_each_failing_check(c: PartiriConfig, i: int)
    requires
        0 <= i < checks_of(c).len(),
    ensures
        !checks_of(c)[i].ok ==> failed_causes(c).contains(
            checks_of(c)[i].field + ": "@ + checks_of(c)[i].message,
        ),
        failed_causes(c).len() == 0 <==> crate::config::is_valid(c),
{
    let all = checks_of(c);
    let p = |v: ValidationView| !v.ok;
    let f = |v: ValidationView| v.field + ": "@ + v.message;
    let kept = all.filter(p);
    assert(failed_causes(c) =~= kept.map_values(f));
    if !all[i].ok {
        all.lemma_filter_contains(p, i);
        let k = kept.index_of(all[i]);
        assert(failed_causes(c)[k] == f(all[i]));
    }
    if kept.len() == 0 {
        assert forall|k: int| 0 <= k < all.len() implies (#[trigger] all[k]).ok by {
            if !all[k].ok {
                all.lemma_filter_contains(p, k);
                assert(kept.contains(all[k]));
            }
        }
    } else {
        all.lemma_filter_pred(p, 0);
        assert(kept.contains(kept[0]));
        all.lemma_filter_contains_rev(p, kept[0]);
        let k = all.index_of(kept[0]);
        assert(!all[k].ok);
    }
}

/// The jobs that metrics show are the newest ten.
pub proof fn ten_newest_jobs(jobs: Seq<Job>)
    ensures
        recent_jobs_of(jobs) is Arr,
        recent_jobs_of(jobs)->Arr_0.len() == if jobs.len() > 10 {
            10
        } else {
            jobs.len()
        },
        forall|i: int|
            0 <= i < recent_jobs_of(jobs)->Arr_0.len() ==> (
            #[trigger] recent_jobs_of(jobs)->Arr_0[i]) == job_json_of(newest_first(jobs)[i]),
{
    newest_first_is_a_permutation(jobs);
}

/// The tokens that can be picked are none, and then each secret in its order.
pub proof fn tokens_to_pick(secrets: Seq<WorkspaceSecret>)
    ensures
        offered(secrets).len() == secrets.len() + 1,
        offered(secrets)[0] == "-- none (clear token) --"@,
        forall|i: int|
            0 <= i < secrets.len() ==> offered(secrets)[i + 1] == secret_label_of(
                #[trigger] secrets[i],
            ),
{
}

/// What is a database is told by its deploy type, and a job that was queued names
/// its database.
pub proof fn databases_are_told_apart(s: Service, id: Seq<char>)
    ensures
        is_db(s) <==> s.deploy_type@ == "database"@,
        queued_view(DbJob::Deploy, id).message == "Deploy job queued for database "@ + id + "."@,
        queued_view(DbJob::Pause, id).message == "Pause job queued for database "@ + id + "."@,
        queued_view(DbJob::Unpause, id).message == "Unpause job queued for database "@ + id + "."@,
        not_a_database(id, s).code == "validation"@,
        not_a_database(id, s).message == "Service "@ + id + " is a '"@ + s.deploy_type@
            + "' service, not a managed database."@,
{
}

/// A password that was given is never shown, and one that was generated is.
pub proof fn passwords_are_shown_once(s: Service, p: Seq<char>, q: Seq<char>)
    ensures
        created_notes(s, p, false) == created_notes(s, q, false),
        exists|i: int|
            0 <= i < created_notes(s, p, true).len() && has_substring(
                #[trigger] created_notes(s, p, true)[i],
                p,
            ),
{
    let n = created_notes(s, p, true);
    let width = crate::databases::box_width(p);
    let line = crate::databases::box_line(p, width);
    assert(n[3] == line);
    reveal_strlit("│ ");
    assert("│ "@.len() == 2);
    assert(line.subrange(2, 2 + p.len() as int) =~= p);
    assert(has_substring(line, p));
}

// ─── Answers of the wizard ─────────────────────────────────────────────────

/// Which names and images the wizard takes: a name of one to sixteen characters,
/// an image with a registry before its first slash and something behind it.
pub proof fn accepted_answers(s: Seq<char>, host: Seq<char>, rest: Seq<char>)
    requires
        !host.contains('/'),
    ensures
        name_input_error(s) is None <==> 1 <= s.len() <= 16,
        trimmed(s) == host + seq!['/'] + rest ==> (image_input_error(s) is None <==> host.len() > 0
            && rest.len() > 0),
        trimmed(s) == host ==> image_input_error(s) is Some,
{
    if trimmed(s) == host + seq!['/'] + rest {
        let t = trimmed(s);
        assert forall|i: int| 0 <= i < host.len() implies t[i] != '/' by {
            assert(host.contains(host[i]));
        }
        find_from_is_first(t, '/', 0);
        assert(t[host.len() as int] == '/');
    }
    if trimmed(s) == host {
        find_from_is_first(host, '/', 0);
        if find_from(host, '/', 0) < host.len() {
            assert(host.contains(host[find_from(host, '/', 0)]));
        }
    }
}

/// The cursor stands on the runtime that was detected, where it is offered.
pub proof fn cursor_stands_on_the_runtime(list: Seq<Seq<char>>, i: int, from: int)
    requires
        0 <= from <= i < list.len(),
        forall|k: int| 0 <= k < i ==> #[trigger] list[k] != list[i],
    ensures
        runtime_position(list, list[i], from) == i,
    decreases i - from,
{
    if from < i {
        assert(list[from] != list[i]);
        cursor_stands_on_the_runtime(list, i, from + 1);
    }
}

// ─── Command tree ──────────────────────────────────────────────────────────

/// The user is known by the first workspace.
pub proof fn user_is_known_by_the_first_workspace(w: Seq<Workspace>)
    ensures
        w.len() == 0 ==> email_of(w) is None,
        w.len() > 0 && w[0].email is Some ==> email_of(w) == Some(w[0].email->0@),
        w.len() > 0 && w[0].email is None ==> email_of(w) is None,
{
}

proof fn sub_is(v: Seq<CommandTree>, i: int, from: int)
    requires
        0 <= from <= i < v.len(),
        forall|k: int| 0 <= k < i ==> (#[trigger] v[k]).name@ != v[i].name@,
    ensures
        sub_index(v, v[i].name@, from) == i,
    decreases i - from,
{
    if from < i {
        assert(v[from].name@ != v[i].name@);
        sub_is(v, i, from + 1);
    }
}

proof fn sub_is_none(v: Seq<CommandTree>, name: Seq<char>, from: int)
    requires
        0 <= from <= v.len(),
        forall|k: int| 0 <= k < v.len() ==> (#[trigger] v[k]).name@ != name,
    ensures
        sub_index(v, name, from) == v.len(),
    decreases v.len() - from,
{
    if from < v.len() {
        sub_is_none(v, name, from + 1);
    }
}

/// A command is found by the names that lead to it, one after the other, and not
/// where a name is unknown.
pub proof fn commands_are_found_by_their_names(t: CommandTree, i: int, rest: Seq<Seq<char>>)
    ensures
        command_at(t, seq![]) == Some(t),
        0 <= i < t.subcommands@.len() && (forall|k: int|
            0 <= k < i ==> (#[trigger] t.subcommands@[k]).name@ != t.subcommands@[i].name@)
            ==> command_at(t, seq![t.subcommands@[i].name@] + rest) == command_at(
            t.subcommands@[i],
            rest,
        ),
        forall|name: Seq<char>|
            (forall|k: int| 0 <= k < t.subcommands@.len() ==> (#[trigger] t.subcommands@[k]).name@
                != name) ==> #[trigger] command_at(t, seq![name] + rest) is None,
{
    if 0 <= i < t.subcommands@.len() && (forall|k: int|
        0 <= k < i ==> (#[trigger] t.subcommands@[k]).name@ != t.subcommands@[i].name@) {
        sub_is(t.subcommands@, i, 0);
        let path = seq![t.subcommands@[i].name@] + rest;
        assert(path.drop_first() =~= rest);
    }
    assert forall|name: Seq<char>|
        (forall|k: int| 0 <= k < t.subcommands@.len() ==> (#[trigger] t.subcommands@[k]).name@
            != name) implies #[trigger] command_at(t, seq![name] + rest) is None by {
        sub_is_none(t.subcommands@, name, 0);
        assert((seq![name] + rest)[0] == name);
    }
}

/// The keys of the command tree differ from each other.
pub proof fn tree_keys()
    ensures
        "name"@.len() == 4 && "name"@[0] == 'n',
        "about"@.len() == 5 && "about"@[0] == 'a',
        "args"@.len() == 4 && "args"@[0] == 'a',
        "subcommands"@.len() == 11 && "subcommands"@[0] == 's',
        "command"@.len() == 7,
        "description"@.len() == 11 && "description"@[0] == 'd',
        "pitfalls"@.len() == 8 && "pitfalls"@[0] == 'p',
        "short"@.len() == 5 && "short"@[0] == 's',
        "long"@.len() == 4 && "long"@[0] == 'l',
        "required"@.len() == 8 && "required"@[0] == 'r',
        "takes_value"@.len() == 11 && "takes_value"@[0] == 't',
        "help"@.len() == 4 && "help"@[0] == 'h',
        "possible_values"@.len() == 15,
{
    reveal_strlit("name");
    reveal_strlit("about");
    reveal_strlit("args");
    reveal_strlit("subcommands");
    reveal_strlit("command");
    reveal_strlit("description");
    reveal_strlit("pitfalls");
    reveal_strlit("short");
    reveal_strlit("long");
    reveal_strlit("required");
    reveal_strlit("takes_value");
    reveal_strlit("help");
    reveal_strlit("possible_values");
    assert("name"@.len() == 4);
    assert("about"@.len() == 5);
    assert("args"@.len() == 4);
    assert("subcommands"@.len() == 11);
    assert("command"@.len() == 7);
    assert("description"@.len() == 11);
    assert("pitfalls"@.len() == 8);
    assert("short"@.len() == 5);
    assert("long"@.len() == 4);
    assert("required"@.len() == 8);
    assert("takes_value"@.len() == 11);
    assert("help"@.len() == 4);
    assert("possible_values"@.len() == 15);
}

proof fn text_lookup(k: Seq<char>, o: Option<String>, key: Seq<char>)
    ensures
        member_of(JsonView::Obj(text_member(k, o)), key) == match o {
            Some(s) => if k == key {
                Some(JsonView::Str(s@))
            } else {
                None
            },
            None => None,
        },
{
    let m = text_member(k, o);
    if o is Some && k == key {
        first_member_is_found(m, key, 0);
    } else {
        crate::json::absent_member_is_not_found(m, key);
    }
}

proof fn one_lookup(k: Seq<char>, v: JsonView, key: Seq<char>)
    ensures
        member_of(JsonView::Obj(seq![(k, v)]), key) == if k == key {
            Some(v)
        } else {
            None
        },
{
    let m = seq![(k, v)];
    if k == key {
        first_member_is_found(m, key, 0);
    } else {
        crate::json::absent_member_is_not_found(m, key);
    }
}

/// A command is told with its name, what it is about, its arguments, and its
/// subcommands where it has any.
pub proof fn commands_are_told(t: CommandTree)
    ensures
        ({
            let j = command_view(t);
            &&& member_of(j, "name"@) == said(t.name@)
            &&& member_of(j, "about"@) == match t.about {
                Some(s) => said(s@),
                None => None,
            }
            &&& member_of(j, "args"@) == Some(JsonView::Arr(listed_args(t.args@)))
            &&& t.subcommands@.len() == 0 ==> member_of(j, "subcommands"@) is None
            &&& t.subcommands@.len() > 0 ==> (member_of(j, "subcommands"@) matches Some(
                JsonView::Arr(subs),
            ) && subs.len() == t.subcommands@.len() && forall|i: int|
                0 <= i < subs.len() ==> #[trigger] subs[i] == command_view(t.subcommands@[i]))
        }),
{
    tree_keys();
    let whole = command_view(t)->Obj_0;
    let list = whole.last().1->Arr_0;
    let a = seq![("name"@, JsonView::Str(t.name@))];
    let b = text_member("about"@, t.about);
    let c = seq![("args"@, JsonView::Arr(listed_args(t.args@)))];
    let d = if t.subcommands.len() > 0 {
        seq![("subcommands"@, JsonView::Arr(list))]
    } else {
        seq![]
    };
    assert(whole =~= a + b + c + d);
    if t.subcommands@.len() > 0 {
        assert(list.len() == t.subcommands@.len());
        assert forall|i: int| 0 <= i < list.len() implies #[trigger] list[i] == command_view(
            t.subcommands@[i],
        ) by {
            assert(t.subcommands[i] == t.subcommands@[i]);
        }
    }
    command_lookup(a, b, c, d, t, "name"@, list);
    command_lookup(a, b, c, d, t, "about"@, list);
    command_lookup(a, b, c, d, t, "args"@, list);
    command_lookup(a, b, c, d, t, "subcommands"@, list);
}

proof fn command_lookup(
    a: Seq<(Seq<char>, JsonView)>,
    b: Seq<(Seq<char>, JsonView)>,
    c: Seq<(Seq<char>, JsonView)>,
    d: Seq<(Seq<char>, JsonView)>,
    t: CommandTree,
    key: Seq<char>,
    list: Seq<JsonView>,
)
    requires
        a == seq![("name"@, JsonView::Str(t.name@))],
        b == text_member("about"@, t.about),
        c == seq![("args"@, JsonView::Arr(listed_args(t.args@)))],
        d == (if t.subcommands.len() > 0 {
            seq![("subcommands"@, JsonView::Arr(list))]
        } else {
            seq![]
        }),
    ensures
        member_of(JsonView::Obj(a + b + c + d), key) == (if key == "name"@ {
            said(t.name@)
        } else if key == "about"@ {
            match t.about {
                Some(s) => said(s@),
                None => None,
            }
        } else if key == "args"@ {
            Some(JsonView::Arr(listed_args(t.args@)))
        } else if key == "subcommands"@ && t.subcommands.len() > 0 {
            Some(JsonView::Arr(list))
        } else {
            None
        }),
{
    tree_keys();
    lookup_concat(a + b + c, d, key);
    lookup_concat(a + b, c, key);
    lookup_concat(a, b, key);
    one_lookup("name"@, JsonView::Str(t.name@), key);
    text_lookup("about"@, t.about, key);
    one_lookup("args"@, JsonView::Arr(listed_args(t.args@)), key);
    if t.subcommands.len() > 0 {
        one_lookup("subcommands"@, JsonView::Arr(list), key);
    } else {
        crate::json::absent_member_is_not_found(d, key);
    }
}

/// An explanation says the command, what it is about, its arguments and its
/// pitfalls.
pub proof fn explanations(command: Seq<char>, t: CommandTree)
    ensures
        ({
            let j = explained(command, t);
            &&& member_of(j, "command"@) == said(command)
            &&& member_of(j, "description"@) == shown_text(t.about)
            &&& member_of(j, "args"@) == Some(JsonView::Arr(listed_args(t.args@)))
            &&& member_of(j, "pitfalls"@) == Some(
                crate::json::strings_view(pitfalls_of(command)),
            )
        }),
{
    tree_keys();
    let m = explained(command, t)->Obj_0;
    first_member_is_found(m, "command"@, 0);
    first_member_is_found(m, "description"@, 1);
    first_member_is_found(m, "args"@, 2);
    first_member_is_found(m, "pitfalls"@, 4);
}

// ─── Tools ─────────────────────────────────────────────────────────────────

/// Each tool goes by its own name, and a settings file that is not there or blank
/// is empty.
pub proof fn tools_go_by_their_names(f: Family, content: Option<Seq<char>>)
    ensures
        slug_of(McpClient::Cursor, f) == "cursor"@,
        slug_of(McpClient::Vscode, f) == "vscode"@,
        slug_of(McpClient::CopilotCli, f) == "copilot-cli"@,
        slug_of(McpClient::Windsurf, f) == "windsurf"@,
        slug_of(McpClient::ClaudeDesktop, f) == f.word@ + "-desktop"@,
        slug_of(McpClient::ClaudeCode, f) == f.word@ + "-code"@,
        display_name_of(McpClient::Cursor, f) == "Cursor"@,
        display_name_of(McpClient::Vscode, f) == "VS Code (GitHub Copilot)"@,
        display_name_of(McpClient::CopilotCli, f) == "GitHub Copilot CLI"@,
        display_name_of(McpClient::Windsurf, f) == "Windsurf"@,
        display_name_of(McpClient::ClaudeDesktop, f) == f.title@ + " Desktop"@,
        display_name_of(McpClient::ClaudeCode, f) == f.title@ + " Code"@,
        content is None ==> config_value(content) == Some(JsonView::Obj(seq![])),
        content matches Some(t) ==> (trimmed(t).len() == 0 ==> config_value(content) == Some(
            JsonView::Obj(seq![]),
        )),
        content matches Some(t) ==> (trimmed(t).len() > 0 ==> config_value(content)
            == crate::json::parsed_json(trimmed(t))),
{
}

// ─── Variables ─────────────────────────────────────────────────────────────

/// Variables are read by their keys and their values.
pub proof fn variables_have_keys_and_values(v: Seq<EnvVar>, i: int)
    requires
        0 <= i < v.len(),
    ensures
        vars(v).len() == v.len(),
        vars(v)[i].key == v[i].key@,
        vars(v)[i].value == v[i].value@,
{
}

/// A blank line and a comment say nothing; a line with a key and a value says the
/// value of the key; one without an equals sign is bad.
pub proof fn lines_of_variables(k: Seq<char>, v: Seq<char>, number: nat)
    requires
        k.len() > 0,
        trimmed(k) == k,
        k[0] != '#',
        !k.contains('='),
    ensures
        v.len() > 0 && trimmed(v) == v && v[0] != '"' && v[0] != '\'' ==> line_meaning(
            k + seq!['='] + v,
            number,
        ) == LineMeaning::Var(VarView { key: k, value: v }),
        line_meaning(k, number) is Bad,
        line_meaning(seq!['#'] + k, number) is Nothing,
        line_meaning(seq![], number) is Nothing,
{
    crate::text::trimmed_ends(k);
    crate::text::trimmed_ends(v);
    let line = k + seq!['='] + v;
    if v.len() > 0 && trimmed(v) == v && v[0] != '"' && v[0] != '\'' {
        assert(line[0] == k[0] && line.last() == v.last());
        trimmed_keeps(line);
        assert forall|i: int| 0 <= i < k.len() implies line[i] != '=' by {
            assert(k.contains(k[i]));
        }
        find_from_is_first(line, '=', 0);
        assert(line[k.len() as int] == '=');
        assert(find_from(line, '=', 0) == k.len());
        assert(line.take(k.len() as int) =~= k);
        assert(line.skip(k.len() as int + 1) =~= v);
        assert(unquoted(v) == v);
    }
    find_from_is_first(k, '=', 0);
    if find_from(k, '=', 0) < k.len() {
        assert(k.contains(k[find_from(k, '=', 0)]));
    }
    let comment = seq!['#'] + k;
    assert(comment[0] == '#' && comment.last() == k.last());
    trimmed_keeps(comment);
    trimmed_keeps(Seq::<char>::empty());
}

/// Quotes around a value are taken off, where there are two of a kind.
pub proof fn quotes_are_taken_off(v: Seq<char>)
    ensures
        unquoted(seq!['"'] + v + seq!['"']) == v,
        unquoted(seq!['\''] + v + seq!['\'']) == v,
        v.len() > 0 && v[0] != '"' && v[0] != '\'' ==> unquoted(v) == v,
{
    let a = seq!['"'] + v + seq!['"'];
    let b = seq!['\''] + v + seq!['\''];
    assert(a.last() == '"' && b.last() == '\'');
    assert(a.subrange(1, a.len() - 1) =~= v);
    assert(b.subrange(1, b.len() - 1) =~= v);
}

/// A variable is written as its key, an equals sign and its value, which is quoted
/// where it is empty or holds a character that would be read otherwise.
pub proof fn variables_are_written(x: VarView)
    ensures
        var_line(x) == x.key + seq!['='] + quoted(x.value),
        x.value.len() == 0 ==> quoted(x.value) == seq!['"', '"'],
        x.value.len() > 0 && (forall|i: int|
            0 <= i < x.value.len() ==> {
                let c = #[trigger] x.value[i];
                c != ' ' && c != '\t' && c != '#' && c != '"' && c != '\'' && c != '\\' && c != '='
                    && c != '\n'
            }) ==> quoted(x.value) == x.value,
{
    assert(x.key.push('=') =~= x.key + seq!['=']);
    if x.value.len() == 0 {
        assert(quoted(x.value) =~= seq!['"', '"']);
    }
}

// ─── Volume names ──────────────────────────────────────────────────────────

/// A name of lowercase letters and digits, not too long, names its volume as it
/// is.
pub proof fn plain_names_name_their_volumes(name: Seq<char>)
    requires
        0 < name.len() <= 48,
        forall|i: int|
            0 <= i < name.len() ==> ('a' <= #[trigger] name[i] && name[i] <= 'z') || ('0' <= name[i]
                && name[i] <= '9'),
    ensures
        volume_name_of(name) == name + "-disk"@,
{
    let safe = name.map_values(|c: char| label_char(c));
    assert(safe =~= name);
    nothing_collapses(name);
    assert(name[0] != '-');
    assert(name.last() != '-');
}

proof fn nothing_collapses(s: Seq<char>)
    requires
        forall|i: int| 0 <= i < s.len() ==> #[trigger] s[i] != '-',
    ensures
        collapsed(s) == s,
    decreases s.len(),
{
    if s.len() > 0 {
        nothing_collapses(s.drop_last());
        assert(s.last() == s[s.len() - 1]);
        assert(s.drop_last().push(s.last()) =~= s);
    }
}

// ─── Hints ─────────────────────────────────────────────────────────────────

/// Whether a text holds another.
pub open spec fn mentions(s: Seq<char>, word: Seq<char>) -> bool {
    exists|a: Seq<char>, b: Seq<char>| s == #[trigger] (a + word + b)
}

/// What is a part of a text is a stretch of it.
pub proof fn parts_are_stretches(s: Seq<char>, word: Seq<char>)
    ensures
        has_substring(s, word) <==> mentions(s, word),
{
    if has_substring(s, word) {
        let i = choose|i: int|
            0 <= i <= s.len() - word.len() && #[trigger] s.subrange(i, i + word.len()) == word;
        assert(s =~= s.take(i) + word + s.skip(i + word.len()));
    }
    if mentions(s, word) {
        let (a, b) = choose|a: Seq<char>, b: Seq<char>| s == #[trigger] (a + word + b);
        let i = a.len() as int;
        assert(s.subrange(i, i + word.len()) =~= word);
    }
}

proof fn hint_400()
    ensures
        mentions("Check that your configuration values are valid."@, "configuration values"@),
{
    reveal_strlit("Check that your configuration values are valid.");
    reveal_strlit("configuration values");
    let s = "Check that your configuration values are valid."@;
    let w = "configuration values"@;
    assert(w.len() == 20);
    assert(s.subrange(16, 36) =~= w);
    assert(has_substring(s, w)) by {
        assert(s.subrange(16, 16 + w.len() as int) == w);
    }
    parts_are_stretches(s, w);
}

proof fn hint_401()
    ensures
        mentions("Your API key may have expired or been revoked. Run 'partiri auth login' to sign in again."@, "auth login"@),
{
    reveal_strlit("Your API key may have expired or been revoked. Run 'partiri auth login' to sign in again.");
    reveal_strlit("auth login");
    let s = "Your API key may have expired or been revoked. Run 'partiri auth login' to sign in again."@;
    let w = "auth login"@;
    assert(w.len() == 10);
    assert(s.subrange(60, 70) =~= w);
    assert(has_substring(s, w)) by {
        assert(s.subrange(60, 60 + w.len() as int) == w);
    }
    parts_are_stretches(s, w);
}

proof fn hint_402()
    ensures
        mentions("Your workspace balance is insufficient. Top up at https://partiri.cloud/settings/billing"@, "balance"@),
{
    reveal_strlit("Your workspace balance is insufficient. Top up at https://partiri.cloud/settings/billing");
    reveal_strlit("balance");
    let s = "Your workspace balance is insufficient. Top up at https://partiri.cloud/settings/billing"@;
    let w = "balance"@;
    assert(w.len() == 7);
    assert(s.subrange(15, 22) =~= w);
    assert(has_substring(s, w)) by {
        assert(s.subrange(15, 15 + w.len() as int) == w);
    }
    parts_are_stretches(s, w);
}

proof fn hint_403()
    ensures
        mentions("Your account may lack permission, or a workspace limit has been reached."@, "permission"@),
{
    reveal_strlit("Your account may lack permission, or a workspace limit has been reached.");
    reveal_strlit("permission");
    let s = "Your account may lack permission, or a workspace limit has been reached."@;
    let w = "permission"@;
    assert(w.len() == 10);
    assert(s.subrange(22, 32) =~= w);
    assert(has_substring(s, w)) by {
        assert(s.subrange(22, 22 + w.len() as int) == w);
    }
    parts_are_stretches(s, w);
}

proof fn hint_404()
    ensures
        mentions("The resource was not found. It may have been deleted."@, "not found"@),
{
    reveal_strlit("The resource was not found. It may have been deleted.");
    reveal_strlit("not found");
    let s = "The resource was not found. It may have been deleted."@;
    let w = "not found"@;
    assert(w.len() == 9);
    assert(s.subrange(17, 26) =~= w);
    assert(has_substring(s, w)) by {
        assert(s.subrange(17, 17 + w.len() as int) == w);
    }
    parts_are_stretches(s, w);
}

proof fn hint_409()
    ensures
        mentions("A conflicting operation is in progress. Wait for it to finish, then retry."@, "conflicting operation"@),
{
    reveal_strlit("A conflicting operation is in progress. Wait for it to finish, then retry.");
    reveal_strlit("conflicting operation");
    let s = "A conflicting operation is in progress. Wait for it to finish, then retry."@;
    let w = "conflicting operation"@;
    assert(w.len() == 21);
    assert(s.subrange(2, 23) =~= w);
    assert(has_substring(s, w)) by {
        assert(s.subrange(2, 2 + w.len() as int) == w);
    }
    parts_are_stretches(s, w);
}

proof fn hint_422()
    ensures
        mentions("The request data is invalid. Check your configuration values."@, "request data is invalid"@),
{
    reveal_strlit("The request data is invalid. Check your configuration values.");
    reveal_strlit("request data is invalid");
    let s = "The request data is invalid. Check your configuration values."@;
    let w = "request data is invalid"@;
    assert(w.len() == 23);
    assert(s.subrange(4, 27) =~= w);
    assert(has_substring(s, w)) by {
        assert(s.subrange(4, 4 + w.len() as int) == w);
    }
    parts_are_stretches(s, w);
}

proof fn hint_429()
    ensures
        mentions("Rate limit exceeded. Please wait a moment and try again."@, "Rate limit"@),
{
    reveal_strlit("Rate limit exceeded. Please wait a moment and try again.");
    reveal_strlit("Rate limit");
    let s = "Rate limit exceeded. Please wait a moment and try again."@;
    let w = "Rate limit"@;
    assert(w.len() == 10);
    assert(s.subrange(0, 10) =~= w);
    assert(has_substring(s, w)) by {
        assert(s.subrange(0, 0 + w.len() as int) == w);
    }
    parts_are_stretches(s, w);
}

proof fn hint_500()
    ensures
        mentions("This is a server-side error. Try again later, or contact support."@, "server-side"@),
{
    reveal_strlit("This is a server-side error. Try again later, or contact support.");
    reveal_strlit("server-side");
    let s = "This is a server-side error. Try again later, or contact support."@;
    let w = "server-side"@;
    assert(w.len() == 11);
    assert(s.subrange(10, 21) =~= w);
    assert(has_substring(s, w)) by {
        assert(s.subrange(10, 10 + w.len() as int) == w);
    }
    parts_are_stretches(s, w);
}

/// The hint on a status says what is wrong: the key, the balance, the permission,
/// the resource, the operation in the way, the data, the rate, or the server.
pub proof fn hints_say_what_is_wrong(status: u16)
    ensures
        status == 400 ==> mentions(status_hint(status)->0, "configuration values"@),
        status == 401 ==> mentions(status_hint(status)->0, "auth login"@),
        status == 402 ==> mentions(status_hint(status)->0, "balance"@),
        status == 403 ==> mentions(status_hint(status)->0, "permission"@),
        status == 404 ==> mentions(status_hint(status)->0, "not found"@),
        status == 409 ==> mentions(status_hint(status)->0, "conflicting operation"@),
        status == 422 ==> mentions(status_hint(status)->0, "request data is invalid"@),
        status == 429 ==> mentions(status_hint(status)->0, "Rate limit"@),
        500 <= status <= 599 ==> mentions(status_hint(status)->0, "server-side"@),
{
    hint_400();
    hint_401();
    hint_402();
    hint_403();
    hint_404();
    hint_409();
    hint_422();
    hint_429();
    hint_500();
}

/// The commands that are suggested for an error lead to what mends it.
pub proof fn suggestions_mend(over: Option<Seq<char>>)
    ensures
        metadata_of("400"@, over).1 == seq!["partiri validate"@],
        metadata_of("401"@, over).1.contains("partiri auth --key <K>"@),
        metadata_of("404"@, over).1 == seq!["partiri llm context"@],
        metadata_of("409"@, over).1 == seq!["partiri service jobs"@],
        metadata_of("422"@, over).1 == seq!["partiri validate --remote"@],
        metadata_of("429"@, over).1.len() == 0,
        metadata_of("auth"@, over).1 == seq!["partiri auth --key <K>"@],
        metadata_of("validation"@, over).1 == seq!["partiri llm next"@],
        metadata_of("network"@, over).1 == seq!["partiri llm doctor"@],
        metadata_of("config"@, over).1 == seq![
            "partiri init --template"@ + config_flag_suffix_of(over),
        ],
{
    error_codes();
    assert(metadata_of("401"@, over).1[0] == "partiri auth --key <K>"@);
}

/// The codes differ from each other.
pub proof fn error_codes()
    ensures
        "400"@.len() == 3 && "400"@[1] == '0' && "400"@[2] == '0',
        "401"@.len() == 3 && "401"@[1] == '0' && "401"@[2] == '1',
        "402"@.len() == 3 && "402"@[1] == '0' && "402"@[2] == '2',
        "403"@.len() == 3 && "403"@[1] == '0' && "403"@[2] == '3',
        "404"@.len() == 3 && "404"@[1] == '0' && "404"@[2] == '4',
        "409"@.len() == 3 && "409"@[1] == '0' && "409"@[2] == '9',
        "422"@.len() == 3 && "422"@[1] == '2' && "422"@[2] == '2',
        "429"@.len() == 3 && "429"@[1] == '2' && "429"@[2] == '9',
        "auth"@.len() == 4,
        "validation"@.len() == 10,
        "network"@.len() == 7,
        "config"@.len() == 6,
        "missing_dependency"@.len() == 18,
{
    reveal_strlit("400");
    reveal_strlit("401");
    reveal_strlit("402");
    reveal_strlit("403");
    reveal_strlit("404");
    reveal_strlit("409");
    reveal_strlit("422");
    reveal_strlit("429");
    reveal_strlit("auth");
    reveal_strlit("validation");
    reveal_strlit("network");
    reveal_strlit("config");
    reveal_strlit("missing_dependency");
    assert("400"@.len() == 3);
    assert("401"@.len() == 3);
    assert("402"@.len() == 3);
    assert("403"@.len() == 3);
    assert("404"@.len() == 3);
    assert("409"@.len() == 3);
    assert("422"@.len() == 3);
    assert("429"@.len() == 3);
    assert("auth"@.len() == 4);
    assert("validation"@.len() == 10);
    assert("network"@.len() == 7);
    assert("config"@.len() == 6);
    assert("missing_dependency"@.len() == 18);
}

} // verus!
