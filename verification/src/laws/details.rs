//! What each check, word and entry is about, in particular.
use vstd::prelude::*;
use vstd::string::*;

use crate::auth::{after_word, crlf_from, crlf_parts, first_word, host_matches, word_end};
use crate::cli::{
    task_of, AuthCommands, Commands, McpCommands, PodCommands, ProjectCommands, RegionCommands,
    SecretsCommands, Setup, Task, WorkspaceCommands,
};
use crate::client::{Job, Pod, RegionPricing};
use crate::config::{
    base_checks, branch_checks, build_checks, checks_of, known_deploy_type, known_runtime,
    run_checks, static_checks, PartiriConfig,
};
use crate::databases::{need_of, no_input_error, CreateArgs};
use crate::init::{
    cargo_name_in, go_module, is_module_line, json_name_of, pod_label, without_module, CargoName,
    Price,
};
use crate::jobs::older;
use crate::json::{
    first_member_is_found, member_index, member_index_range, member_of, parsed_json, set_in,
    set_keeps_the_others, set_then_get, JsonView,
};
use crate::laws::commands::mentions;
use crate::laws::editor::shown;
use crate::laws::rules::{blank_means_white, has_words};
use crate::laws::validation::has_text;
use crate::lsp::completion::{field_item, ItemKind};
use crate::lsp::diagnostics::{is_unknown, unknown_diag, unknown_keys, DiagView, Severity};
use crate::lsp::documents::{line_begin, place_of, position_of, utf16_len};
use crate::lsp::locate::{keys_at, name_range_at, NodeView, PropView, Span};
use crate::mcp::{installed, uninstalled, SERVER_NAME};
use crate::schema::{known_info, InfoView, TableView};
use crate::service::env::{lines_of, without_cr};
use crate::text::{
    ascii_lower, decimal_of, find_from, find_from_is_first, is_white, text_lt, trim_start_of,
    trimmed,
};
use crate::validate::{static_rows, Status};

verus! {

// ─── Checks ────────────────────────────────────────────────────────────────

/// The checks differ from each other.
pub proof fn check_names()
    ensures
        "name"@.len() == 4,
        "name_length"@.len() == 11 && "name_length"@[0] == 'n',
        "deploy_type"@.len() == 11 && "deploy_type"@[0] == 'd',
        "runtime"@.len() == 7,
        "root_path"@.len() == 9 && "root_path"@[0] == 'r',
        "fk_region"@.len() == 9 && "fk_region"@[0] == 'f',
        "fk_pod"@.len() == 6 && "fk_pod"@[0] == 'f',
        "source"@.len() == 6 && "source"@[0] == 's',
        "deploy_type/static"@.len() == 18,
        "repository_branch"@.len() == 17,
        "build_command"@.len() == 13,
        "run_command"@.len() == 11 && "run_command"@[0] == 'r',
{
    reveal_strlit("name");
    reveal_strlit("name_length");
    reveal_strlit("deploy_type");
    reveal_strlit("runtime");
    reveal_strlit("root_path");
    reveal_strlit("fk_region");
    reveal_strlit("fk_pod");
    reveal_strlit("source");
    reveal_strlit("deploy_type/static");
    reveal_strlit("repository_branch");
    reveal_strlit("build_command");
    reveal_strlit("run_command");
    assert("name"@.len() == 4);
    assert("name_length"@.len() == 11);
    assert("deploy_type"@.len() == 11);
    assert("runtime"@.len() == 7);
    assert("root_path"@.len() == 9);
    assert("fk_region"@.len() == 9);
    assert("fk_pod"@.len() == 6);
    assert("source"@.len() == 6);
    assert("deploy_type/static"@.len() == 18);
    assert("repository_branch"@.len() == 17);
    assert("build_command"@.len() == 13);
    assert("run_command"@.len() == 11);
}

/// Each check of a configuration is about the field that it names, and says what
/// is wrong with it.
pub proof fn checks_are_about_their_fields(c: PartiriConfig, i: int)
    requires
        0 <= i < checks_of(c).len(),
    ensures
        ({
            let s = c.service;
            let x = checks_of(c)[i];
            &&& x.field == "name"@ ==> (x.ok <==> s.name@.len() > 0) && x.message == "Service name is required"@
            &&& x.field == "name_length"@ ==> (x.ok <==> s.name@.len() <= 16) && x.message == "Service name must be 16 characters or fewer"@
            &&& x.field == "deploy_type"@ ==> (x.ok <==> known_deploy_type(s.deploy_type@))
            &&& x.field == "runtime"@ ==> (x.ok <==> known_runtime(s.runtime@))
            &&& x.field == "root_path"@ ==> (x.ok <==> s.root_path@.len() > 0) && x.message == "root_path is required"@
            &&& x.field == "fk_region"@ ==> (x.ok <==> s.fk_region@.len() > 0) && x.message == "Region is required"@
            &&& x.field == "fk_pod"@ ==> (x.ok <==> s.fk_pod@.len() > 0) && x.message == "Compute pod is required"@
            &&& x.field == "source"@ ==> (x.ok <==> (has_text(s.repository_url) <==> !has_text(s.registry_url)))
            &&& x.field == "deploy_type/static"@ ==> (x.ok <==> !(s.deploy_type@ == "static"@ && has_text(s.registry_url)))
            &&& x.field == "repository_branch"@ ==> (x.ok <==> has_text(s.repository_branch)) && x.message == "repository_branch is required when repository_url is set"@
            &&& x.field == "build_command"@ ==> (x.ok <==> has_words(s.build_command)) && x.message == "build_command is required for repository-sourced services"@
            &&& x.field == "run_command"@ ==> (x.ok <==> has_words(s.run_command)) && x.message == "run_command is required for webservice, private-service, and worker deploy types"@
            &&& x.field == "name"@ || x.field == "name_length"@ || x.field == "deploy_type"@ || x.field == "runtime"@ || x.field == "root_path"@ || x.field == "fk_region"@ || x.field == "fk_pod"@ || x.field == "source"@ || x.field == "deploy_type/static"@ || x.field == "repository_branch"@ || x.field == "build_command"@ || x.field == "run_command"@
        }),
{
    check_names();
    let s = c.service;
    let b = base_checks(s);
    let t = static_checks(s);
    let h = branch_checks(s);
    let m = build_checks(s);
    let r = run_checks(s);
    if let Some(x) = s.build_command {
        blank_means_white(x@);
    }
    if let Some(x) = s.run_command {
        blank_means_white(x@);
    }
    let all = checks_of(c);
    let n1 = 8int;
    let n2 = n1 + t.len();
    let n3 = n2 + h.len();
    let n4 = n3 + m.len();
    if i < n1 {
        assert(all[i] == b[i]);
    } else if i < n2 {
        assert(all[i] == t[i - n1]);
    } else if i < n3 {
        assert(all[i] == h[i - n2]);
    } else if i < n4 {
        assert(all[i] == m[i - n3]);
    } else {
        assert(all[i] == r[i - n4]);
    }
}

/// The first eight checks are made of every configuration, each once.
pub proof fn every_field_is_checked(c: PartiriConfig)
    ensures
        checks_of(c).len() >= 8,
        checks_of(c)[0].field == "name"@,
        checks_of(c)[1].field == "name_length"@,
        checks_of(c)[2].field == "deploy_type"@,
        checks_of(c)[3].field == "runtime"@,
        checks_of(c)[4].field == "root_path"@,
        checks_of(c)[5].field == "fk_region"@,
        checks_of(c)[6].field == "fk_pod"@,
        checks_of(c)[7].field == "source"@,
{
}

/// A check that fails is a row that fails with its message, and one that holds a
/// row that passes.
pub proof fn rows_follow_the_checks(c: PartiriConfig, i: int)
    requires
        0 <= i < checks_of(c).len(),
    ensures
        static_rows(c).len() == checks_of(c).len(),
        static_rows(c)[i].field == checks_of(c)[i].field,
        static_rows(c)[i].status == Status::Pass <==> checks_of(c)[i].ok,
        static_rows(c)[i].status == Status::Fail <==> !checks_of(c)[i].ok,
        !checks_of(c)[i].ok ==> static_rows(c)[i].message == checks_of(c)[i].message,
{
}

// ─── Unknown properties ────────────────────────────────────────────────────

/// The keys of an object are the names of its properties, in order.
pub proof fn keys_are_the_names(span: Span, props: Seq<PropView>)
    ensures
        keys_at(NodeView::Object(span, props), seq![]).len() == props.len(),
        forall|i: int|
            0 <= i < props.len() ==> keys_at(NodeView::Object(span, props), seq![])[i] == (
            #[trigger] props[i]).name,
{
    let n = NodeView::Object(span, props);
    assert(crate::lsp::locate::value_at(n, seq![]) == Some(n));
}

/// Whether a diagnostic warns of a property, on its name.
pub open spec fn warns_of(d: DiagView, text: Seq<char>, span: Span, key: Seq<char>) -> bool {
    &&& d.severity == Severity::Warning
    &&& d.source == "partiri"@
    &&& d.range == (position_of(text, span.start as int), position_of(text, span.end as int))
    &&& mentions(d.message, key) || key == "env"@
}

/// A property that the schema does not know is shown as a warning on its name, and
/// one that it knows is not.
pub proof fn unknown_properties_are_shown(
    text: Seq<char>,
    n: NodeView,
    path: Seq<Seq<char>>,
    t: TableView,
    key: Seq<char>,
    span: Span,
)
    requires
        keys_at(n, path).contains(key),
        name_range_at(n, path.push(key)) == Some(span),
    ensures
        known_info(t, key) is None ==> exists|i: int|
            0 <= i < unknown_keys(text, n, path, t).len() && warns_of(
                #[trigger] unknown_keys(text, n, path, t)[i],
                text,
                span,
                key,
            ),
        (forall|k: Seq<char>| keys_at(n, path).contains(k) ==> #[trigger] known_info(t, k) is Some)
            ==> unknown_keys(text, n, path, t).len() == 0,
{
    let keys = keys_at(n, path);
    let p = is_unknown(t);
    let kept = keys.filter(p);
    let all = unknown_keys(text, n, path, t);
    assert(all =~= kept.map_values(|k: Seq<char>| unknown_diag(text, n, path, k)));
    if known_info(t, key) is None {
        let j = keys.index_of(key);
        assert(p(keys[j]));
        keys.lemma_filter_contains(p, j);
        let i = kept.index_of(key);
        assert(all[i] == unknown_diag(text, n, path, key));
        let m = all[i].message;
        if key != "env"@ {
            assert(m == "Unknown field '"@ + key + "' — not part of the .partiri.jsonc schema."@);
            assert(mentions(m, key));
        }
        assert(warns_of(all[i], text, span, key));
    }
    if forall|k: Seq<char>| keys_at(n, path).contains(k) ==> #[trigger] known_info(t, k) is Some {
        if kept.len() > 0 {
            keys.lemma_filter_pred(p, 0);
            assert(kept.contains(kept[0]));
            keys.lemma_filter_contains_rev(p, kept[0]);
            assert(known_info(t, kept[0]) is Some);
        }
    }
}

/// A property that is offered is shown with what it is about.
pub proof fn offered_properties_say_what_they_are_about(key: Seq<char>, info: InfoView)
    ensures
        field_item((key, info)).label == key,
        field_item((key, info)).kind == ItemKind::Field,
        info.description.len() > 0 ==> field_item((key, info)).documentation == Some(
            info.description,
        ),
{
}

// ─── Positions ─────────────────────────────────────────────────────────────

/// The column of a place is the number of characters before it on its line, where
/// each takes one unit.
pub proof fn columns_count_characters(s: Seq<char>, b: int, k: int)
    requires
        0 <= b <= k <= s.len(),
        b == 0 || s[b - 1] == '\n',
        forall|i: int| b <= i < k ==> #[trigger] s[i] != '\n' && (s[i] as u32) < 0x10000,
    ensures
        place_of(s, k).1 == k - b,
{
    line_begin_is(s, b, k);
    units(s.subrange(b, k));
}

proof fn line_begin_is(s: Seq<char>, b: int, k: int)
    requires
        0 <= b <= k <= s.len(),
        b == 0 || s[b - 1] == '\n',
        forall|i: int| b <= i < k ==> #[trigger] s[i] != '\n',
    ensures
        line_begin(s, k) == b,
    decreases k - b,
{
    if k > b {
        assert(s[k - 1] != '\n');
        line_begin_is(s, b, k - 1);
    }
}

proof fn units(s: Seq<char>)
    requires
        forall|i: int| 0 <= i < s.len() ==> (#[trigger] s[i] as u32) < 0x10000,
    ensures
        utf16_len(s) == s.len(),
    decreases s.len(),
{
    if s.len() > 0 {
        units(s.drop_last());
        assert((s[s.len() - 1] as u32) < 0x10000);
    }
}

// ─── Jobs ──────────────────────────────────────────────────────────────────

/// A job is older than another where its time comes first, and where only the
/// other has one.
pub proof fn older_jobs(a: Job, b: Job)
    ensures
        older(a, b) <==> (a.created_at is None && b.created_at is Some) || (a.created_at is Some
            && b.created_at is Some && text_lt(a.created_at->0@, b.created_at->0@)),
{
}

// ─── Names of projects ─────────────────────────────────────────────────────

/// The name of a project is the text under `name` in its manifest.
pub proof fn manifest_names(
    text: Option<String>,
    m: Seq<(Seq<char>, JsonView)>,
    i: int,
    name: Seq<char>,
)
    requires
        text is Some,
        parsed_json(text->0@) == Some(JsonView::Obj(m)),
        0 <= i < m.len(),
        m[i] == ("name"@, JsonView::Str(name)),
        forall|k: int| 0 <= k < i ==> (#[trigger] m[k]).0 != "name"@,
    ensures
        json_name_of(text) == Some(name),
        cargo_name_in(JsonView::Obj(seq![("package"@, JsonView::Obj(m))])) == CargoName::Name(
            Some(name),
        ),
{
    first_member_is_found(m, "name"@, i);
    let top = seq![("package"@, JsonView::Obj(m))];
    first_member_is_found(top, "package"@, 0);
}

/// The name of a Go project is what its first line calls the module.
pub proof fn go_modules(name: Seq<char>, rest: Seq<char>)
    requires
        name.len() > 0,
        trimmed(name) == name,
        !name.contains('\n'),
        !name.contains(' '),
    ensures
        go_module("module "@ + name + seq!['\n'] + rest) == Some(name),
{
    reveal_strlit("module ");
    assert("module "@.len() == 7 && "module "@[6] == ' ');
    crate::text::trimmed_ends(name);
    let line = "module "@ + name;
    let text = line + seq!['\n'] + rest;
    assert(!line.contains('\n')) by {
        if line.contains('\n') {
            let i = line.index_of('\n');
            if i >= 7 {
                assert(name[i - 7] == '\n');
            }
        }
    }
    line_by_line(line, rest);
    assert(line.last() == name.last());
    assert(!is_white(line.last()));
    assert(line.last() != '\r');
    let all = lines_of(text);
    assert(all[0] == line);
    assert("module "@.is_prefix_of(line));
    assert(is_module_line()(all[0]));
    assert(line.skip(7) =~= name);
    assert(!"module "@.is_prefix_of(name)) by {
        if "module "@.is_prefix_of(name) {
            assert(name[6] == ' ');
            assert(name.contains(' '));
        }
    }
    assert(without_module(line) == without_module(name));
    assert(without_module(name) == name);
}

/// A text is read line by line: up to each line break, without a carriage return
/// before it.
pub proof fn line_by_line(line: Seq<char>, rest: Seq<char>)
    requires
        !line.contains('\n'),
    ensures
        lines_of(line + seq!['\n'] + rest) == seq![without_cr(line)] + lines_of(rest),
        line.len() > 0 ==> lines_of(line) == seq![line],
        without_cr(line.push('\r')) == line,
        line.len() > 0 && line.last() != '\r' ==> without_cr(line) == line,
{
    let s = line + seq!['\n'] + rest;
    assert forall|i: int| 0 <= i < line.len() implies s[i] != '\n' && line[i] != '\n' by {
        assert(line.contains(line[i]));
    }
    find_from_is_first(s, '\n', 0);
    assert(s[line.len() as int] == '\n');
    assert(find_from(s, '\n', 0) == line.len());
    assert(s.take(line.len() as int) =~= line);
    assert(s.skip(line.len() as int + 1) =~= rest);
    find_from_is_first(line, '\n', 0);
    assert(line.push('\r').drop_last() =~= line);
}

// ─── Requests of the browser ───────────────────────────────────────────────

/// The first word of a line is what stands before its first space.
pub proof fn first_words(word: Seq<char>, rest: Seq<char>)
    requires
        word.len() > 0,
        forall|i: int| 0 <= i < word.len() ==> !is_white(#[trigger] word[i]),
    ensures
        first_word(word + seq![' '] + rest) == word,
        after_word(word + seq![' '] + rest) == seq![' '] + rest,
{
    let s = word + seq![' '] + rest;
    assert(s[0] == word[0]);
    assert(!is_white(s[0]));
    assert(trim_start_of(s) == s);
    word_ends(s, word.len() as int, 0);
    assert(s.take(word.len() as int) =~= word);
    assert(s.skip(word.len() as int) =~= seq![' '] + rest);
}

proof fn word_ends(s: Seq<char>, n: int, from: int)
    requires
        0 <= from <= n < s.len(),
        is_white(s[n]),
        forall|i: int| from <= i < n ==> !is_white(#[trigger] s[i]),
    ensures
        word_end(s, from) == n,
    decreases n - from,
{
    if from < n {
        assert(!is_white(s[from]));
        word_ends(s, n, from + 1);
    }
}

/// The head of a request is split at its line breaks.
pub proof fn heads_are_split(line: Seq<char>, rest: Seq<char>)
    requires
        !line.contains('\r'),
    ensures
        crlf_parts(line + seq!['\r', '\n'] + rest, 0)[0] == line,
{
    let s = line + seq!['\r', '\n'] + rest;
    assert forall|i: int| 0 <= i < line.len() implies s[i] != '\r' by {
        assert(line.contains(line[i]));
    }
    break_at(s, line.len() as int, 0);
    assert(s.subrange(0, line.len() as int) =~= line);
}

proof fn break_at(s: Seq<char>, n: int, from: int)
    requires
        0 <= from <= n,
        n + 1 < s.len(),
        s[n] == '\r',
        s[n + 1] == '\n',
        forall|i: int| from <= i < n ==> s[i] != '\r',
    ensures
        crlf_from(s, from) == n,
    decreases n - from,
{
    if from < n {
        assert(s[from] != '\r');
        break_at(s, n, from + 1);
    }
}

/// A request is for the listener where its host is that of the listener, under
/// either of its names and with its port.
pub proof fn hosts_that_match(headers: Seq<Seq<char>>, i: int, value: Seq<char>, port: u16)
    requires
        0 <= i < headers.len(),
        headers[i] == "Host:"@ + value,
    ensures
        host_matches(headers, i, port) <==> trimmed(value) == "127.0.0.1:"@ + decimal_of(
            port as nat,
        ) || trimmed(value) == "localhost:"@ + decimal_of(port as nat),
{
    reveal_strlit("Host:");
    reveal_strlit("host");
    assert("Host:"@.len() == 5 && "Host:"@[4] == ':' && "Host:"@[0] == 'H' && "Host:"@[1] == 'o'
        && "Host:"@[2] == 's' && "Host:"@[3] == 't');
    let line = headers[i];
    find_from_is_first(line, ':', 0);
    assert(line[4] == ':');
    assert(line[0] == 'H' && line[1] == 'o' && line[2] == 's' && line[3] == 't');
    assert(find_from(line, ':', 0) == 4);
    assert(line.skip(5) =~= value);
    assert(ascii_lower(line.take(4)) =~= "host"@);
}

// ─── Prices ────────────────────────────────────────────────────────────────

/// A pod is offered with its price where it is known, and without one where there
/// are no prices.
pub proof fn offers_show_the_price(p: Pod, pricing: Option<RegionPricing<Price>>)
    ensures
        pricing is Some && crate::init::price_in(pricing, p.id@) is Some ==> mentions(
            pod_label(p, pricing),
            " — €"@ + crate::init::price_in(pricing, p.id@)->0.shown@ + "/mo"@,
        ),
        pricing is Some && crate::init::price_in(pricing, p.id@) is None ==> mentions(
            pod_label(p, pricing),
            " — price unavailable"@,
        ),
        p.cpu is Some && p.ram is Some ==> mentions(
            pod_label(p, pricing),
            " — "@ + p.cpu->0@ + " CPU / "@ + p.ram->0@ + " RAM"@,
        ),
{
    let display = match p.label {
        Some(l) => l@,
        None => p.name@,
    };
    let specs = match (p.cpu, p.ram) {
        (Some(cpu), Some(ram)) => " — "@ + cpu@ + " CPU / "@ + ram@ + " RAM"@,
        _ => ""@,
    };
    let price = match pricing {
        Some(_) => match crate::init::price_in(pricing, p.id@) {
            Some(v) => " — €"@ + v.shown@ + "/mo"@,
            None => " — price unavailable"@,
        },
        None => ""@,
    };
    let end = " ("@ + p.id@ + ")"@;
    assert(pod_label(p, pricing) =~= (display + specs) + price + end);
    assert(pod_label(p, pricing) =~= display + specs + (price + end));
}

// ─── Databases ─────────────────────────────────────────────────────────────

/// What is missing and cannot be asked for is named with its flag.
pub proof fn missing_settings_are_named(a: CreateArgs)
    ensures
        a.project is Some && a.region is None ==> need_of(a, true) == Err::<
            crate::databases::Need,
            crate::error::CliErrorView,
        >(no_input_error("region"@, "--region <UUID>"@)),
        a.project is Some && a.region is Some && a.pod is None ==> need_of(a, true) == Err::<
            crate::databases::Need,
            crate::error::CliErrorView,
        >(no_input_error("pod"@, "--pod <UUID>"@)),
        a.project is Some && a.region is Some && a.pod is Some && a.name is None ==> need_of(a, true)
            == Err::<crate::databases::Need, crate::error::CliErrorView>(
            no_input_error("name"@, "--name <NAME>"@),
        ),
        no_input_error("region"@, "--region <UUID>"@).message == "No "@ + "region"@
            + " specified and prompting is disabled."@,
{
}

// ─── Tools ─────────────────────────────────────────────────────────────────

/// Installing and removing the server leave every other server of the tool, and
/// every other setting.
pub proof fn other_servers_stay(
    m: Seq<(Seq<char>, JsonView)>,
    servers: Seq<(Seq<char>, JsonView)>,
    key: Seq<char>,
    other: Seq<char>,
)
    requires
        member_of(JsonView::Obj(m), key) == Some(JsonView::Obj(servers)),
        other != "partiri-cloud"@,
    ensures
        installed(JsonView::Obj(m), key) is Ok,
        member_of(
            member_of(installed(JsonView::Obj(m), key)->Ok_0, key)->0,
            other,
        ) == member_of(JsonView::Obj(servers), other),
        uninstalled(JsonView::Obj(m), key) is Some <==> member_of(
            JsonView::Obj(servers),
            "partiri-cloud"@,
        ) is Some,
        uninstalled(JsonView::Obj(m), key) matches Some(after) ==> member_of(
            member_of(after, key)->0,
            other,
        ) == member_of(JsonView::Obj(servers), other),
        uninstalled(JsonView::Obj(m), key) matches Some(after) ==> forall|k: Seq<char>|
            k != key ==> #[trigger] member_of(after, k) == member_of(JsonView::Obj(m), k),
{
    let added = JsonView::Obj(set_in(servers, SERVER_NAME@, crate::mcp::entry_view()));
    set_then_get(m, key, added);
    set_keeps_the_others(servers, SERVER_NAME@, crate::mcp::entry_view(), other);
    let i = member_index(servers, SERVER_NAME@, 0);
    member_index_range(servers, SERVER_NAME@, 0);
    if i < servers.len() {
        let left = servers.remove(i);
        set_then_get(m, key, JsonView::Obj(left));
        removed_keeps(servers, i, other);
        assert forall|k: Seq<char>| k != key implies #[trigger] member_of(
            JsonView::Obj(set_in(m, key, JsonView::Obj(left))),
            k,
        ) == member_of(JsonView::Obj(m), k) by {
            set_keeps_the_others(m, key, JsonView::Obj(left), k);
        }
    }
}

proof fn removed_keeps(m: Seq<(Seq<char>, JsonView)>, i: int, other: Seq<char>)
    requires
        0 <= i < m.len(),
        m[i].0 != other,
    ensures
        member_of(JsonView::Obj(m.remove(i)), other) == member_of(JsonView::Obj(m), other),
{
    let left = m.remove(i);
    member_index_range(m, other, 0);
    let j = member_index(m, other, 0);
    if j < m.len() {
        let k = if j < i {
            j
        } else {
            j - 1
        };
        assert(left[k] == m[j]);
        assert forall|x: int| 0 <= x < k implies (#[trigger] left[x]).0 != other by {
            if x < i {
                assert(left[x] == m[x]);
            } else {
                assert(left[x] == m[x + 1]);
            }
        }
        first_member_is_found(left, other, k);
    } else {
        assert forall|x: int| 0 <= x < left.len() implies (#[trigger] left[x]).0 != other by {
            if x < i {
                assert(left[x] == m[x]);
            } else {
                assert(left[x] == m[x + 1]);
            }
        }
        crate::json::absent_member_is_not_found(left, other);
    }
}

// ─── Commands ──────────────────────────────────────────────────────────────

/// The other commands hand on what they were given.
pub proof fn flags_are_handed_on(
    cmd: SecretsCommands,
    key: Option<String>,
    key_stdin: bool,
    force: bool,
    template: bool,
)
    ensures
        task_of(Commands::Auth { cmd: AuthCommands::Login { force } }).1 == (Task::Login { force }),
        ({
            let t = task_of(
                Commands::Auth { cmd: AuthCommands::SetApikey { key, key_stdin, force } },
            ).1;
            t is SetApikey && t->SetApikey_0.key == key && t->SetApikey_0.key_stdin == key_stdin
                && t->SetApikey_0.force == force
        }),
        task_of(Commands::Init { template }).1 matches Task::Init(a) && a.template == template,
        ({
            let (setup, t) = task_of(Commands::Secrets(cmd));
            &&& setup == Setup::Client
            &&& cmd matches SecretsCommands::CreateRegistry {
                workspace,
                name,
                provider,
                username,
                password,
                password_stdin,
            } ==> t is CreateRegistry && t->CreateRegistry_0.workspace == workspace
                && t->CreateRegistry_0.name == name && t->CreateRegistry_0.provider == provider
                && t->CreateRegistry_0.username == username && t->CreateRegistry_0.password == password
                && t->CreateRegistry_0.password_stdin == password_stdin
            &&& cmd matches SecretsCommands::CreateRepository {
                workspace,
                name,
                provider,
                token,
                token_stdin,
                username,
            } ==> t is CreateRepository && t->CreateRepository_0.workspace == workspace
                && t->CreateRepository_0.name == name && t->CreateRepository_0.provider == provider
                && t->CreateRepository_0.token == token && t->CreateRepository_0.token_stdin
                == token_stdin && t->CreateRepository_0.username == username
            &&& cmd matches SecretsCommands::List { workspace } ==> (t == Task::SecretList { workspace })
        }),
        task_of(Commands::Workspaces(WorkspaceCommands::List)).1 is WorkspaceList,
        forall|workspace: Option<String>|
            #[trigger] task_of(Commands::Projects(ProjectCommands::List { workspace })).1
                == (Task::ProjectList { workspace }),
        forall|workspace: Option<String>, name: Option<String>, environment: Option<String>|
            ({
                let t = #[trigger] task_of(
                    Commands::Projects(ProjectCommands::Create { workspace, name, environment }),
                );
                t.1 is ProjectCreate && t.1->ProjectCreate_0.workspace == workspace
                    && t.1->ProjectCreate_0.name == name && t.1->ProjectCreate_0.environment
                    == environment
            }),
        forall|workspace: String|
            #[trigger] task_of(Commands::Regions(RegionCommands::List { workspace })).1
                == (Task::RegionList { workspace }),
        forall|workspace: String, region: Option<String>|
            #[trigger] task_of(Commands::Pods(PodCommands::List { workspace, region })).1
                == (Task::PodList { workspace, region }),
        forall|client: Option<String>|
            #[trigger] task_of(Commands::Mcp(McpCommands::Install { client })).1
                == Task::McpInstall(client),
        forall|client: Option<String>|
            #[trigger] task_of(Commands::Mcp(McpCommands::Uninstall { client })).1
                == Task::McpUninstall(client),
{
}

} // verus!
