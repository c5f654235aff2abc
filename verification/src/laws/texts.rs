//! What the texts that are written hold.
use vstd::prelude::*;
use vstd::string::*;

use crate::client::{Pod, Project, Region, WorkspaceSecret};
use crate::config::PartiriConfig;
use crate::databases::{box_width, padded};
use crate::jsonc::{json_char, json_chars, json_text};
use crate::error::{error_text, Failure};
use crate::json::{
    absent_member_is_not_found, first_member_is_found, lookup_concat, member_of,
    strings_view, JsonView,
};
use crate::laws::validation::has_text;
use crate::llm::{
    arg_members, build_line, is_listed, listed_args, run_line, text_member, ArgInfo, PriceText,
    WorkspaceData, TEMPLATE_BUILD,
    TEMPLATE_DEPLOY_TYPE, TEMPLATE_END, TEMPLATE_REGISTRY, TEMPLATE_REPOSITORY, TEMPLATE_RUN,
    TEMPLATE_RUNTIME, TEMPLATE_SOURCE,
};
use crate::lsp::completion::{four_digits, workspace_of};
use crate::lsp::context_cache::{
    pod_entry, price_suffix, project_entry, region_entry, secret_entry, workspace_entry,
};
use crate::lsp::diagnostics::error_span;
use crate::lsp::hover::name_text;
use crate::lsp::locate::Span;
use crate::schema::described;
use crate::lsp::server::{is_question, Question};
use crate::output::Ctx;
use crate::service::env::{escaped, escaped_char, is_special, needs_quoting, quoted};
use crate::text::{byte_len, decimal_of, hex_digit, strs, views};
use crate::validate::{registry_rows, repository_rows, Status};

verus! {

/// One text between two others.
pub open spec fn between(a: Seq<char>, t: Seq<char>, b: Seq<char>) -> Seq<char> {
    a + t + b
}

/// Whether a text holds another.
pub open spec fn holds(s: Seq<char>, t: Seq<char>) -> bool {
    exists|a: Seq<char>, b: Seq<char>| s == #[trigger] between(a, t, b)
}

// ─── Values in quotation marks ─────────────────────────────────────────────

/// What a text in quotation marks stands for: a backslash makes a line break of
/// an `n`, and of any other character that character.
pub open spec fn unescaped(s: Seq<char>) -> Seq<char>
    decreases s.len(),
{
    if s.len() == 0 {
        seq![]
    } else if s[0] == '\\' && s.len() > 1 {
        seq![
            if s[1] == 'n' {
                '\n'
            } else {
                s[1]
            },
        ] + unescaped(s.skip(2))
    } else {
        seq![s[0]] + unescaped(s.skip(1))
    }
}

/// The first character is escaped first.
proof fn escaped_from_the_front(v: Seq<char>)
    requires
        v.len() > 0,
    ensures
        escaped(v) == escaped_char(v[0]) + escaped(v.skip(1)),
    decreases v.len(),
{
    let front = v.drop_last();
    if front.len() == 0 {
        assert(v.skip(1) =~= Seq::<char>::empty());
        assert(escaped(front) =~= Seq::<char>::empty());
        assert(escaped(v) =~= escaped_char(v[0]) + escaped(v.skip(1)));
    } else {
        escaped_from_the_front(front);
        assert(v.skip(1).drop_last() =~= front.skip(1));
        assert(escaped(v) =~= escaped_char(v[0]) + escaped(v.skip(1)));
    }
}

/// A value that was escaped stands for itself, takes one line, and holds no
/// quotation mark that could end it.
pub proof fn escaped_stands_for_the_value(v: Seq<char>)
    ensures
        unescaped(escaped(v)) == v,
        !escaped(v).contains('\n'),
        forall|i: int|
            0 <= i < escaped(v).len() && #[trigger] escaped(v)[i] == '"' ==> i > 0 && escaped(v)[i
                - 1] == '\\',
    decreases v.len(),
{
    if v.len() > 0 {
        let rest = v.skip(1);
        escaped_from_the_front(v);
        escaped_stands_for_the_value(rest);
        let head = escaped_char(v[0]);
        let all = escaped(v);
        assert(all.skip(head.len() as int) =~= escaped(rest));
        assert(unescaped(all) =~= seq![v[0]] + unescaped(escaped(rest)));
        assert(seq![v[0]] + rest =~= v);
        assert forall|i: int| 0 <= i < all.len() implies all[i] != '\n' by {
            if i >= head.len() {
                assert(all[i] == escaped(rest)[i - head.len()]);
                assert(escaped(rest).contains(escaped(rest)[i - head.len()]));
            }
        }
        assert forall|i: int| 0 <= i < all.len() && #[trigger] all[i] == '"' implies i > 0 && all[i
            - 1] == '\\' by {
            if i >= head.len() {
                let k = i - head.len();
                assert(escaped(rest)[k] == '"');
                assert(all[i - 1] == escaped(rest)[k - 1]);
            }
        }
    }
}

// ─── The template ──────────────────────────────────────────────────────────

/// The template names its type and its runtime; it builds and runs a repository
/// by the commands of the runtime, does not build an image, and does not run a
/// static site.
pub proof fn template_fits_the_source(
    deploy_type: &str,
    runtime: &str,
    source: &str,
    commands: (&'static str, &'static str),
    r: String,
)
    requires
        call_ensures(crate::llm::default_commands, (runtime,), commands),
        call_ensures(crate::llm::build_template, (deploy_type, runtime, source), r),
    ensures
        holds(r@, deploy_type@),
        holds(r@, runtime@),
        source@ != "registry"@ ==> holds(
            r@,
            "    \"build_command\": \""@ + commands.0@ + "\","@,
        ),
        source@ == "registry"@ ==> holds(
            r@,
            "    // \"build_command\": null,       // not used for registry-sourced deploys (image is pre-built)"@,
        ),
        deploy_type@ == "static"@ ==> holds(
            r@,
            "    // \"run_command\": null,         // not used for static deploys"@,
        ),
        deploy_type@ != "static"@ && source@ != "registry"@ ==> holds(
            r@,
            "    \"run_command\": \""@ + commands.1@ + "\","@,
        ),
        deploy_type@ != "static"@ && source@ == "registry"@ ==> holds(
            r@,
            "    // \"run_command\": null,         // not used for registry-sourced deploys (image entrypoint runs)"@,
        ),
        source@ == "registry"@ ==> holds(r@, TEMPLATE_REGISTRY@),
        source@ != "registry"@ ==> holds(r@, TEMPLATE_REPOSITORY@),
{
    let section = if source@ == "registry"@ {
        TEMPLATE_REGISTRY@
    } else {
        TEMPLATE_REPOSITORY@
    };
    let build = build_line(runtime@, source@);
    let run = run_line(deploy_type@, runtime@, source@);
    let a = TEMPLATE_DEPLOY_TYPE@;
    let b = a + deploy_type@ + TEMPLATE_RUNTIME@;
    let c = b + runtime@ + TEMPLATE_SOURCE@;
    let d = c + section + TEMPLATE_BUILD@;
    let e = d + build + TEMPLATE_RUN@;
    let z = TEMPLATE_END@;
    let y = TEMPLATE_RUN@ + run + z;
    let x = TEMPLATE_BUILD@ + build + y;
    let w = TEMPLATE_SOURCE@ + section + x;
    let v = TEMPLATE_RUNTIME@ + runtime@ + w;
    assert(r@ =~= between(a, deploy_type@, v));
    assert(r@ =~= between(b, runtime@, w));
    assert(r@ =~= between(c, section, x));
    assert(r@ =~= between(d, build, y));
    assert(r@ =~= between(e, run, z));
}

// ─── Passwords ─────────────────────────────────────────────────────────────

/// A password that would be lost is shown: as a member of an object, or in a
/// box on a line of its own above the last.
pub proof fn lost_password_is_shown(password: &str, name: &str, ctx: Ctx, r: Vec<String>)
    requires
        call_ensures(
            crate::databases::report_password_after_failure,
            (password, name, ctx),
            r,
        ),
    ensures
        ctx.json ==> r@.len() == 1 && holds(r@[0]@, "\"password\":"@ + json_text(password@)),
        !ctx.json ==> r@.len() == 7 && holds(r@[5]@, password@) && holds(r@[2]@, name@),
{
    let all = views(r@);
    assert(all.len() == r@.len());
    if ctx.json {
        reveal_strlit("{\"schema_version\":\"1\",\"password\":");
        reveal_strlit("{\"schema_version\":\"1\",");
        reveal_strlit("\"password\":");
        let end = ",\"password_generated\":true,\"note\":\"The create request failed, but the database may have been created. This password cannot be recovered.\"}"@;
        assert(all[0] == r@[0]@);
        assert(r@[0]@ =~= between(
            "{\"schema_version\":\"1\","@,
            "\"password\":"@ + json_text(password@),
            end,
        ));
    } else {
        assert(all[5] == r@[5]@ && all[2] == r@[2]@);
        let width = box_width(password@);
        let gap = padded(password@, width).skip(password@.len() as int);
        assert(r@[5]@ =~= between("│ "@, password@, gap + " │"@));
        let start = "been created. Check with 'partiri db list' — if '"@;
        let line = start + name@ + "'"@;
        let tail = padded(line, width).skip((start + name@).len() as int);
        assert(r@[2]@ =~= between("│ "@ + start, name@, tail + " │"@));
    }
}

// ─── Secrets, arguments, questions ─────────────────────────────────────────

/// Where there is no secret to link, the advice is to create one of the kind
/// that the service takes.
pub proof fn advice_names_the_kind(
    secrets: &Vec<WorkspaceSecret>,
    registry: bool,
    workspace: &str,
    r: Result<Vec<String>, (String, String)>,
)
    requires
        call_ensures(crate::service::token::token_choices, (secrets, registry, workspace), r),
    ensures
        r is Err <==> secrets@.len() == 0,
        r is Err && registry ==> r->Err_0.1@ == "Create one with 'partiri secrets create-"@
            + "registry"@ + "' first."@,
        r is Err && !registry ==> r->Err_0.1@ == "Create one with 'partiri secrets create-"@
            + "repository"@ + "' first."@,
        r is Err ==> holds(r->Err_0.0@, workspace@),
        r is Ok ==> r->Ok_0@.len() == secrets@.len() + 1,
{
    if r is Err {
        let kind = if registry {
            "registry"@
        } else {
            "repository"@
        };
        assert(r->Err_0.0@ =~= between(
            "No "@ + kind + " secrets found in workspace "@,
            workspace@,
            "."@,
        ));
    } else {
        assert(views(r->Ok_0@).len() == r->Ok_0@.len());
    }
}

/// Every argument is listed but a positional `help`.
pub proof fn arguments_are_listed(v: Seq<ArgInfo>, a: ArgInfo)
    requires
        v.contains(a),
        !(a.positional && a.name@ == "help"@),
    ensures
        listed_args(v).contains(JsonView::Obj(arg_members(a))),
{
    let keep = |x: ArgInfo| is_listed(x);
    let kept = v.filter(keep);
    v.filter_lemma(keep);
    let i = v.index_of(a);
    assert(keep(v[i]));
    assert(kept.contains(a));
    let k = kept.index_of(a);
    assert(listed_args(v)[k] == JsonView::Obj(arg_members(a)));
}

/// A positional `help` is not listed.
pub proof fn help_is_not_listed(a: ArgInfo)
    requires
        a.positional && a.name@ == "help"@,
    ensures
        listed_args(seq![a]).len() == 0,
{
    reveal(Seq::filter);
    let keep = |x: ArgInfo| is_listed(x);
    let s = seq![a];
    assert(s.drop_last() =~= Seq::<ArgInfo>::empty());
    assert(s.last() == a);
    assert(s.drop_last().filter(keep) =~= Seq::<ArgInfo>::empty());
    assert(s.filter(keep) =~= Seq::<ArgInfo>::empty());
}

/// A question asks what it is given to ask, and can be cancelled.
pub proof fn questions_can_be_cancelled(q: Question, id: i32, message: Seq<char>, choice: Seq<char>)
    requires
        is_question(q, id, message, choice),
    ensures
        q.id == id,
        q.message@ == message,
        q.choices@.len() == 2,
        q.choices@[0]@ == choice,
        q.choices@[1]@ == "Cancel"@,
{
    assert(strs(q.choices@).len() == q.choices@.len());
    assert(strs(q.choices@)[0] == q.choices@[0]@);
    assert(strs(q.choices@)[1] == q.choices@[1]@);
}

/// Completion is narrowed to the workspace of the file where it names one.
pub proof fn completion_is_of_the_workspace(c: PartiriConfig)
    ensures
        workspace_of(None) is None,
        c.fk_workspace@.len() == 0 ==> workspace_of(Some(c)) is None,
        c.fk_workspace@.len() > 0 ==> workspace_of(Some(c)) == Some(c.fk_workspace@),
{
}

// ─── Sources that cannot be reached ────────────────────────────────────────

/// A repository that cannot be reached fails with the reason, and with the
/// advice to link a token where none is linked.
pub proof fn unreachable_repositories(c: PartiriConfig, e: Failure)
    requires
        has_text(c.service.repository_url),
    ensures
        ({
            let rows = repository_rows(c, Err(e));
            let why = "not reachable: "@ + error_text(e@);
            &&& rows.len() == 1
            &&& rows[0].field == "remote.repository_url"@
            &&& rows[0].status == Status::Fail
            &&& c.service.fk_service_secret is Some ==> rows[0].message == why
            &&& c.service.fk_service_secret is None ==> rows[0].message == why
                + " — if this is a private repo, set fk_service_secret via 'partiri service token --secret <UUID>'."@
        }),
{
    reveal_strlit("");
    assert("not reachable: "@ + error_text(e@) + ""@ =~= "not reachable: "@ + error_text(e@));
}

/// A registry that cannot be reached fails with the reason, and with the advice
/// to link a token where none is linked.
pub proof fn unreachable_registries(c: PartiriConfig, e: Failure)
    requires
        has_text(c.service.registry_url),
    ensures
        ({
            let rows = registry_rows(c, Err(e));
            let why = "not reachable: "@ + error_text(e@);
            &&& rows.len() == 1
            &&& rows[0].field == "remote.registry_url"@
            &&& rows[0].status == Status::Fail
            &&& c.service.fk_service_secret is Some ==> rows[0].message == why
            &&& c.service.fk_service_secret is None ==> rows[0].message == why
                + " — if this image is private, set fk_service_secret via 'partiri service token --secret <UUID>'."@
        }),
{
    reveal_strlit("");
    assert("not reachable: "@ + error_text(e@) + ""@ =~= "not reachable: "@ + error_text(e@));
}

/// A value is put in quotation marks where it is empty or holds white space, a
/// sign that dotenv files give a meaning, or a line break.
pub proof fn values_that_are_quoted(v: Seq<char>)
    ensures
        needs_quoting(v) <==> v.len() == 0 || v.contains(' ') || v.contains('\t') || v.contains('#')
            || v.contains('"') || v.contains('\'') || v.contains('\\') || v.contains('=')
            || v.contains('\n'),
        !needs_quoting(v) ==> quoted(v) == v,
        needs_quoting(v) ==> quoted(v) == seq!['"'] + escaped(v) + seq!['"'],
{
    if needs_quoting(v) {
        if v.len() > 0 {
            let i = choose|i: int| 0 <= i < v.len() && is_special(#[trigger] v[i]);
            assert(v.contains(v[i]));
        }
        assert(quoted(v) =~= seq!['"'] + escaped(v) + seq!['"']);
    } else {
        assert forall|c: char| is_special(c) implies !v.contains(c) by {
            if v.contains(c) {
                assert(is_special(v[v.index_of(c)]));
            }
        }
        assert(is_special(' ') && is_special('\t') && is_special('#') && is_special('"'));
        assert(is_special('\'') && is_special('\\') && is_special('=') && is_special('\n'));
    }
}

/// The members of an argument are told apart.
pub proof fn argument_shapes()
    ensures
        "name"@.len() == 4 && "name"@[0] == 'n',
        "short"@.len() == 5,
        "long"@.len() == 4 && "long"@[0] == 'l',
        "required"@.len() == 8,
        "takes_value"@.len() == 11,
        "help"@.len() == 4 && "help"@[0] == 'h',
        "possible_values"@.len() == 15,
{
    reveal_strlit("name");
    reveal_strlit("short");
    reveal_strlit("long");
    reveal_strlit("required");
    reveal_strlit("takes_value");
    reveal_strlit("help");
    reveal_strlit("possible_values");
    assert("name"@.len() == 4);
    assert("short"@.len() == 5);
    assert("long"@.len() == 4);
    assert("required"@.len() == 8);
    assert("takes_value"@.len() == 11);
    assert("help"@.len() == 4);
    assert("possible_values"@.len() == 15);
}

/// An argument is described by its name, its letters, whether it is required
/// and takes a value, its help, and the values it may take where there are any.
pub proof fn argument_is_described(a: ArgInfo)
    ensures
        ({
            let j = JsonView::Obj(arg_members(a));
            &&& member_of(j, "name"@) == Some(JsonView::Str(a.name@))
            &&& member_of(j, "required"@) == Some(JsonView::Bool(a.required))
            &&& member_of(j, "takes_value"@) == Some(JsonView::Bool(a.takes_value))
            &&& member_of(j, "short"@) == match a.short {
                Some(x) => Some(JsonView::Str(x@)),
                None => None,
            }
            &&& member_of(j, "long"@) == match a.long {
                Some(x) => Some(JsonView::Str(x@)),
                None => None,
            }
            &&& member_of(j, "help"@) == match a.help {
                Some(x) => Some(JsonView::Str(x@)),
                None => None,
            }
            &&& member_of(j, "possible_values"@) == if a.takes_value && a.possible_values@.len()
                > 0 {
                Some(strings_view(views(a.possible_values@)))
            } else {
                None
            }
        }),
{
    argument_is_described_by(a, "name"@);
    argument_is_described_by(a, "required"@);
    argument_is_described_by(a, "takes_value"@);
    argument_is_described_by(a, "short"@);
    argument_is_described_by(a, "long"@);
    argument_is_described_by(a, "help"@);
    argument_is_described_by(a, "possible_values"@);
    argument_shapes();
}

/// One member of the description of an argument.
proof fn argument_is_described_by(a: ArgInfo, key: Seq<char>)
    ensures
        member_of(JsonView::Obj(arg_members(a)), key) == if key == "name"@ {
            Some(JsonView::Str(a.name@))
        } else if key == "short"@ && a.short is Some {
            Some(JsonView::Str(a.short->0@))
        } else if key == "long"@ && a.long is Some {
            Some(JsonView::Str(a.long->0@))
        } else if key == "required"@ {
            Some(JsonView::Bool(a.required))
        } else if key == "takes_value"@ {
            Some(JsonView::Bool(a.takes_value))
        } else if key == "help"@ && a.help is Some {
            Some(JsonView::Str(a.help->0@))
        } else if key == "possible_values"@ && a.takes_value && a.possible_values@.len() > 0 {
            Some(strings_view(views(a.possible_values@)))
        } else {
            None
        },
{
    argument_shapes();
    let m = Seq::<(Seq<char>, JsonView)>::empty();
    let p1 = seq![("name"@, JsonView::Str(a.name@))];
    let p2 = text_member("short"@, a.short);
    let p3 = text_member("long"@, a.long);
    let p4 = seq![
        ("required"@, JsonView::Bool(a.required)),
        ("takes_value"@, JsonView::Bool(a.takes_value)),
    ];
    let p5 = text_member("help"@, a.help);
    let p6 = if a.takes_value && a.possible_values@.len() > 0 {
        seq![("possible_values"@, strings_view(views(a.possible_values@)))]
    } else {
        m
    };
    assert(arg_members(a) =~= p1 + p2 + p3 + p4 + p5 + p6);
    lookup_concat(p1 + p2 + p3 + p4 + p5, p6, key);
    lookup_concat(p1 + p2 + p3 + p4, p5, key);
    lookup_concat(p1 + p2 + p3, p4, key);
    lookup_concat(p1 + p2, p3, key);
    lookup_concat(p1, p2, key);
    short_lookup(p1, key);
    short_lookup(p2, key);
    short_lookup(p3, key);
    short_lookup(p4, key);
    short_lookup(p5, key);
    short_lookup(p6, key);
}

/// What is looked up in at most two members.
proof fn short_lookup(m: Seq<(Seq<char>, JsonView)>, key: Seq<char>)
    requires
        m.len() <= 2,
    ensures
        member_of(JsonView::Obj(m), key) == if m.len() > 0 && m[0].0 == key {
            Some(m[0].1)
        } else if m.len() > 1 && m[1].0 == key {
            Some(m[1].1)
        } else {
            None
        },
{
    if m.len() > 0 && m[0].0 == key {
        first_member_is_found(m, key, 0);
    } else if m.len() > 1 && m[1].0 == key {
        first_member_is_found(m, key, 1);
    } else {
        absent_member_is_not_found(m, key);
    }
}

// ─── The editor ────────────────────────────────────────────────────────────

/// What is offered for a reference shows what it refers to.
pub proof fn entries_show_their_records(
    w: WorkspaceData,
    p: Project,
    x: Region,
    pod: Pod,
    kind: Seq<char>,
    s: WorkspaceSecret,
)
    ensures
        workspace_entry(w).id == w.workspace.id@ && workspace_entry(w).label == w.workspace.name@,
        w.workspace.email matches Some(e) ==> workspace_entry(w).detail == "workspace — "@ + e@,
        project_entry(w, p).id == p.id@ && project_entry(w, p).label == p.name@,
        project_entry(w, p).detail == "project ["@ + p.environment@ + "] in "@ + w.workspace.name@,
        region_entry(x).id == x.id@,
        x.label matches Some(l) ==> region_entry(x).label == l@,
        x.country_code is None ==> region_entry(x).detail == "region "@ + x.name@,
        x.country_code matches Some(c) && c@.len() > 0 ==> region_entry(x).detail == "region "@
            + x.name@ + " ("@ + x.country_code->0@ + ")"@,
        pod_entry(w, pod).id == pod.id@,
        pod.label matches Some(l) ==> pod_entry(w, pod).label == l@,
        secret_entry(kind, s).id == s.id@,
        s.name matches Some(n) ==> secret_entry(kind, s).label == n@,
        s.provider matches Some(n) ==> secret_entry(kind, s).detail == kind + " ("@ + n@ + ")"@,
{
}

/// A price is shown by the month, where it is known.
pub proof fn prices_are_by_the_month(p: Option<PriceText>)
    ensures
        p is None ==> price_suffix(p).len() == 0,
        p matches Some(t) ==> price_suffix(p) == ", €"@ + t.shown@ + "/mo"@,
{
    reveal_strlit("");
}

/// The keys that items are sorted by have four digits, the last of which spell
/// the place of the item.
pub proof fn sort_keys_have_four_digits(n: nat)
    requires
        n < 10000,
    ensures
        four_digits(n).len() == 4,
        decimal_of(n).len() <= 4,
        four_digits(n).skip(4 - decimal_of(n).len()) == decimal_of(n),
        forall|i: int| 0 <= i < 4 - decimal_of(n).len() ==> four_digits(n)[i] == '0',
{
    reveal_strlit("000");
    reveal_strlit("00");
    reveal_strlit("0");
    reveal_with_fuel(decimal_of, 5);
    assert(n / 10 < 1000 && n / 10 / 10 < 100 && n / 10 / 10 / 10 < 10);
    assert(n >= 10 ==> n / 10 >= 1);
    assert(n < 100 ==> n / 10 < 10);
    assert(n >= 100 ==> n / 10 >= 10);
    assert(n < 1000 ==> n / 10 / 10 < 10);
    assert(n >= 1000 ==> n / 10 / 10 >= 10);
    assert(four_digits(n).skip(4 - decimal_of(n).len()) =~= decimal_of(n));
}

/// An error is shown from where it starts, over at least a byte where it has no
/// extent of its own, and not beyond the text.
pub proof fn errors_are_shown_over_something(text: Seq<char>, span: Span)
    requires
        span.start < byte_len(text),
        span.end <= byte_len(text),
        byte_len(text) <= usize::MAX,
    ensures
        error_span(text, span).start == span.start,
        span.end > span.start ==> error_span(text, span).end == span.end,
        span.end <= span.start ==> error_span(text, span).end == span.start + 1,
{
}

// ─── JSON text ─────────────────────────────────────────────────────────────

/// The value of a hexadecimal digit.
pub open spec fn hex_worth(c: char) -> int {
    if '0' <= c <= '9' {
        c as int - 48
    } else {
        c as int - 87
    }
}

/// What the text between the quotation marks of a JSON string stands for.
pub open spec fn json_meaning(s: Seq<char>) -> Seq<char>
    decreases s.len(),
{
    if s.len() == 0 {
        seq![]
    } else if s[0] == '\\' && s.len() > 5 && s[1] == 'u' {
        seq![((hex_worth(s[4]) * 16 + hex_worth(s[5])) as u8) as char] + json_meaning(s.skip(6))
    } else if s[0] == '\\' && s.len() > 1 {
        seq![
            if s[1] == 'n' {
                '\n'
            } else if s[1] == 't' {
                '\t'
            } else if s[1] == 'r' {
                '\r'
            } else if s[1] == 'b' {
                '\u{8}'
            } else if s[1] == 'f' {
                '\u{c}'
            } else {
                s[1]
            },
        ] + json_meaning(s.skip(2))
    } else {
        seq![s[0]] + json_meaning(s.skip(1))
    }
}

/// The two digits of a control character spell its code.
proof fn control_reads_back(c: char)
    requires
        (c as int) < 32,
    ensures
        ({
            let x = hex_digit(c as nat / 16);
            let y = hex_digit(c as nat % 16);
            ((hex_worth(x) * 16 + hex_worth(y)) as u8) as char == c
        }),
{
    let n = c as nat;
    assert(n / 16 < 2 && n % 16 < 16);
    assert(hex_worth(hex_digit(n / 16)) == n / 16);
    assert(hex_worth(hex_digit(n % 16)) == n % 16);
    assert((n / 16) * 16 + n % 16 == n);
    assert(((n as u8) as char) as u32 == c as u32);
}

/// A text that was written as JSON stands for itself, and holds no control
/// character.
pub proof fn json_text_stands_for_the_text(s: Seq<char>)
    ensures
        json_meaning(json_chars(s)) == s,
        forall|i: int| 0 <= i < json_chars(s).len() ==> #[trigger] json_chars(s)[i] as int >= 32,
        json_text(s) == seq!['"'] + json_chars(s) + seq!['"'],
    decreases s.len(),
{
    if s.len() > 0 {
        let rest = s.drop_first();
        json_text_stands_for_the_text(rest);
        let head = json_char(s[0]);
        let all = json_chars(s);
        assert(all.skip(head.len() as int) =~= json_chars(rest));
        let c = s[0];
        if head.len() == 6 {
            control_reads_back(c);
            assert(all[0] == head[0] && all[1] == head[1] && all[4] == head[4] && all[5] == head[5]);
        } else if head.len() == 2 {
            assert(all[0] == head[0] && all[1] == head[1]);
        } else {
            assert(all[0] == head[0]);
        }
        assert(json_meaning(all) =~= seq![c] + json_meaning(json_chars(rest)));
        assert(seq![s[0]] + rest =~= s);
        assert forall|i: int| 0 <= i < all.len() implies #[trigger] all[i] as int >= 32 by {
            if i >= head.len() {
                assert(all[i] == json_chars(rest)[i - head.len()]);
            }
        }
    }
}

// ─── Hover over a name ─────────────────────────────────────────────────────

/// Over the name of a reference stands where its completions come from, and
/// over the name of another property without a list of values nothing but what
/// it is about.
pub proof fn hover_over_references(path: Seq<Seq<char>>, key: Seq<char>)
    requires
        described(path, key) is Some,
        described(path, key)->0.description.len() > 0,
        described(path, key)->0.enum_values.len() == 0,
    ensures
        key.len() >= 3 && key.take(3) == seq!['f', 'k', '_'] ==> name_text(path, key) == Some(
            described(path, key)->0.description + "\n\n"@
                + "Completions for this field come from the live workspace context (`partiri llm context`)."@,
        ),
        !(key.len() >= 3 && key.take(3) == seq!['f', 'k', '_']) ==> name_text(path, key) == Some(
            described(path, key)->0.description,
        ),
{
    reveal_strlit("fk_");
    assert("fk_"@ =~= seq!['f', 'k', '_']);
    if "fk_"@.is_prefix_of(key) {
        assert(key.take(3) =~= "fk_"@);
    } else if key.len() >= 3 {
        assert(key.subrange(0, 3) =~= key.take(3));
    }
}

} // verus!
