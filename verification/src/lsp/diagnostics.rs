//! Diagnostics of a document: the local pass on every edit (syntax, shape,
//! field checks and unknown keys), and the remote checks after a save.
use vstd::prelude::*;
use vstd::string::*;

use crate::config::{checks_of, outcomes, validate_config, PartiriConfig, ValidationView};
use crate::lsp::documents::{range_of, LineIndex, Position};
use crate::lsp::locate::{
    keys_at, keys_at_path, name_range_at, name_range_of_path, parse_ast, parsed_jsonc, range_at,
    range_of_path, Node, NodeView, Parsed, ParsedView, Span,
};
use crate::schema::{
    disk_rows, known_info, root_rows, service_rows, table_of, PropTable, SchemaIndex, TableView,
};
use crate::seqs::filter_take;
use crate::text::{
    byte_len, cat2, cat3, len_in_bytes, str_eq, strs, views,
};
use crate::validate::{rows_view, CheckRow, RowView, Status};

verus! {

/// The source of local diagnostics.
pub const SOURCE_LOCAL: &'static str = "partiri";

/// The source of diagnostics from the remote checks.
pub const SOURCE_REMOTE: &'static str = "partiri-remote";

#[derive(Debug, Clone, Copy, PartialEq, Eq, Structural)]
pub enum Severity {
    Error,
    Warning,
}

/// A finding in a document.
#[derive(Debug)]
pub struct Diagnostic {
    pub start: Position,
    pub end: Position,
    pub severity: Severity,
    pub source: &'static str,
    pub message: String,
}

pub ghost struct DiagView {
    pub range: (Position, Position),
    pub severity: Severity,
    pub source: Seq<char>,
    pub message: Seq<char>,
}

impl View for Diagnostic {
    type V = DiagView;

    open spec fn view(&self) -> DiagView {
        DiagView {
            range: (self.start, self.end),
            severity: self.severity,
            source: self.source@,
            message: self.message@,
        }
    }
}

pub open spec fn diags_view(v: Seq<Diagnostic>) -> Seq<DiagView> {
    v.map_values(|d: Diagnostic| d@)
}

/// The diagnostic on a stretch of a text.
pub open spec fn diag_view(
    text: Seq<char>,
    span: Span,
    severity: Severity,
    source: Seq<char>,
    message: Seq<char>,
) -> DiagView {
    DiagView {
        range: range_of(text, span.start as int, span.end as int),
        severity,
        source,
        message,
    }
}

fn diag(
    text: &str,
    idx: &LineIndex,
    span: Span,
    severity: Severity,
    source: &'static str,
    message: String,
) -> (r: Diagnostic)
    requires
        idx.wf(text@),
    ensures
        r@ == diag_view(text@, span, severity, source@, message@),
{
    let (start, end) = idx.range(text, span.start, span.end);
    Diagnostic { start, end, severity, source, message }
}

fn add_diag(v: &mut Vec<Diagnostic>, d: Diagnostic)
    ensures
        diags_view(final(v)@) == diags_view(old(v)@).push(d@),
{
    v.push(d);
    assert(diags_view(v@) =~= diags_view(old(v)@).push(d@));
}

/// A copy of some diagnostics.
pub(crate) fn copy_diags(v: &Vec<Diagnostic>) -> (r: Vec<Diagnostic>)
    ensures
        diags_view(r@) == diags_view(v@),
{
    let mut out: Vec<Diagnostic> = Vec::new();
    for i in 0..v.len()
        invariant
            out@.len() == i,
            forall|k: int| 0 <= k < i ==> (#[trigger] out@[k])@ == v@[k]@,
    {
        let d = &v[i];
        out.push(
            Diagnostic {
                start: d.start,
                end: d.end,
                severity: d.severity,
                source: d.source,
                message: d.message.clone(),
            },
        );
    }
    assert(diags_view(out@) =~= diags_view(v@));
    out
}

// ─── Anchors ───────────────────────────────────────────────────────────────

/// The paths that a checked field may stand at, the preferred one first.
pub open spec fn paths_for(field: Seq<char>) -> Seq<Seq<Seq<char>>> {
    if field == "name"@ || field == "name_length"@ || field == "remote.service_name"@ {
        seq![seq!["service"@, "name"@]]
    } else if field == "deploy_type"@ {
        seq![seq!["service"@, "deploy_type"@]]
    } else if field == "runtime"@ {
        seq![seq!["service"@, "runtime"@]]
    } else if field == "root_path"@ {
        seq![seq!["service"@, "root_path"@]]
    } else if field == "fk_region"@ || field == "remote.fk_region"@ {
        seq![seq!["service"@, "fk_region"@]]
    } else if field == "fk_pod"@ || field == "remote.fk_pod"@ {
        seq![seq!["service"@, "fk_pod"@]]
    } else if field == "remote.fk_workspace"@ || field == "remote.balance"@ {
        seq![seq!["fk_workspace"@]]
    } else if field == "remote.fk_project"@ {
        seq![seq!["fk_project"@]]
    } else if field == "source"@ {
        seq![seq!["service"@, "repository_url"@], seq!["service"@, "registry_url"@]]
    } else if field == "deploy_type/static"@ || field == "remote.registry_url"@ {
        seq![seq!["service"@, "registry_url"@]]
    } else if field == "remote.repository_url"@ {
        seq![seq!["service"@, "repository_url"@]]
    } else if field == "repository_branch"@ || field == "remote.repository_branch"@ {
        seq![seq!["service"@, "repository_branch"@]]
    } else if field == "build_command"@ {
        seq![seq!["service"@, "build_command"@]]
    } else if field == "run_command"@ {
        seq![seq!["service"@, "run_command"@]]
    } else if field == "remote.health_check_path"@ {
        seq![seq!["service"@, "health_check_path"@]]
    } else {
        seq![]
    }
}

/// What a list of paths says.
pub open spec fn paths_view(v: Seq<Vec<&'static str>>) -> Seq<Seq<Seq<char>>> {
    v.map_values(|p: Vec<&'static str>| strs(p@))
}

fn path_of(a: &'static str) -> (r: Vec<&'static str>)
    ensures
        strs(r@) == seq![a@],
{
    let mut v: Vec<&'static str> = Vec::new();
    v.push(a);
    assert(strs(v@) =~= seq![a@]);
    v
}

fn in_service(key: &'static str) -> (r: Vec<&'static str>)
    ensures
        strs(r@) == seq!["service"@, key@],
{
    let mut v: Vec<&'static str> = Vec::new();
    v.push("service");
    v.push(key);
    assert(strs(v@) =~= seq!["service"@, key@]);
    v
}

fn only(p: Vec<&'static str>) -> (r: Vec<Vec<&'static str>>)
    ensures
        paths_view(r@) == seq![strs(p@)],
{
    let mut v: Vec<Vec<&'static str>> = Vec::new();
    v.push(p);
    assert(paths_view(v@) =~= seq![strs(p@)]);
    v
}

/// The paths that a checked field may stand at.
pub fn field_paths(field: &str) -> (r: Vec<Vec<&'static str>>)
    ensures
        paths_view(r@) == paths_for(field@),
{
    if str_eq(field, "name") || str_eq(field, "name_length") || str_eq(
        field,
        "remote.service_name",
    ) {
        only(in_service("name"))
    } else if str_eq(field, "deploy_type") {
        only(in_service("deploy_type"))
    } else if str_eq(field, "runtime") {
        only(in_service("runtime"))
    } else if str_eq(field, "root_path") {
        only(in_service("root_path"))
    } else if str_eq(field, "fk_region") || str_eq(field, "remote.fk_region") {
        only(in_service("fk_region"))
    } else if str_eq(field, "fk_pod") || str_eq(field, "remote.fk_pod") {
        only(in_service("fk_pod"))
    } else if str_eq(field, "remote.fk_workspace") || str_eq(field, "remote.balance") {
        only(path_of("fk_workspace"))
    } else if str_eq(field, "remote.fk_project") {
        only(path_of("fk_project"))
    } else if str_eq(field, "source") {
        let mut v = only(in_service("repository_url"));
        let ghost first = paths_view(v@);
        let second = in_service("registry_url");
        v.push(second);
        assert(paths_view(v@) =~= first.push(strs(second@)));
        v
    } else if str_eq(field, "deploy_type/static") || str_eq(field, "remote.registry_url") {
        only(in_service("registry_url"))
    } else if str_eq(field, "remote.repository_url") {
        only(in_service("repository_url"))
    } else if str_eq(field, "repository_branch") || str_eq(field, "remote.repository_branch") {
        only(in_service("repository_branch"))
    } else if str_eq(field, "build_command") {
        only(in_service("build_command"))
    } else if str_eq(field, "run_command") {
        only(in_service("run_command"))
    } else if str_eq(field, "remote.health_check_path") {
        only(in_service("health_check_path"))
    } else {
        let v: Vec<Vec<&'static str>> = Vec::new();
        assert(paths_view(v@) =~= seq![]);
        v
    }
}

/// The value at the first of some paths that leads to one.
pub open spec fn first_range(paths: Seq<Seq<Seq<char>>>, n: NodeView, from: int) -> Option<Span>
    decreases paths.len() - from,
{
    if from >= paths.len() {
        None
    } else if range_at(n, paths[from]) is Some {
        range_at(n, paths[from])
    } else {
        first_range(paths, n, from + 1)
    }
}

/// Where a diagnostic on a field is shown: on its value, or else on the name
/// of the `service` block, or else at the start.
pub open spec fn anchor_of(field: Seq<char>, ast: Option<NodeView>) -> Span {
    let start = Span { start: 0, end: 0 };
    match ast {
        Some(n) => match first_range(paths_for(field), n, 0) {
            Some(s) => s,
            None => match name_range_at(n, seq!["service"@]) {
                Some(s) => s,
                None => start,
            },
        },
        None => start,
    }
}

/// Where a diagnostic on a field is shown.
pub fn anchor_range(field: &str, ast: Option<&Node>) -> (r: Span)
    ensures
        r == anchor_of(
            field@,
            match ast {
                Some(n) => Some(n@),
                None => None,
            },
        ),
{
    match ast {
        Some(root) => {
            let paths = field_paths(field);
            let ghost all = paths_for(field@);
            let mut i: usize = 0;
            while i < paths.len()
                invariant
                    i <= paths@.len(),
                    ast == Some(root),
                    all == paths_for(field@),
                    paths_view(paths@) == all,
                    first_range(all, root@, 0) == first_range(all, root@, i as int),
                decreases paths@.len() - i,
            {
                assert(all[i as int] == strs(paths@[i as int]@));
                match range_of_path(root, paths[i].as_slice()) {
                    Some(s) => {
                        return s;
                    },
                    None => {},
                }
                i += 1;
            }
            assert(all.len() == paths@.len());
            let service = path_of("service");
            match name_range_of_path(root, service.as_slice()) {
                Some(s) => s,
                None => Span { start: 0, end: 0 },
            }
        },
        None => Span { start: 0, end: 0 },
    }
}

// ─── The local pass ────────────────────────────────────────────────────────

/// The stretch of a syntax error: at least one byte, within the text.
pub open spec fn error_span(text: Seq<char>, span: Span) -> Span {
    let cap = if byte_len(text) > 1 {
        byte_len(text) as int
    } else {
        1
    };
    let end = if span.end > span.start {
        span.end as int
    } else {
        span.start + 1
    };
    Span {
        start: span.start,
        end: (if end > cap {
            cap
        } else {
            end
        }) as usize,
    }
}

fn widen(text: &str, span: Span) -> (r: Span)
    ensures
        r == error_span(text@, span),
{
    let n: usize = len_in_bytes(text);
    let cap: usize = if n > 1 {
        n
    } else {
        1
    };
    let end: usize = if span.end > span.start {
        if span.end > cap {
            cap
        } else {
            span.end
        }
    } else if span.start >= cap {
        cap
    } else {
        span.start + 1
    };
    Span { start: span.start, end }
}

/// The diagnostics of the field checks that fail.
pub open spec fn failing_checks(text: Seq<char>, n: NodeView, c: PartiriConfig) -> Seq<DiagView> {
    checks_of(c).filter(|v: ValidationView| !v.ok).map_values(
        |v: ValidationView|
            diag_view(
                text,
                anchor_of(v.field, Some(n)),
                Severity::Error,
                SOURCE_LOCAL@,
                v.message,
            ),
    )
}

/// What is said of a key that the schema does not know.
pub open spec fn unknown_message(path: Seq<Seq<char>>, key: Seq<char>) -> Seq<char> {
    if path == seq!["service"@] && key == "env"@ {
        "Environment variables are managed via 'partiri service env --path <.env>' and are never stored in .partiri.jsonc — this block is ignored and will be stripped on the next write."@
    } else {
        "Unknown field '"@ + key + "' — not part of the .partiri.jsonc schema."@
    }
}

pub open spec fn or_start(s: Option<Span>) -> Span {
    match s {
        Some(x) => x,
        None => Span { start: 0, end: 0 },
    }
}

pub open spec fn unknown_diag(text: Seq<char>, n: NodeView, path: Seq<Seq<char>>, key: Seq<char>) -> DiagView {
    diag_view(
        text,
        or_start(name_range_at(n, path.push(key))),
        Severity::Warning,
        SOURCE_LOCAL@,
        unknown_message(path, key),
    )
}

/// Whether a key is not among the properties.
pub open spec fn is_unknown(t: TableView) -> spec_fn(Seq<char>) -> bool {
    |key: Seq<char>| known_info(t, key) is None
}

/// The diagnostics of the unknown keys of the object at a path.
pub open spec fn unknown_keys(
    text: Seq<char>,
    n: NodeView,
    path: Seq<Seq<char>>,
    t: TableView,
) -> Seq<DiagView> {
    keys_at(n, path).filter(is_unknown(t)).map_values(
        |key: Seq<char>| unknown_diag(text, n, path, key),
    )
}

/// The diagnostics of a document, given what it parses to and the
/// configuration in it or why there is none.
pub open spec fn local_of(
    text: Seq<char>,
    parsed: ParsedView,
    config: Result<PartiriConfig, String>,
) -> Seq<DiagView> {
    match parsed {
        ParsedView::Error(span, kind) => seq![
            diag_view(
                text,
                error_span(text, span),
                Severity::Error,
                SOURCE_LOCAL@,
                "Syntax error: "@ + kind,
            ),
        ],
        ParsedView::Empty => seq![],
        ParsedView::Value(n) => match config {
            Err(e) => seq![
                diag_view(
                    text,
                    anchor_of(""@, Some(n)),
                    Severity::Error,
                    SOURCE_LOCAL@,
                    "Invalid .partiri.jsonc: "@ + e@,
                ),
            ],
            Ok(c) => failing_checks(text, n, c) + unknown_keys(
                text,
                n,
                seq![],
                table_of(root_rows()),
            ) + unknown_keys(text, n, seq!["service"@], table_of(service_rows())) + unknown_keys(
                text,
                n,
                seq!["service"@, "disk"@],
                table_of(disk_rows()),
            ),
        },
    }
}

fn failing_diags(text: &str, idx: &LineIndex, root: &Node, config: &PartiriConfig) -> (r: Vec<
    Diagnostic,
>)
    requires
        idx.wf(text@),
    ensures
        diags_view(r@) == failing_checks(text@, root@, *config),
{
    let results = validate_config(config);
    let ghost all = checks_of(*config);
    let ghost bad = |v: ValidationView| !v.ok;
    let ghost f = |v: ValidationView|
        diag_view(
            text@,
            anchor_of(v.field, Some(root@)),
            Severity::Error,
            SOURCE_LOCAL@,
            v.message,
        );
    let mut out: Vec<Diagnostic> = Vec::new();
    assert(all.take(0).filter(bad) =~= seq![]) by {
        reveal(Seq::filter);
    }
    assert(diags_view(out@) =~= all.take(0).filter(bad).map_values(f));
    for i in 0..results.len()
        invariant
            idx.wf(text@),
            all == checks_of(*config),
            outcomes(results@) == all,
            bad == (|v: ValidationView| !v.ok),
            f == (|v: ValidationView|
                diag_view(
                    text@,
                    anchor_of(v.field, Some(root@)),
                    Severity::Error,
                    SOURCE_LOCAL@,
                    v.message,
                )),
            diags_view(out@) == all.take(i as int).filter(bad).map_values(f),
    {
        let ghost before = all.take(i as int).filter(bad);
        proof {
            filter_take(all, i as int, bad);
            assert(all[i as int] == results@[i as int]@);
        }
        if !results[i].ok {
            let span = anchor_range(results[i].field.as_str(), Some(root));
            let d = diag(
                text,
                idx,
                span,
                Severity::Error,
                SOURCE_LOCAL,
                results[i].message.clone(),
            );
            add_diag(&mut out, d);
            assert(before.push(all[i as int]).map_values(f) =~= before.map_values(f).push(
                f(all[i as int]),
            ));
        }
    }
    assert(all.take(all.len() as int) =~= all);
    out
}

fn unknown_diags(text: &str, idx: &LineIndex, root: &Node, path: &Vec<&'static str>, t: &PropTable) -> (r:
    Vec<Diagnostic>)
    requires
        idx.wf(text@),
    ensures
        diags_view(r@) == unknown_keys(text@, root@, strs(path@), t@),
{
    let keys = keys_at_path(root, path.as_slice());
    let ghost p = strs(path@);
    let ghost all = keys_at(root@, p);
    let ghost unknown = is_unknown(t@);
    let ghost f = |key: Seq<char>| unknown_diag(text@, root@, p, key);
    let in_service_block = path.len() == 1 && str_eq(path[0], "service");
    proof {
        if path@.len() == 1 {
            assert(p[0] == path@[0]@);
            if path@[0]@ == "service"@ {
                assert(p =~= seq!["service"@]);
            }
        }
        if p == seq!["service"@] {
            assert(p[0] == "service"@);
            assert(path@.len() == p.len());
        }
    }
    let mut out: Vec<Diagnostic> = Vec::new();
    assert(all.take(0).filter(unknown) =~= seq![]) by {
        reveal(Seq::filter);
    }
    assert(diags_view(out@) =~= all.take(0).filter(unknown).map_values(f));
    for i in 0..keys.len()
        invariant
            idx.wf(text@),
            p == strs(path@),
            in_service_block == (p == seq!["service"@]),
            views(keys@) == all,
            unknown == is_unknown(t@),
            f == (|key: Seq<char>| unknown_diag(text@, root@, p, key)),
            diags_view(out@) == all.take(i as int).filter(unknown).map_values(f),
    {
        let ghost before = all.take(i as int).filter(unknown);
        let key = keys[i].as_str();
        proof {
            filter_take(all, i as int, unknown);
            assert(all[i as int] == key@);
        }
        if !t.contains_key(key) {
            let span = match name_at(root, path, key) {
                Some(s) => s,
                None => Span { start: 0, end: 0 },
            };
            let message = if in_service_block && str_eq(key, "env") {
                "Environment variables are managed via 'partiri service env --path <.env>' and are never stored in .partiri.jsonc — this block is ignored and will be stripped on the next write.".to_owned()
            } else {
                cat3("Unknown field '", key, "' — not part of the .partiri.jsonc schema.")
            };
            let d = diag(text, idx, span, Severity::Warning, SOURCE_LOCAL, message);
            add_diag(&mut out, d);
            assert(before.push(key@).map_values(f) =~= before.map_values(f).push(f(key@)));
        }
    }
    assert(all.take(all.len() as int) =~= all);
    out
}

/// Where the name of a property of the object at a path stands.
fn name_at<'a>(root: &Node, path: &Vec<&'a str>, key: &'a str) -> (r: Option<Span>)
    ensures
        r == name_range_at(root@, strs(path@).push(key@)),
{
    let mut full: Vec<&'a str> = Vec::new();
    for i in 0..path.len()
        invariant
            full@ == path@.take(i as int),
    {
        full.push(path[i]);
        assert(path@.take(i + 1) =~= path@.take(i as int).push(path@[i as int]));
    }
    assert(path@.take(path@.len() as int) =~= path@);
    full.push(key);
    assert(strs(full@) =~= strs(path@).push(key@));
    name_range_of_path(root, full.as_slice())
}

pub(crate) fn append_diags(out: &mut Vec<Diagnostic>, more: Vec<Diagnostic>)
    ensures
        diags_view(final(out)@) == diags_view(old(out)@) + diags_view(more@),
{
    let mut rest = more;
    let ghost before = diags_view(out@);
    let ghost added = diags_view(rest@);
    out.append(&mut rest);
    assert(diags_view(out@) =~= before + added);
}

/// The diagnostics of a document that was parsed. `config` is the
/// configuration in it, or why there is none.
pub fn diagnose(
    text: &str,
    parsed: &Parsed,
    config: &Result<PartiriConfig, String>,
    schema: &SchemaIndex,
) -> (r: Vec<Diagnostic>)
    requires
        schema.wf(),
    ensures
        diags_view(r@) == local_of(text@, parsed@, *config),
{
    let idx = LineIndex::new(text);
    let mut out: Vec<Diagnostic> = Vec::new();
    assert(diags_view(out@) =~= seq![]);
    match parsed {
        Parsed::Error(e) => {
            let d = diag(
                text,
                &idx,
                widen(text, e.span),
                Severity::Error,
                SOURCE_LOCAL,
                cat2("Syntax error: ", e.kind.as_str()),
            );
            add_diag(&mut out, d);
            assert(diags_view(out@) =~= local_of(text@, parsed@, *config));
            out
        },
        Parsed::Empty => out,
        Parsed::Value(root) => match config {
            Err(e) => {
                let d = diag(
                    text,
                    &idx,
                    anchor_range("", Some(root)),
                    Severity::Error,
                    SOURCE_LOCAL,
                    cat2("Invalid .partiri.jsonc: ", e.as_str()),
                );
                add_diag(&mut out, d);
                assert(diags_view(out@) =~= local_of(text@, parsed@, *config));
                out
            },
            Ok(c) => {
                let mut all = failing_diags(text, &idx, root, c);
                let top: Vec<&'static str> = Vec::new();
                assert(strs(top@) =~= seq![]);
                append_diags(&mut all, unknown_diags(text, &idx, root, &top, &schema.root));
                let service = path_of("service");
                append_diags(&mut all, unknown_diags(text, &idx, root, &service, &schema.service));
                let disk = in_service("disk");
                append_diags(&mut all, unknown_diags(text, &idx, root, &disk, &schema.disk));
                all
            },
        },
    }
}

/// The diagnostics of the local pass over a document.
pub fn local_diagnostics(
    text: &str,
    config: &Result<PartiriConfig, String>,
    schema: &SchemaIndex,
) -> (r: Vec<Diagnostic>)
    requires
        schema.wf(),
    ensures
        diags_view(r@) == local_of(text@, parsed_jsonc(text@), *config),
{
    let parsed = parse_ast(text);
    diagnose(text, &parsed, config, schema)
}

// ─── The remote pass ───────────────────────────────────────────────────────

pub open spec fn tree_of(parsed: ParsedView) -> Option<NodeView> {
    match parsed {
        ParsedView::Value(n) => Some(n),
        _ => None,
    }
}

pub open spec fn is_problem(r: RowView) -> bool {
    r.status != Status::Pass
}

/// The diagnostic of a remote check that did not pass.
pub open spec fn row_diag(text: Seq<char>, ast: Option<NodeView>, r: RowView) -> DiagView {
    diag_view(
        text,
        anchor_of(r.field, ast),
        if r.status == Status::Warn {
            Severity::Warning
        } else {
            Severity::Error
        },
        SOURCE_REMOTE@,
        r.message,
    )
}

/// The diagnostics of the remote checks.
pub open spec fn remote_of(rows: Seq<RowView>, text: Seq<char>, parsed: ParsedView) -> Seq<
    DiagView,
> {
    rows.filter(|r: RowView| is_problem(r)).map_values(
        |r: RowView| row_diag(text, tree_of(parsed), r),
    )
}

/// The diagnostics of the remote checks on a document that was parsed.
pub fn diagnose_remote(rows: &Vec<CheckRow>, text: &str, parsed: &Parsed) -> (r: Vec<Diagnostic>)
    ensures
        diags_view(r@) == remote_of(rows_view(rows@), text@, parsed@),
{
    let idx = LineIndex::new(text);
    let ast = match parsed {
        Parsed::Value(n) => Some(n),
        _ => None,
    };
    let ghost tree = tree_of(parsed@);
    let ghost all = rows_view(rows@);
    let ghost p = |r: RowView| is_problem(r);
    let ghost f = |r: RowView| row_diag(text@, tree, r);
    let mut out: Vec<Diagnostic> = Vec::new();
    assert(all.take(0).filter(p) =~= seq![]) by {
        reveal(Seq::filter);
    }
    assert(diags_view(out@) =~= all.take(0).filter(p).map_values(f));
    for i in 0..rows.len()
        invariant
            idx.wf(text@),
            tree == match ast {
                Some(n) => Some(n@),
                None => None,
            },
            all == rows_view(rows@),
            p == (|r: RowView| is_problem(r)),
            f == (|r: RowView| row_diag(text@, tree, r)),
            diags_view(out@) == all.take(i as int).filter(p).map_values(f),
    {
        let ghost before = all.take(i as int).filter(p);
        let row = &rows[i];
        proof {
            filter_take(all, i as int, p);
            assert(all[i as int] == row@);
        }
        let severity = match row.status {
            Status::Pass => None,
            Status::Warn => Some(Severity::Warning),
            Status::Fail => Some(Severity::Error),
        };
        match severity {
            Some(sev) => {
                let span = anchor_range(row.field.as_str(), ast);
                let d = diag(text, &idx, span, sev, SOURCE_REMOTE, row.message.clone());
                add_diag(&mut out, d);
                assert(before.push(row@).map_values(f) =~= before.map_values(f).push(f(row@)));
            },
            None => {},
        }
    }
    proof {
        assert(all.take(all.len() as int) =~= all);
        assert(f == (|r: RowView| row_diag(text@, tree_of(parsed@), r)));
    }
    out
}

/// The diagnostics of the remote checks on a document.
pub fn remote_diagnostics(rows: &Vec<CheckRow>, text: &str) -> (r: Vec<Diagnostic>)
    ensures
        diags_view(r@) == remote_of(rows_view(rows@), text@, parsed_jsonc(text@)),
{
    let parsed = parse_ast(text);
    diagnose_remote(rows, text, &parsed)
}

// ─── Laws ──────────────────────────────────────────────────────────────────

/// Every field that the local checks can report has a place in the document.
pub proof fn every_checked_field_has_a_path(c: PartiriConfig)
    ensures
        forall|i: int|
            0 <= i < checks_of(c).len() ==> paths_for((#[trigger] checks_of(c)[i]).field).len() > 0,
{
    let s = c.service;
    let b = crate::config::base_checks(s);
    let t = crate::config::static_checks(s);
    let h = crate::config::branch_checks(s);
    let m = crate::config::build_checks(s);
    let r = crate::config::run_checks(s);
    let all = checks_of(c);
    assert forall|i: int| 0 <= i < all.len() implies paths_for(
        (#[trigger] all[i]).field,
    ).len() > 0 by {
        if i < b.len() {
            assert(all[i] == b[i]);
        } else if i < b.len() + t.len() {
            assert(all[i] == t[i - b.len()]);
        } else if i < b.len() + t.len() + h.len() {
            assert(all[i] == h[i - b.len() - t.len()]);
        } else if i < b.len() + t.len() + h.len() + m.len() {
            assert(all[i] == m[i - b.len() - t.len() - h.len()]);
        } else {
            assert(all[i] == r[i - b.len() - t.len() - h.len() - m.len()]);
        }
    }
}

} // verus!
