//! Code actions: quickfixes for what the field checks report, and the commands
//! that the server runs.
use vstd::prelude::*;
use vstd::string::*;

use crate::config::{
    filled, has_registry, has_repo, is_filled, is_given, is_static_site, is_valid, static_site,
    valid_config_meaning, PartiriConfig, MAX_NAME_LEN,
};
use crate::jsonc::{json_str, json_text};
use crate::lsp::completion::opt_config;
use crate::lsp::diagnostics::tree_of;
use crate::lsp::documents::{
    byte_len_monotone, byte_len_step, chars_before, chars_before_range, floor_char, line_begin,
    line_begin_range, range_of, LineIndex, Position,
};
use crate::lsp::locate::{
    name_range_at, name_range_of_path, parse_ast, parsed_jsonc, range_at, range_of_path, Node,
    NodeView, Parsed, ParsedView,
};
use crate::text::{
    byte_len, chars_of, find_char, find_from, find_from_is_first, len_in_bytes, len_utf8,
    string_of, strs,
};

verus! {

pub const CMD_VALIDATE_REMOTE: &'static str = "partiri.validateRemote";

pub const CMD_DEPLOY: &'static str = "partiri.deploy";

pub const CMD_PULL: &'static str = "partiri.pull";

pub const CMD_REFRESH_CONTEXT: &'static str = "partiri.refreshContext";

/// What takes the place of a stretch of a document.
#[derive(Debug)]
pub struct TextEdit {
    pub start: Position,
    pub end: Position,
    pub new_text: String,
}

/// An action that is offered on a document.
#[derive(Debug)]
pub enum CodeAction {
    /// An edit.
    Fix { title: &'static str, edit: TextEdit },
    /// A command, to be called with the address of the document.
    Run { title: &'static str, command: &'static str },
}

pub ghost enum ActionView {
    Fix { title: Seq<char>, range: (Position, Position), new_text: Seq<char> },
    Run { title: Seq<char>, command: Seq<char> },
}

impl View for CodeAction {
    type V = ActionView;

    open spec fn view(&self) -> ActionView {
        match self {
            CodeAction::Fix { title, edit } => ActionView::Fix {
                title: title@,
                range: (edit.start, edit.end),
                new_text: edit.new_text@,
            },
            CodeAction::Run { title, command } => ActionView::Run {
                title: title@,
                command: command@,
            },
        }
    }
}

pub open spec fn actions_view(v: Seq<CodeAction>) -> Seq<ActionView> {
    v.map_values(|a: CodeAction| a@)
}

pub open spec fn fix(
    title: Seq<char>,
    text: Seq<char>,
    span: (int, int),
    new_text: Seq<char>,
) -> ActionView {
    ActionView::Fix { title, range: range_of(text, span.0, span.1), new_text }
}

// ─── Lines ─────────────────────────────────────────────────────────────────

/// Where the line that an offset is on ends: at its newline, or at the end of
/// the text. In characters.
pub open spec fn line_stop(s: Seq<char>, offset: int) -> int {
    find_from(s, '\n', chars_before(s, offset))
}

/// The line that an offset is on, with its newline, in bytes.
pub open spec fn line_span(s: Seq<char>, offset: int) -> (int, int) {
    let stop = line_stop(s, offset);
    (
        byte_len(s.take(line_begin(s, chars_before(s, offset)))) as int,
        byte_len(
            s.take(
                if stop < s.len() {
                    stop + 1
                } else {
                    s.len() as int
                },
            ),
        ) as int,
    )
}

/// Where the line that an offset is on ends, in bytes.
pub open spec fn line_tail(s: Seq<char>, offset: int) -> int {
    byte_len(s.take(line_stop(s, offset))) as int
}

/// How many bytes the first `k` characters take.
fn bytes_of(text: &str, cs: &Vec<char>, k: usize) -> (r: usize)
    requires
        cs@ == text@,
        k <= cs@.len(),
    ensures
        r == byte_len(text@.take(k as int)),
{
    let total: usize = len_in_bytes(text);
    let mut used: usize = 0;
    proof {
        assert(text@.take(0) =~= Seq::<char>::empty());
        assert(text@.take(text@.len() as int) =~= text@);
    }
    for i in 0..k
        invariant
            cs@ == text@,
            k <= cs@.len(),
            total == byte_len(text@),
            text@.take(text@.len() as int) == text@,
            used == byte_len(text@.take(i as int)),
    {
        proof {
            byte_len_step(text@, i as int);
            byte_len_monotone(text@, i + 1, text@.len() as int);
        }
        used += len_utf8(cs[i]);
    }
    used
}

/// The line that an offset is on, with its newline.
pub fn whole_line_range(text: &str, anchor: usize) -> (r: (usize, usize))
    ensures
        (r.0 as int, r.1 as int) == line_span(text@, anchor as int),
{
    let cs = chars_of(text);
    let (k, _) = floor_char(&cs, anchor);
    let mut b: usize = k;
    while b > 0 && cs[b - 1] != '\n'
        invariant
            b <= k,
            k <= cs@.len(),
            line_begin(cs@, k as int) == line_begin(cs@, b as int),
        decreases b,
    {
        b -= 1;
    }
    let stop: usize = find_char(&cs, '\n', k);
    let e: usize = if stop < cs.len() {
        stop + 1
    } else {
        cs.len()
    };
    (bytes_of(text, &cs, b), bytes_of(text, &cs, e))
}

/// Where the line that an offset is on ends.
pub fn end_of_line(text: &str, anchor: usize) -> (r: usize)
    ensures
        r as int == line_tail(text@, anchor as int),
{
    let cs = chars_of(text);
    let (k, _) = floor_char(&cs, anchor);
    let stop: usize = find_char(&cs, '\n', k);
    bytes_of(text, &cs, stop)
}

// ─── Quickfixes ────────────────────────────────────────────────────────────

/// Removing the line of a property.
pub open spec fn removal(text: Seq<char>, n: NodeView, key: Seq<char>, title: Seq<char>) -> Seq<
    ActionView,
> {
    match name_range_at(n, seq!["service"@, key]) {
        Some(span) => seq![fix(title, text, line_span(text, span.start as int), ""@)],
        None => seq![],
    }
}

/// A name, cut to the length that is allowed.
pub open spec fn cut_name(name: Seq<char>) -> Seq<char> {
    if name.len() > MAX_NAME_LEN {
        name.take(MAX_NAME_LEN as int)
    } else {
        name
    }
}

/// Shortening the name.
pub open spec fn truncation(text: Seq<char>, n: NodeView, name: Seq<char>) -> Seq<ActionView> {
    match range_at(n, seq!["service"@, "name"@]) {
        Some(span) => seq![
            fix(
                "Truncate name to 16 characters"@,
                text,
                (span.start as int, span.end as int),
                json_text(cut_name(name)),
            ),
        ],
        None => seq![],
    }
}

/// Adding a line for the build command, behind the root path or the name.
pub open spec fn addition(text: Seq<char>, n: NodeView) -> Seq<ActionView> {
    let anchor = match name_range_at(n, seq!["service"@, "root_path"@]) {
        Some(span) => Some(span),
        None => name_range_at(n, seq!["service"@, "name"@]),
    };
    match anchor {
        Some(span) => {
            let at = line_tail(text, span.start as int);
            seq![
                fix("Add \"build_command\""@, text, (at, at), "\n    \"build_command\": \"\","@),
            ]
        },
        None => seq![],
    }
}

/// The quickfixes on a document.
pub open spec fn fixes_of(text: Seq<char>, parsed: ParsedView, config: Option<PartiriConfig>) -> Seq<
    ActionView,
> {
    match (tree_of(parsed), config) {
        (Some(n), Some(c)) => {
            let svc = c.service;
            let none = Seq::<ActionView>::empty();
            let removals = if has_repo(svc) && has_registry(svc) {
                removal(
                    text,
                    n,
                    "registry_url"@,
                    "Remove registry_url (keep repository source)"@,
                ) + removal(
                    text,
                    n,
                    "repository_url"@,
                    "Remove repository_url (keep repository source)"@,
                )
            } else {
                none
            };
            let shorter = if svc.name@.len() > MAX_NAME_LEN {
                truncation(text, n, svc.name@)
            } else {
                none
            };
            let build = if has_repo(svc) && !is_static_site(svc) && !filled(svc.build_command) {
                addition(text, n)
            } else {
                none
            };
            removals + shorter + build
        },
        _ => seq![],
    }
}

fn path_to(key: &'static str) -> (r: Vec<&'static str>)
    ensures
        strs(r@) == seq!["service"@, key@],
{
    let mut v: Vec<&'static str> = Vec::new();
    v.push("service");
    v.push(key);
    assert(strs(v@) =~= seq!["service"@, key@]);
    v
}

fn one(
    text: &str,
    idx: &LineIndex,
    start: usize,
    end: usize,
    title: &'static str,
    new_text: String,
) -> (r: Vec<CodeAction>)
    requires
        idx.wf(text@),
    ensures
        actions_view(r@) == seq![fix(title@, text@, (start as int, end as int), new_text@)],
{
    let (from, to) = idx.range(text, start, end);
    let action = CodeAction::Fix { title, edit: TextEdit { start: from, end: to, new_text } };
    let mut out: Vec<CodeAction> = Vec::new();
    out.push(action);
    assert(actions_view(out@) =~= seq![action@]);
    out
}

fn nothing() -> (r: Vec<CodeAction>)
    ensures
        actions_view(r@) == Seq::<ActionView>::empty(),
{
    let out: Vec<CodeAction> = Vec::new();
    assert(actions_view(out@) =~= Seq::empty());
    out
}

fn add_all(out: &mut Vec<CodeAction>, more: Vec<CodeAction>)
    ensures
        actions_view(final(out)@) == actions_view(old(out)@) + actions_view(more@),
{
    let mut rest = more;
    let ghost before = actions_view(out@);
    let ghost added = actions_view(rest@);
    out.append(&mut rest);
    assert(actions_view(out@) =~= before + added);
}

fn remove_property_action(
    text: &str,
    idx: &LineIndex,
    root: &Node,
    key: &'static str,
    title: &'static str,
) -> (r: Vec<CodeAction>)
    requires
        idx.wf(text@),
    ensures
        actions_view(r@) == removal(text@, root@, key@, title@),
{
    let path = path_to(key);
    match name_range_of_path(root, path.as_slice()) {
        Some(span) => {
            let (start, end) = whole_line_range(text, span.start);
            one(text, idx, start, end, title, "".to_owned())
        },
        None => nothing(),
    }
}

/// A name, cut to the length that is allowed.
pub fn truncated_name(name: &str) -> (r: String)
    ensures
        r@ == cut_name(name@),
{
    let cs = chars_of(name);
    if cs.len() > MAX_NAME_LEN {
        let r = string_of(&cs, 0, MAX_NAME_LEN);
        assert(cs@.subrange(0, MAX_NAME_LEN as int) =~= name@.take(MAX_NAME_LEN as int));
        r
    } else {
        name.to_owned()
    }
}

fn truncate_name_action(text: &str, idx: &LineIndex, root: &Node, name: &str) -> (r: Vec<
    CodeAction,
>)
    requires
        idx.wf(text@),
    ensures
        actions_view(r@) == truncation(text@, root@, name@),
{
    let path = path_to("name");
    match range_of_path(root, path.as_slice()) {
        Some(span) => {
            let cut = truncated_name(name);
            one(
                text,
                idx,
                span.start,
                span.end,
                "Truncate name to 16 characters",
                json_str(cut.as_str()),
            )
        },
        None => nothing(),
    }
}

fn add_build_command_action(text: &str, idx: &LineIndex, root: &Node) -> (r: Vec<CodeAction>)
    requires
        idx.wf(text@),
    ensures
        actions_view(r@) == addition(text@, root@),
{
    let root_path = path_to("root_path");
    let name = path_to("name");
    let anchor = match name_range_of_path(root, root_path.as_slice()) {
        Some(span) => Some(span),
        None => name_range_of_path(root, name.as_slice()),
    };
    match anchor {
        Some(span) => {
            let at: usize = end_of_line(text, span.start);
            one(
                text,
                idx,
                at,
                at,
                "Add \"build_command\"",
                "\n    \"build_command\": \"\",".to_owned(),
            )
        },
        None => nothing(),
    }
}

/// The quickfixes on a document that was parsed. `config` is the
/// configuration in it, where there is one.
pub fn fixes(text: &str, parsed: &Parsed, config: Option<&PartiriConfig>) -> (r: Vec<CodeAction>)
    ensures
        actions_view(r@) == fixes_of(text@, parsed@, opt_config(config)),
{
    match (parsed, config) {
        (Parsed::Value(root), Some(c)) => {
            let idx = LineIndex::new(text);
            let svc = &c.service;
            let repo = is_given(&svc.repository_url);
            let registry = is_given(&svc.registry_url);
            let mut out = nothing();
            if repo && registry {
                add_all(
                    &mut out,
                    remove_property_action(
                        text,
                        &idx,
                        root,
                        "registry_url",
                        "Remove registry_url (keep repository source)",
                    ),
                );
                add_all(
                    &mut out,
                    remove_property_action(
                        text,
                        &idx,
                        root,
                        "repository_url",
                        "Remove repository_url (keep repository source)",
                    ),
                );
            }
            let ghost removals = actions_view(out@);
            if svc.name.as_str().unicode_len() > MAX_NAME_LEN {
                add_all(&mut out, truncate_name_action(text, &idx, root, svc.name.as_str()));
            }
            let ghost shorter = actions_view(out@);
            if repo && !static_site(svc) && !is_filled(&svc.build_command) {
                add_all(&mut out, add_build_command_action(text, &idx, root));
            }
            assert(actions_view(out@) =~= fixes_of(text@, parsed@, opt_config(config)));
            out
        },
        _ => nothing(),
    }
}

/// The quickfixes on a document.
pub fn quickfixes(text: &str, config: Option<&PartiriConfig>) -> (r: Vec<CodeAction>)
    ensures
        actions_view(r@) == fixes_of(text@, parsed_jsonc(text@), opt_config(config)),
{
    let parsed = parse_ast(text);
    fixes(text, &parsed, config)
}

/// The commands that are always offered.
pub open spec fn commands() -> Seq<ActionView> {
    seq![
        ActionView::Run {
            title: "Partiri: Validate remotely"@,
            command: CMD_VALIDATE_REMOTE@,
        },
        ActionView::Run { title: "Partiri: Deploy service"@, command: CMD_DEPLOY@ },
        ActionView::Run { title: "Partiri: Pull config from Partiri"@, command: CMD_PULL@ },
        ActionView::Run {
            title: "Partiri: Refresh completion data"@,
            command: CMD_REFRESH_CONTEXT@,
        },
    ]
}

/// The commands that are always offered.
pub fn command_actions() -> (r: Vec<CodeAction>)
    ensures
        actions_view(r@) == commands(),
{
    let mut out: Vec<CodeAction> = Vec::new();
    out.push(
        CodeAction::Run { title: "Partiri: Validate remotely", command: CMD_VALIDATE_REMOTE },
    );
    out.push(CodeAction::Run { title: "Partiri: Deploy service", command: CMD_DEPLOY });
    out.push(CodeAction::Run { title: "Partiri: Pull config from Partiri", command: CMD_PULL });
    out.push(
        CodeAction::Run {
            title: "Partiri: Refresh completion data",
            command: CMD_REFRESH_CONTEXT,
        },
    );
    assert(actions_view(out@) =~= commands());
    out
}

/// The actions on a document: its quickfixes, then the commands.
pub fn code_actions(text: &str, config: Option<&PartiriConfig>) -> (r: Vec<CodeAction>)
    ensures
        actions_view(r@) == fixes_of(text@, parsed_jsonc(text@), opt_config(config)) + commands(),
{
    let mut out = quickfixes(text, config);
    add_all(&mut out, command_actions());
    out
}

// ─── Laws ──────────────────────────────────────────────────────────────────

/// A valid configuration gets no quickfix.
pub proof fn valid_config_needs_no_fix(text: Seq<char>, parsed: ParsedView, c: PartiriConfig)
    requires
        is_valid(c),
    ensures
        fixes_of(text, parsed, Some(c)) == Seq::<ActionView>::empty(),
{
    valid_config_meaning(c);
    assert(fixes_of(text, parsed, Some(c)) =~= Seq::<ActionView>::empty());
}

/// A name that was cut is short enough and the start of the name, and one that
/// is short enough stays.
pub proof fn cut_names_fit(name: Seq<char>)
    ensures
        cut_name(name).len() <= MAX_NAME_LEN,
        cut_name(name).is_prefix_of(name),
        name.len() <= MAX_NAME_LEN ==> cut_name(name) == name,
{
}

/// The line that is removed starts behind a newline or at the start of the
/// text, holds the offset, and holds no newline but its last character.
pub proof fn removed_line_is_one_line(s: Seq<char>, offset: int)
    requires
        0 <= offset <= byte_len(s),
    ensures
        ({
            let (start, end) = line_span(s, offset);
            exists|a: int, b: int|
                {
                    &&& 0 <= a <= b <= s.len()
                    &&& start == byte_len(#[trigger] s.take(a))
                    &&& end == byte_len(#[trigger] s.take(b))
                    &&& a == 0 || s[a - 1] == '\n'
                    &&& b == s.len() || (b > a && s[b - 1] == '\n')
                    &&& forall|j: int| a <= j < b - 1 ==> s[j] != '\n'
                    &&& start <= offset <= end
                }
        }),
{
    let k = chars_before(s, offset);
    chars_before_range(s, offset);
    line_begin_range(s, k);
    find_from_is_first(s, '\n', k);
    let a = line_begin(s, k);
    let stop = line_stop(s, offset);
    let b = if stop < s.len() {
        stop + 1
    } else {
        s.len() as int
    };
    byte_len_monotone(s, a, k);
    if k < s.len() {
        byte_len_monotone(s, k + 1, if b > k {
            b
        } else {
            k + 1
        });
    }
    assert(s.take(s.len() as int) =~= s);
    let (start, end) = line_span(s, offset);
    assert(start == byte_len(s.take(a)) && end == byte_len(s.take(b)));
}

} // verus!
