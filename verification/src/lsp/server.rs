//! The decisions of the server: what a request, a notification, a command or a
//! reply leads to. The caller reads and writes the messages, runs the API
//! calls, and parses configurations.
use vstd::prelude::*;
use vstd::string::*;

use crate::config::PartiriConfig;
use crate::error::{error_text, Failure};
use crate::lsp::actions::{
    actions_view, code_actions, commands, fixes_of, CodeAction, CMD_DEPLOY, CMD_PULL,
    CMD_REFRESH_CONTEXT, CMD_VALIDATE_REMOTE,
};
use crate::lsp::completion::{completions, completions_of, items_view, opt_config, CompletionItem};
use crate::lsp::context_cache::{is_stale, ContextCache};
use crate::lsp::diagnostics::{
    copy_diags, diags_view, is_problem, local_diagnostics, local_of, remote_diagnostics, remote_of,
    Diagnostic,
};
use crate::lsp::documents::{offset_of, DocState, DocView, LineIndex, Position};
use crate::lsp::hover::{hover, hover_of, opt_hover, Hover};
use crate::lsp::locate::parsed_jsonc;
use crate::schema::SchemaIndex;
use crate::seqs::filter_take;
use crate::text::{cat2, cat3, decimal, decimal_of, opt_str_view, opt_view, str_eq, strs};
use crate::validate::{rows_view, CheckRow, RowView, Status};

verus! {

/// How long after a remote validation a save starts no other, in milliseconds.
pub const THROTTLE_MILLIS: u64 = 5_000;

// ─── Options and capabilities ──────────────────────────────────────────────

#[derive(Debug, Clone, Copy, PartialEq, Eq, Structural)]
pub enum RemoteValidation {
    Off,
    OnSave,
}

/// What the client asks for when it starts the server.
#[derive(Debug, Clone, Copy, PartialEq, Eq, Structural)]
pub struct InitOptions {
    pub enable_code_actions: bool,
    pub remote_validation: RemoteValidation,
}

impl Default for InitOptions {
    fn default() -> (r: Self)
        ensures
            r == (InitOptions {
                enable_code_actions: false,
                remote_validation: RemoteValidation::OnSave,
            }),
    {
        InitOptions { enable_code_actions: false, remote_validation: RemoteValidation::OnSave }
    }
}

/// What the server can do. Documents are always sent whole.
#[derive(Debug)]
pub struct Capabilities {
    pub trigger_characters: Vec<&'static str>,
    pub hover: bool,
    pub commands: Vec<&'static str>,
    pub code_actions: bool,
}

/// What the server can do; code actions only where they are asked for.
pub fn server_capabilities(opts: &InitOptions) -> (r: Capabilities)
    ensures
        strs(r.trigger_characters@) == seq![":"@, "\""@],
        r.hover,
        strs(r.commands@) == seq![
            CMD_VALIDATE_REMOTE@,
            CMD_DEPLOY@,
            CMD_PULL@,
            CMD_REFRESH_CONTEXT@,
        ],
        r.code_actions == opts.enable_code_actions,
{
    let mut trigger_characters: Vec<&'static str> = Vec::new();
    trigger_characters.push(":");
    trigger_characters.push("\"");
    assert(strs(trigger_characters@) =~= seq![":"@, "\""@]);
    let mut commands: Vec<&'static str> = Vec::new();
    commands.push(CMD_VALIDATE_REMOTE);
    commands.push(CMD_DEPLOY);
    commands.push(CMD_PULL);
    commands.push(CMD_REFRESH_CONTEXT);
    assert(strs(commands@) =~= seq![
        CMD_VALIDATE_REMOTE@,
        CMD_DEPLOY@,
        CMD_PULL@,
        CMD_REFRESH_CONTEXT@,
    ]);
    Capabilities {
        trigger_characters,
        hover: true,
        commands,
        code_actions: opts.enable_code_actions,
    }
}

// ─── Dispatch ──────────────────────────────────────────────────────────────

/// Which request a method names.
#[derive(Debug)]
pub enum RequestKind {
    Completion,
    Hover,
    CodeAction,
    ExecuteCommand,
    /// One that the server does not have, and the error message for it.
    Unknown(String),
}

pub open spec fn is_request(r: RequestKind, method: Seq<char>) -> bool {
    if method == "textDocument/completion"@ {
        r is Completion
    } else if method == "textDocument/hover"@ {
        r is Hover
    } else if method == "textDocument/codeAction"@ {
        r is CodeAction
    } else if method == "workspace/executeCommand"@ {
        r is ExecuteCommand
    } else {
        r is Unknown && r->Unknown_0@ == "method not found: "@ + method
    }
}

/// Which request a method names.
pub fn request_kind(method: &str) -> (r: RequestKind)
    ensures
        is_request(r, method@),
{
    if str_eq(method, "textDocument/completion") {
        RequestKind::Completion
    } else if str_eq(method, "textDocument/hover") {
        RequestKind::Hover
    } else if str_eq(method, "textDocument/codeAction") {
        RequestKind::CodeAction
    } else if str_eq(method, "workspace/executeCommand") {
        RequestKind::ExecuteCommand
    } else {
        RequestKind::Unknown(cat2("method not found: ", method))
    }
}

/// Which notification a method names.
#[derive(Debug, Clone, Copy, PartialEq, Eq, Structural)]
pub enum NoteKind {
    DidOpen,
    DidChange,
    DidSave,
    DidClose,
    Other,
}

pub open spec fn note_of(method: Seq<char>) -> NoteKind {
    if method == "textDocument/didOpen"@ {
        NoteKind::DidOpen
    } else if method == "textDocument/didChange"@ {
        NoteKind::DidChange
    } else if method == "textDocument/didSave"@ {
        NoteKind::DidSave
    } else if method == "textDocument/didClose"@ {
        NoteKind::DidClose
    } else {
        NoteKind::Other
    }
}

/// Which notification a method names.
pub fn note_kind(method: &str) -> (r: NoteKind)
    ensures
        r == note_of(method@),
{
    if str_eq(method, "textDocument/didOpen") {
        NoteKind::DidOpen
    } else if str_eq(method, "textDocument/didChange") {
        NoteKind::DidChange
    } else if str_eq(method, "textDocument/didSave") {
        NoteKind::DidSave
    } else if str_eq(method, "textDocument/didClose") {
        NoteKind::DidClose
    } else {
        NoteKind::Other
    }
}

/// What a command leads to. All but one need the document that they are for.
#[derive(Debug)]
pub enum CommandPlan {
    RefreshContext,
    ValidateRemote(String),
    Deploy(String),
    Pull(String),
    Nothing,
}

pub open spec fn is_plan(r: CommandPlan, command: Seq<char>, uri: Option<String>) -> bool {
    if command == CMD_REFRESH_CONTEXT@ {
        r is RefreshContext
    } else {
        match uri {
            Some(u) => if command == CMD_VALIDATE_REMOTE@ {
                r == CommandPlan::ValidateRemote(u)
            } else if command == CMD_DEPLOY@ {
                r == CommandPlan::Deploy(u)
            } else if command == CMD_PULL@ {
                r == CommandPlan::Pull(u)
            } else {
                r is Nothing
            },
            None => r is Nothing,
        }
    }
}

/// What a command leads to.
pub fn on_execute_command(command: &str, uri: Option<String>) -> (r: CommandPlan)
    ensures
        is_plan(r, command@, uri),
{
    if str_eq(command, CMD_REFRESH_CONTEXT) {
        return CommandPlan::RefreshContext;
    }
    match uri {
        Some(u) => if str_eq(command, CMD_VALIDATE_REMOTE) {
            CommandPlan::ValidateRemote(u)
        } else if str_eq(command, CMD_DEPLOY) {
            CommandPlan::Deploy(u)
        } else if str_eq(command, CMD_PULL) {
            CommandPlan::Pull(u)
        } else {
            CommandPlan::Nothing
        },
        None => CommandPlan::Nothing,
    }
}

// ─── Messages ──────────────────────────────────────────────────────────────

#[derive(Debug, Clone, Copy, PartialEq, Eq, Structural)]
pub enum Level {
    Error,
    Info,
}

/// A message to show.
#[derive(Debug)]
pub struct Notice {
    pub level: Level,
    pub text: String,
}

pub ghost struct NoticeView {
    pub level: Level,
    pub text: Seq<char>,
}

impl View for Notice {
    type V = NoticeView;

    open spec fn view(&self) -> NoticeView {
        NoticeView { level: self.level, text: self.text@ }
    }
}

fn notice(level: Level, text: String) -> (r: Notice)
    ensures
        r@ == (NoticeView { level, text: text@ }),
{
    Notice { level, text }
}

/// The message of a refresh that was asked for.
pub fn cmd_refresh_context() -> (r: Notice)
    ensures
        r@ == (NoticeView { level: Level::Info, text: "Refreshing Partiri context…"@ }),
{
    notice(Level::Info, "Refreshing Partiri context…".to_owned())
}

/// The message of a deployment that ended.
pub fn deploy_notice(name: &str, outcome: &Result<(), Failure>) -> (r: Notice)
    ensures
        r@ == match outcome {
            Ok(_) => NoticeView {
                level: Level::Info,
                text: "Deploy job created for '"@ + name@ + "'."@,
            },
            Err(e) => NoticeView {
                level: Level::Error,
                text: "Deploy failed: "@ + error_text(e@),
            },
        },
{
    match outcome {
        Ok(_) => notice(Level::Info, cat3("Deploy job created for '", name, "'.")),
        Err(e) => {
            let why = e.to_text();
            notice(Level::Error, cat2("Deploy failed: ", why.as_str()))
        },
    }
}

/// The message of a pull that ended.
pub fn pull_notice(path: &str, outcome: &Result<(), Failure>) -> (r: Notice)
    ensures
        r@ == match outcome {
            Ok(_) => NoticeView { level: Level::Info, text: path@ + " pulled from Partiri."@ },
            Err(e) => NoticeView {
                level: Level::Error,
                text: "Pull failed: "@ + error_text(e@),
            },
        },
{
    match outcome {
        Ok(_) => notice(Level::Info, cat2(path, " pulled from Partiri.")),
        Err(e) => {
            let why = e.to_text();
            notice(Level::Error, cat2("Pull failed: ", why.as_str()))
        },
    }
}

/// How many of some checks did not pass.
pub open spec fn problems_in(rows: Seq<RowView>) -> nat {
    rows.filter(|r: RowView| is_problem(r)).len()
}

/// The message of a remote validation that was asked for.
pub fn remote_notice(rows: &Vec<CheckRow>) -> (r: Notice)
    ensures
        r@ == (NoticeView {
            level: Level::Info,
            text: if problems_in(rows_view(rows@)) == 0 {
                "Remote validation: all checks passed"@
            } else {
                "Remote validation: "@ + decimal_of(problems_in(rows_view(rows@)))
                    + " problem(s)"@
            },
        }),
{
    let ghost all = rows_view(rows@);
    let ghost p = |r: RowView| is_problem(r);
    let mut problems: usize = 0;
    assert(all.take(0).filter(p) =~= seq![]) by {
        reveal(Seq::filter);
    }
    for i in 0..rows.len()
        invariant
            all == rows_view(rows@),
            p == (|r: RowView| is_problem(r)),
            problems <= i,
            problems == all.take(i as int).filter(p).len(),
    {
        proof {
            filter_take(all, i as int, p);
            assert(all[i as int] == rows@[i as int]@);
        }
        if !matches!(rows[i].status, Status::Pass) {
            problems += 1;
        }
    }
    assert(all.take(all.len() as int) =~= all);
    if problems == 0 {
        notice(Level::Info, "Remote validation: all checks passed".to_owned())
    } else {
        let n = decimal(problems as u64);
        notice(Level::Info, cat3("Remote validation: ", n.as_str(), " problem(s)"))
    }
}

// ─── The state ─────────────────────────────────────────────────────────────

/// What a confirmed question leads to.
#[derive(Debug)]
pub enum PendingAction {
    Deploy { service_id: String, name: String },
    Pull { service_id: String, path: String, fk_workspace: String, fk_project: String },
}

/// The choice that confirms an action.
pub open spec fn confirming(a: PendingAction) -> Seq<char> {
    match a {
        PendingAction::Deploy { .. } => "Deploy"@,
        PendingAction::Pull { .. } => "Pull"@,
    }
}

/// An action that waits for the reply to a question.
#[derive(Debug)]
pub struct Pending {
    pub id: i32,
    pub action: PendingAction,
}

/// An open document.
#[derive(Debug)]
pub struct OpenDoc {
    pub uri: String,
    pub doc: DocState,
}

/// The first document at or after `from` with an address, or their number.
pub open spec fn doc_index(docs: Seq<OpenDoc>, uri: Seq<char>, from: int) -> int
    decreases docs.len() - from,
{
    if from >= docs.len() {
        docs.len() as int
    } else if docs[from].uri@ == uri {
        from
    } else {
        doc_index(docs, uri, from + 1)
    }
}

proof fn doc_index_range(docs: Seq<OpenDoc>, uri: Seq<char>, from: int)
    requires
        0 <= from <= docs.len(),
    ensures
        from <= doc_index(docs, uri, from) <= docs.len(),
        doc_index(docs, uri, from) < docs.len() ==> docs[doc_index(docs, uri, from)].uri@ == uri,
        forall|k: int| from <= k < doc_index(docs, uri, from) ==> (#[trigger] docs[k]).uri@ != uri,
    decreases docs.len() - from,
{
    if from < docs.len() && docs[from].uri@ != uri {
        doc_index_range(docs, uri, from + 1);
    }
}

/// The index is the first place with the address.
proof fn doc_index_is(docs: Seq<OpenDoc>, uri: Seq<char>, at: int)
    requires
        0 <= at <= docs.len(),
        at < docs.len() ==> docs[at].uri@ == uri,
        forall|k: int| 0 <= k < at ==> (#[trigger] docs[k]).uri@ != uri,
    ensures
        doc_index(docs, uri, 0) == at,
{
    doc_index_range(docs, uri, 0);
    let found = doc_index(docs, uri, 0);
    if found < at {
        assert(docs[found].uri@ == uri);
    }
    if at < found {
        assert(docs[at].uri@ != uri);
    }
}

/// What is known of a document, where it is open.
pub open spec fn doc_at(docs: Seq<OpenDoc>, uri: Seq<char>) -> Option<DocView> {
    if doc_index(docs, uri, 0) < docs.len() {
        Some(docs[doc_index(docs, uri, 0)].doc@)
    } else {
        None
    }
}

/// The waiting action with an id.
pub open spec fn pending_at(v: Seq<Pending>, id: i32, from: int) -> Option<PendingAction>
    decreases v.len() - from,
{
    if from >= v.len() {
        None
    } else if v[from].id == id {
        Some(v[from].action)
    } else {
        pending_at(v, id, from + 1)
    }
}

/// The state of the server.
#[derive(Debug)]
pub struct Server {
    pub docs: Vec<OpenDoc>,
    pub cache: ContextCache,
    pub schema: SchemaIndex,
    pub opts: InitOptions,
    pub pending: Vec<Pending>,
    pub next_req_id: i32,
    /// When the last remote validation was started, in milliseconds.
    pub last_remote_run: Option<u64>,
}

/// Everything but the documents is the same.
pub open spec fn same_but_docs(a: Server, b: Server) -> bool {
    &&& a.cache == b.cache
    &&& a.schema == b.schema
    &&& a.opts == b.opts
    &&& a.pending == b.pending
    &&& a.next_req_id == b.next_req_id
    &&& a.last_remote_run == b.last_remote_run
}

/// No document changed, but for those with an address.
pub open spec fn same_docs_but(a: Seq<OpenDoc>, b: Seq<OpenDoc>, uri: Seq<char>) -> bool {
    forall|u: Seq<char>| u != uri ==> #[trigger] doc_at(a, u) == doc_at(b, u)
}

/// What a question asks, and its two choices.
#[derive(Debug)]
pub struct Question {
    pub id: i32,
    pub message: String,
    pub choices: Vec<&'static str>,
}

/// What a command leads to: a message, or a question whose reply decides.
#[derive(Debug)]
pub enum CommandStep {
    Say(Notice),
    Ask(Question),
}

/// The first choice of a question confirms the action that waits for it.
pub open spec fn is_question(q: Question, id: i32, message: Seq<char>, choice: Seq<char>) -> bool {
    &&& q.id == id
    &&& q.message@ == message
    &&& strs(q.choices@) == seq![choice, "Cancel"@]
}

/// What a command that needs a created service says where there is none.
pub open spec fn missing_service(config: Option<PartiriConfig>) -> Option<Seq<char>> {
    match config {
        None => Some("Could not read the config file."@),
        Some(c) => if c.id is None {
            Some("Service not created yet — run 'partiri service create'."@)
        } else {
            None
        },
    }
}

fn ask(id: i32, message: String, choice: &'static str) -> (r: CommandStep)
    ensures
        r is Ask,
        is_question(r->Ask_0, id, message@, choice@),
{
    let mut choices: Vec<&'static str> = Vec::new();
    choices.push(choice);
    choices.push("Cancel");
    assert(strs(choices@) =~= seq![choice@, "Cancel"@]);
    CommandStep::Ask(Question { id, message, choices })
}

/// The configuration of a document: what the editor holds, where that can be
/// read, and otherwise what the file holds.
pub fn load_config_for(
    buffer: Option<Result<PartiriConfig, String>>,
    file: Option<PartiriConfig>,
) -> (r: Option<PartiriConfig>)
    ensures
        r == match buffer {
            Some(Ok(c)) => Some(c),
            _ => file,
        },
{
    match buffer {
        Some(Ok(c)) => Some(c),
        _ => file,
    }
}

impl Server {
    /// The index is the schema's, and every action waits under an id of its
    /// own, among those that were handed out.
    pub open spec fn wf(&self) -> bool {
        &&& self.schema.wf()
        &&& self.next_req_id <= 0
        &&& forall|i: int|
            0 <= i < self.pending@.len() ==> self.next_req_id <= (#[trigger] self.pending@[i]).id
                < 0
        &&& forall|i: int, j: int|
            0 <= i < j < self.pending@.len() ==> (#[trigger] self.pending@[i]).id != (
            #[trigger] self.pending@[j]).id
    }

    /// A server with no document open. Its first refresh has been started.
    pub fn new(opts: InitOptions) -> (r: Server)
        ensures
            r.wf(),
            r.docs@.len() == 0,
            r.pending@.len() == 0,
            r.next_req_id == 0,
            r.last_remote_run is None,
            r.opts == opts,
            r.cache.data is None,
            r.cache.fetched is None,
            r.cache.refreshing,
    {
        let mut cache = ContextCache::new();
        cache.begin_refresh();
        Server {
            docs: Vec::new(),
            cache,
            schema: SchemaIndex::build(),
            opts,
            pending: Vec::new(),
            next_req_id: 0,
            last_remote_run: None,
        }
    }

    fn find_doc(&self, uri: &str) -> (r: usize)
        ensures
            r as int == doc_index(self.docs@, uri@, 0),
            r <= self.docs@.len(),
    {
        let mut i: usize = 0;
        while i < self.docs.len() && !str_eq(self.docs[i].uri.as_str(), uri)
            invariant
                i <= self.docs@.len(),
                doc_index(self.docs@, uri@, 0) == doc_index(self.docs@, uri@, i as int),
            decreases self.docs@.len() - i,
        {
            i += 1;
        }
        i
    }

    /// The text of a document, where it is open.
    pub fn doc_text(&self, uri: &str) -> (r: Option<String>)
        ensures
            opt_view(r) == match doc_at(self.docs@, uri@) {
                Some(d) => Some(d.text),
                None => None,
            },
    {
        let i: usize = self.find_doc(uri);
        if i < self.docs.len() {
            Some(self.docs[i].doc.text.clone())
        } else {
            None
        }
    }

    // ─── Requests ───────────────────────────────────────────────────────────

    /// The completions at a position of a document, and whether the context is
    /// due to be refreshed. `config` is the configuration in the document.
    pub fn on_completion(
        &self,
        uri: &str,
        position: Position,
        config: Option<&PartiriConfig>,
        now: u64,
    ) -> (r: (Vec<CompletionItem>, bool))
        requires
            self.wf(),
        ensures
            match doc_at(self.docs@, uri@) {
                Some(d) => {
                    &&& items_view(r.0@) == completions_of(
                        d.text,
                        parsed_jsonc(d.text),
                        offset_of(d.text, position),
                        opt_config(config),
                        self.cache.data,
                    )
                    &&& r.1 == is_stale(self.cache.fetched, now)
                },
                None => r.0@.len() == 0 && !r.1,
            },
    {
        let i: usize = self.find_doc(uri);
        if i < self.docs.len() {
            let text = self.docs[i].doc.text.as_str();
            let offset: usize = LineIndex::new(text).offset(text, position);
            let (context, stale) = self.cache.snapshot(now);
            (completions(text, offset, &self.schema, config, context), stale)
        } else {
            (Vec::new(), false)
        }
    }

    /// What is shown at a position of a document, and whether the context is
    /// due to be refreshed.
    pub fn on_hover(&self, uri: &str, position: Position, now: u64) -> (r: (Option<Hover>, bool))
        requires
            self.wf(),
        ensures
            match doc_at(self.docs@, uri@) {
                Some(d) => {
                    &&& opt_hover(r.0) == hover_of(
                        d.text,
                        parsed_jsonc(d.text),
                        offset_of(d.text, position),
                        self.cache.data,
                    )
                    &&& r.1 == is_stale(self.cache.fetched, now)
                },
                None => r.0 is None && !r.1,
            },
    {
        let i: usize = self.find_doc(uri);
        if i < self.docs.len() {
            let text = self.docs[i].doc.text.as_str();
            let offset: usize = LineIndex::new(text).offset(text, position);
            let (context, stale) = self.cache.snapshot(now);
            (hover(text, offset, &self.schema, context), stale)
        } else {
            (None, false)
        }
    }

    /// The actions on a document; none where they were not asked for.
    pub fn on_code_action(&self, uri: &str, config: Option<&PartiriConfig>) -> (r: Vec<CodeAction>)
        ensures
            match doc_at(self.docs@, uri@) {
                Some(d) => if self.opts.enable_code_actions {
                    actions_view(r@) == fixes_of(d.text, parsed_jsonc(d.text), opt_config(config))
                        + commands()
                } else {
                    r@.len() == 0
                },
                None => r@.len() == 0,
            },
    {
        let i: usize = self.find_doc(uri);
        if self.opts.enable_code_actions && i < self.docs.len() {
            code_actions(self.docs[i].doc.text.as_str(), config)
        } else {
            Vec::new()
        }
    }

    // ─── Documents ──────────────────────────────────────────────────────────

    /// Takes in the text of a document that was opened or changed, and gives
    /// the diagnostics to publish. Remote findings on the text before are
    /// dropped. `config` is the configuration in the text, or why there is
    /// none.
    pub fn update_doc_text(
        &mut self,
        uri: &str,
        text: String,
        config: &Result<PartiriConfig, String>,
    ) -> (r: Vec<Diagnostic>)
        requires
            old(self).wf(),
        ensures
            final(self).wf(),
            diags_view(r@) == local_of(text@, parsed_jsonc(text@), *config),
            doc_at(final(self).docs@, uri@) == Some(
                DocView {
                    text: text@,
                    local: local_of(text@, parsed_jsonc(text@), *config),
                    remote: seq![],
                },
            ),
            same_docs_but(final(self).docs@, old(self).docs@, uri@),
            same_but_docs(*final(self), *old(self)),
    {
        let local = local_diagnostics(text.as_str(), config, &self.schema);
        let out = copy_diags(&local);
        let none: Vec<Diagnostic> = Vec::new();
        assert(diags_view(none@) =~= seq![]);
        let entry = OpenDoc {
            uri: uri.to_owned(),
            doc: DocState { text, local_diags: local, remote_diags: none },
        };
        let i: usize = self.find_doc(uri);
        let ghost before = self.docs@;
        proof {
            doc_index_range(before, uri@, 0);
        }
        if i < self.docs.len() {
            self.docs.set(i, entry);
        } else {
            self.docs.push(entry);
        }
        proof {
            let after = self.docs@;
            doc_index_is(after, uri@, i as int);
            assert forall|u: Seq<char>| u != uri@ implies #[trigger] doc_at(after, u) == doc_at(
                before,
                u,
            ) by {
                doc_index_range(before, u, 0);
                let at = doc_index(before, u, 0);
                if at < before.len() {
                    doc_index_is(after, u, at);
                } else {
                    doc_index_is(after, u, after.len() as int);
                }
            }
        }
        out
    }

    /// Forgets a document that was closed. An empty list of diagnostics is to
    /// be published.
    pub fn close_doc(&mut self, uri: &str)
        requires
            old(self).wf(),
        ensures
            final(self).wf(),
            doc_at(final(self).docs@, uri@) is None,
            same_docs_but(final(self).docs@, old(self).docs@, uri@),
            same_but_docs(*final(self), *old(self)),
    {
        let ghost start = self.docs@;
        let ghost entry = *self;
        let mut i: usize = self.find_doc(uri);
        proof {
            doc_index_range(self.docs@, uri@, 0);
        }
        while i < self.docs.len()
            invariant
                i <= self.docs@.len(),
                i as int == doc_index(self.docs@, uri@, 0),
                self.wf(),
                same_but_docs(*self, entry),
                same_docs_but(self.docs@, start, uri@),
            decreases self.docs@.len(),
        {
            let ghost before = self.docs@;
            let _gone = self.docs.remove(i);
            proof {
                doc_index_range(before, uri@, 0);
                let after = self.docs@;
                assert forall|u: Seq<char>| u != uri@ implies #[trigger] doc_at(after, u)
                    == doc_at(before, u) by {
                    doc_index_range(before, u, 0);
                    let at = doc_index(before, u, 0);
                    if at < before.len() {
                        let moved = if at > i {
                            at - 1
                        } else {
                            at
                        };
                        assert forall|k: int| 0 <= k < moved implies (#[trigger] after[k]).uri@
                            != u by {
                            assert(after[k] == if k < i {
                                before[k]
                            } else {
                                before[k + 1]
                            });
                        }
                        doc_index_is(after, u, moved);
                    } else {
                        assert forall|k: int| 0 <= k < after.len() implies (
                        #[trigger] after[k]).uri@ != u by {
                            assert(after[k] == if k < i {
                                before[k]
                            } else {
                                before[k + 1]
                            });
                        }
                        doc_index_is(after, u, after.len() as int);
                    }
                }
            }
            i = self.find_doc(uri);
        }
    }

    // ─── Remote validation ──────────────────────────────────────────────────

    /// Whether a remote validation may start: one that was asked for always
    /// may, and one after a save only some time after the last.
    pub open spec fn may_validate(&self, bypass_throttle: bool, now: u64) -> bool {
        bypass_throttle || match self.last_remote_run {
            Some(t) => now - t >= THROTTLE_MILLIS,
            None => true,
        }
    }

    /// Starts a remote validation, and gives the text to validate.
    pub fn trigger_remote_validation(&mut self, uri: &str, bypass_throttle: bool, now: u64) -> (r:
        Option<String>)
        requires
            old(self).wf(),
        ensures
            final(self).wf(),
            final(self).docs == old(self).docs,
            final(self).cache == old(self).cache,
            final(self).schema == old(self).schema,
            final(self).opts == old(self).opts,
            final(self).pending == old(self).pending,
            final(self).next_req_id == old(self).next_req_id,
            if old(self).may_validate(bypass_throttle, now) {
                &&& final(self).last_remote_run == Some(now)
                &&& opt_view(r) == match doc_at(old(self).docs@, uri@) {
                    Some(d) => Some(d.text),
                    None => None,
                }
            } else {
                &&& final(self).last_remote_run == old(self).last_remote_run
                &&& r is None
            },
    {
        if !bypass_throttle {
            match self.last_remote_run {
                Some(t) => if now < t || now - t < THROTTLE_MILLIS {
                    return None;
                },
                None => {},
            }
        }
        self.last_remote_run = Some(now);
        self.doc_text(uri)
    }

    /// Starts a remote validation after a save, where the client wants it.
    pub fn maybe_remote_validate(&mut self, uri: &str, now: u64) -> (r: Option<String>)
        requires
            old(self).wf(),
        ensures
            final(self).wf(),
            final(self).docs == old(self).docs,
            final(self).cache == old(self).cache,
            final(self).schema == old(self).schema,
            final(self).opts == old(self).opts,
            final(self).pending == old(self).pending,
            final(self).next_req_id == old(self).next_req_id,
            if old(self).opts.remote_validation == RemoteValidation::OnSave && old(
                self,
            ).may_validate(false, now) {
                &&& final(self).last_remote_run == Some(now)
                &&& opt_view(r) == match doc_at(old(self).docs@, uri@) {
                    Some(d) => Some(d.text),
                    None => None,
                }
            } else {
                &&& final(self).last_remote_run == old(self).last_remote_run
                &&& r is None
            },
    {
        if self.opts.remote_validation == RemoteValidation::OnSave {
            self.trigger_remote_validation(uri, false, now)
        } else {
            None
        }
    }

    /// Takes in the outcome of the remote checks on a text, and gives the
    /// diagnostics to publish. Where the document changed in the meantime or
    /// was closed, the outcome is dropped.
    pub fn apply_remote(&mut self, uri: &str, text: &str, rows: &Vec<CheckRow>) -> (r: Option<
        Vec<Diagnostic>,
    >)
        requires
            old(self).wf(),
        ensures
            final(self).wf(),
            same_but_docs(*final(self), *old(self)),
            same_docs_but(final(self).docs@, old(self).docs@, uri@),
            match doc_at(old(self).docs@, uri@) {
                Some(d) => if d.text == text@ {
                    let remote = remote_of(rows_view(rows@), text@, parsed_jsonc(text@));
                    &&& r is Some
                    &&& diags_view(r->0@) == d.local + remote
                    &&& doc_at(final(self).docs@, uri@) == Some(DocView { remote, ..d })
                } else {
                    r is None && *final(self) == *old(self)
                },
                None => r is None && *final(self) == *old(self),
            },
    {
        let i: usize = self.find_doc(uri);
        if i >= self.docs.len() || !str_eq(self.docs[i].doc.text.as_str(), text) {
            return None;
        }
        let ghost before = self.docs@;
        let remote = remote_diagnostics(rows, text);
        let doc = &self.docs[i].doc;
        let entry = OpenDoc {
            uri: uri.to_owned(),
            doc: DocState {
                text: text.to_owned(),
                local_diags: copy_diags(&doc.local_diags),
                remote_diags: remote,
            },
        };
        let merged = entry.doc.merged_diags();
        self.docs.set(i, entry);
        proof {
            let after = self.docs@;
            doc_index_range(before, uri@, 0);
            doc_index_is(after, uri@, i as int);
            assert forall|u: Seq<char>| u != uri@ implies #[trigger] doc_at(after, u) == doc_at(
                before,
                u,
            ) by {
                doc_index_range(before, u, 0);
                doc_index_is(after, u, doc_index(before, u, 0));
            }
        }
        Some(merged)
    }

    // ─── Questions ──────────────────────────────────────────────────────────

    /// Hands out an id and has an action wait under it.
    fn wait_for_reply(&mut self, action: PendingAction) -> (r: i32)
        requires
            old(self).wf(),
            old(self).next_req_id > i32::MIN,
        ensures
            final(self).wf(),
            r == old(self).next_req_id - 1,
            final(self).next_req_id == r,
            final(self).pending@ == old(self).pending@.push(Pending { id: r, action }),
            final(self).docs == old(self).docs,
            final(self).cache == old(self).cache,
            final(self).schema == old(self).schema,
            final(self).opts == old(self).opts,
            final(self).last_remote_run == old(self).last_remote_run,
    {
        let id: i32 = self.next_req_id - 1;
        self.next_req_id = id;
        self.pending.push(Pending { id, action });
        id
    }

    /// Asks before a deployment.
    pub fn cmd_deploy(&mut self, config: Option<PartiriConfig>) -> (r: CommandStep)
        requires
            old(self).wf(),
            old(self).next_req_id > i32::MIN,
        ensures
            final(self).wf(),
            match missing_service(config) {
                Some(why) => {
                    &&& *final(self) == *old(self)
                    &&& r is Say
                    &&& r->Say_0@ == (NoticeView { level: Level::Error, text: why })
                },
                None => {
                    &&& r is Ask
                    &&& is_question(
                        r->Ask_0,
                        (old(self).next_req_id - 1) as i32,
                        "Deploy service '"@ + config->0.service.name@
                            + "'? This restarts the service."@,
                        "Deploy"@,
                    )
                    &&& final(self).next_req_id == old(self).next_req_id - 1
                    &&& final(self).pending@.len() == old(self).pending@.len() + 1
                    &&& final(self).pending@.drop_last() == old(self).pending@
                    &&& final(self).pending@.last().id == final(self).next_req_id
                    &&& final(self).pending@.last().action matches PendingAction::Deploy {
                        service_id,
                        name,
                    } && service_id@ == config->0.id->0@ && name@ == config->0.service.name@
                    &&& final(self).docs == old(self).docs
                    &&& final(self).cache == old(self).cache
                    &&& final(self).schema == old(self).schema
                    &&& final(self).opts == old(self).opts
                    &&& final(self).last_remote_run == old(self).last_remote_run
                },
            },
    {
        let config = match config {
            Some(c) => c,
            None => {
                return CommandStep::Say(
                    notice(Level::Error, "Could not read the config file.".to_owned()),
                );
            },
        };
        let service_id = match config.id {
            Some(id) => id,
            None => {
                return CommandStep::Say(
                    notice(
                        Level::Error,
                        "Service not created yet — run 'partiri service create'.".to_owned(),
                    ),
                );
            },
        };
        let name = config.service.name;
        let message = cat3("Deploy service '", name.as_str(), "'? This restarts the service.");
        let ghost before = self.pending@;
        let id: i32 = self.wait_for_reply(PendingAction::Deploy { service_id, name });
        assert(self.pending@.drop_last() =~= before);
        ask(id, message, "Deploy")
    }

    /// Asks before the file is overwritten. `path` is where the document is,
    /// where its address names a file.
    pub fn cmd_pull(&mut self, config: Option<PartiriConfig>, path: Option<String>) -> (r: CommandStep)
        requires
            old(self).wf(),
            old(self).next_req_id > i32::MIN,
        ensures
            final(self).wf(),
            ({
                let problem = match missing_service(config) {
                    Some(why) => Some(why),
                    None => if path is None {
                        Some("Invalid document URI."@)
                    } else {
                        None
                    },
                };
                match problem {
                    Some(why) => {
                        &&& *final(self) == *old(self)
                        &&& r is Say
                        &&& r->Say_0@ == (NoticeView { level: Level::Error, text: why })
                    },
                    None => {
                        &&& r is Ask
                        &&& is_question(
                            r->Ask_0,
                            (old(self).next_req_id - 1) as i32,
                            "Overwrite "@ + path->0@ + " with the deployed configuration?"@,
                            "Pull"@,
                        )
                        &&& final(self).next_req_id == old(self).next_req_id - 1
                        &&& final(self).pending@.len() == old(self).pending@.len() + 1
                        &&& final(self).pending@.drop_last() == old(self).pending@
                        &&& final(self).pending@.last().id == final(self).next_req_id
                        &&& final(self).pending@.last().action matches PendingAction::Pull {
                            service_id,
                            path: at,
                            fk_workspace,
                            fk_project,
                        } && service_id@ == config->0.id->0@ && at@ == path->0@ && fk_workspace@
                            == config->0.fk_workspace@ && fk_project@ == config->0.fk_project@
                        &&& final(self).docs == old(self).docs
                        &&& final(self).cache == old(self).cache
                        &&& final(self).schema == old(self).schema
                        &&& final(self).opts == old(self).opts
                        &&& final(self).last_remote_run == old(self).last_remote_run
                    },
                }
            }),
    {
        let config = match config {
            Some(c) => c,
            None => {
                return CommandStep::Say(
                    notice(Level::Error, "Could not read the config file.".to_owned()),
                );
            },
        };
        let service_id = match config.id {
            Some(id) => id,
            None => {
                return CommandStep::Say(
                    notice(
                        Level::Error,
                        "Service not created yet — run 'partiri service create'.".to_owned(),
                    ),
                );
            },
        };
        let path = match path {
            Some(p) => p,
            None => {
                return CommandStep::Say(
                    notice(Level::Error, "Invalid document URI.".to_owned()),
                );
            },
        };
        let message = cat3("Overwrite ", path.as_str(), " with the deployed configuration?");
        let ghost before = self.pending@;
        let id: i32 = self.wait_for_reply(
            PendingAction::Pull {
                service_id,
                path,
                fk_workspace: config.fk_workspace,
                fk_project: config.fk_project,
            },
        );
        assert(self.pending@.drop_last() =~= before);
        ask(id, message, "Pull")
    }

    /// Takes in the reply to a question: the action that waited for it no
    /// longer waits, and comes back where the reply confirms it.
    pub fn handle_response(&mut self, id: i32, selected: Option<&str>) -> (r: Option<PendingAction>)
        requires
            old(self).wf(),
        ensures
            final(self).wf(),
            pending_at(final(self).pending@, id, 0) is None,
            forall|other: i32|
                other != id ==> #[trigger] pending_at(final(self).pending@, other, 0)
                    == pending_at(old(self).pending@, other, 0),
            r == match (pending_at(old(self).pending@, id, 0), opt_str_view(selected)) {
                (Some(action), Some(choice)) => if choice == confirming(action) {
                    Some(action)
                } else {
                    None
                },
                _ => None,
            },
            final(self).docs == old(self).docs,
            final(self).cache == old(self).cache,
            final(self).schema == old(self).schema,
            final(self).opts == old(self).opts,
            final(self).next_req_id == old(self).next_req_id,
            final(self).last_remote_run == old(self).last_remote_run,
    {
        let ghost before = self.pending@;
        let mut i: usize = 0;
        while i < self.pending.len() && self.pending[i].id != id
            invariant
                i <= self.pending@.len(),
                self.pending@ == before,
                forall|k: int| 0 <= k < i ==> (#[trigger] before[k]).id != id,
            decreases self.pending@.len() - i,
        {
            i += 1;
        }
        if i >= self.pending.len() {
            proof {
                pending_is_none(before, id, 0);
            }
            return None;
        }
        let taken = self.pending.remove(i);
        proof {
            let after = self.pending@;
            assert forall|k: int| 0 <= k < after.len() implies (#[trigger] after[k]).id != id by {
                assert(after[k] == if k < i {
                    before[k]
                } else {
                    before[k + 1]
                });
            }
            pending_is_none(after, id, 0);
            pending_is(before, i as int, 0);
            assert(after =~= before.take(i as int) + before.skip(i + 1));
            assert forall|other: i32| other != id implies #[trigger] pending_at(after, other, 0)
                == pending_at(before, other, 0) by {
                pending_without(before, i as int, other, 0);
            }
            assert forall|a: int, b: int| 0 <= a < b < after.len() implies (
            #[trigger] after[a]).id != (#[trigger] after[b]).id by {
                assert(after[a] == if a < i {
                    before[a]
                } else {
                    before[a + 1]
                });
                assert(after[b] == if b < i {
                    before[b]
                } else {
                    before[b + 1]
                });
            }
            assert forall|a: int| 0 <= a < after.len() implies self.next_req_id <= (
            #[trigger] after[a]).id < 0 by {
                assert(after[a] == if a < i {
                    before[a]
                } else {
                    before[a + 1]
                });
            }
        }
        let choice = match selected {
            Some(s) => s,
            None => {
                return None;
            },
        };
        let confirmed = match &taken.action {
            PendingAction::Deploy { .. } => str_eq(choice, "Deploy"),
            PendingAction::Pull { .. } => str_eq(choice, "Pull"),
        };
        if confirmed {
            Some(taken.action)
        } else {
            None
        }
    }
}

proof fn pending_is_none(v: Seq<Pending>, id: i32, from: int)
    requires
        0 <= from <= v.len(),
        forall|k: int| from <= k < v.len() ==> (#[trigger] v[k]).id != id,
    ensures
        pending_at(v, id, from) is None,
    decreases v.len() - from,
{
    if from < v.len() {
        pending_is_none(v, id, from + 1);
    }
}

proof fn pending_is(v: Seq<Pending>, at: int, from: int)
    requires
        0 <= from <= at < v.len(),
        forall|k: int| from <= k < at ==> (#[trigger] v[k]).id != v[at].id,
    ensures
        pending_at(v, v[at].id, from) == Some(v[at].action),
    decreases at - from,
{
    if from < at {
        pending_is(v, at, from + 1);
    }
}

/// Taking out one entry leaves what waits under the other ids.
proof fn pending_without(v: Seq<Pending>, at: int, id: i32, from: int)
    requires
        0 <= from <= v.len(),
        0 <= at < v.len(),
        v[at].id != id,
    ensures
        pending_at(
            v.take(at) + v.skip(at + 1),
            id,
            if from > at {
                from - 1
            } else {
                from
            },
        ) == pending_at(v, id, from),
    decreases v.len() - from,
{
    let w = v.take(at) + v.skip(at + 1);
    if from < v.len() {
        pending_without(v, at, id, from + 1);
        if from < at {
            assert(w[from] == v[from]);
        } else if from > at {
            assert(w[from - 1] == v[from]);
        }
    }
}

// ─── Laws ──────────────────────────────────────────────────────────────────

/// The choice that cancels confirms no action.
pub proof fn cancel_confirms_nothing(action: PendingAction)
    ensures
        confirming(action) != "Cancel"@,
{
    reveal_strlit("Cancel");
    reveal_strlit("Deploy");
    reveal_strlit("Pull");
    assert("Cancel"@[0] == 'C');
    assert("Deploy"@[0] == 'D');
    assert("Pull"@[0] == 'P');
}

/// Nothing waits yet under an id that is still to be handed out.
pub proof fn new_ids_are_free(s: Server, id: i32)
    requires
        s.wf(),
        id < s.next_req_id,
    ensures
        pending_at(s.pending@, id, 0) is None,
{
    pending_is_none(s.pending@, id, 0);
}

} // verus!
