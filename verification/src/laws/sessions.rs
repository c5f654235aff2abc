//! What holds between calls: signing in, and the session of an editor.
use vstd::prelude::*;
use vstd::string::*;

use crate::auth::{
    after_word, answer_body, answer_status, callback_of, crlf_parts, first_word, has_header_end,
    hex_value, host_matches, key_in, last_param, login_url_of, query_param, response_text,
    split_at_char, target_path, target_query, url_decoded, Answer,
};
use crate::config::PartiriConfig;
use crate::laws::rules::{core_is_unique, is_core};
use crate::lsp::context_cache::is_stale;
use crate::lsp::diagnostics::is_problem;
use crate::lsp::server::{
    confirming, doc_at, doc_index, is_plan, is_request, missing_service, note_of, pending_at,
    problems_in, CommandPlan, NoteKind, OpenDoc, Pending, PendingAction, RequestKind, Server,
};
use crate::text::{decimal_of, find_from, find_from_is_first, hex_digit, trimmed};
use crate::validate::{RowView, Status};

verus! {

// ─── Keys and addresses ────────────────────────────────────────────────────

/// The key in a file is its text without the whitespace around it, and there is
/// none in a blank file.
pub proof fn key_in_a_file(contents: Seq<char>)
    ensures
        key_in(contents) is None <==> trimmed(contents).len() == 0,
        key_in(contents) matches Some(k) ==> k == trimmed(contents),
{
}

/// The browser is sent to the site, with the state and the port of the listener.
pub proof fn login_address(web: Option<String>, core: Seq<char>, state: Seq<char>, port: u16)
    requires
        is_core(
            core,
            match web {
                Some(u) => u@,
                None => "https://partiri.cloud"@,
            },
        ),
    ensures
        login_url_of(web, state, port) == core + "/cli-auth?state="@ + state + "&port="@
            + decimal_of(port as nat),
{
    core_is_unique(
        core,
        match web {
            Some(u) => u@,
            None => "https://partiri.cloud"@,
        },
    );
}

/// What an answer of the listener says: that the user is signed in, or why the
/// request was refused.
pub proof fn answers_of_the_listener(a: Answer)
    ensures
        answer_status(a) == "200 OK"@ <==> a == Answer::SignedIn,
        answer_status(a) == "405 Method Not Allowed"@ <==> a == Answer::WrongMethod,
        answer_status(a) == "404 Not Found"@ <==> a == Answer::WrongPath,
        answer_status(a) == "400 Bad Request"@ <==> a == Answer::WrongHost || a
            == Answer::WrongState,
        ("HTTP/1.1 "@ + answer_status(a)).is_prefix_of(response_text(a)),
        answer_body(a).is_suffix_of(response_text(a)),
{
    status_lines();
    let head = "HTTP/1.1 "@ + answer_status(a);
    assert(head =~= response_text(a).take(head.len() as int));
    let body = answer_body(a);
    assert(body =~= response_text(a).skip(response_text(a).len() - body.len()));
}

/// The status lines differ from each other.
pub proof fn status_lines()
    ensures
        "200 OK"@.len() == 6,
        "405 Method Not Allowed"@.len() == 22,
        "404 Not Found"@.len() == 13,
        "400 Bad Request"@.len() == 15,
{
    reveal_strlit("200 OK");
    reveal_strlit("405 Method Not Allowed");
    reveal_strlit("404 Not Found");
    reveal_strlit("400 Bad Request");
    assert("200 OK"@.len() == 6);
    assert("405 Method Not Allowed"@.len() == 22);
    assert("404 Not Found"@.len() == 13);
    assert("400 Bad Request"@.len() == 15);
}

/// A request is complete once a blank line ends its head.
pub proof fn head_ends_with_a_blank_line(a: Seq<u8>, b: Seq<u8>)
    ensures
        has_header_end(a + seq![13u8, 10u8, 13u8, 10u8] + b),
{
    let buf = a + seq![13u8, 10u8, 13u8, 10u8] + b;
    let i = a.len() as int;
    assert(buf[i] == 13 && buf[i + 1] == 10 && buf[i + 2] == 13 && buf[i + 3] == 10);
}

// ─── Parameters ────────────────────────────────────────────────────────────

/// What is escaped stands for the byte of its two digits, a plus for a space, and
/// any other byte for itself.
pub proof fn escapes_are_decoded(s: Seq<u8>, i: int, b: u8)
    requires
        0 <= i < s.len(),
    ensures
        s[i] == 37 && i + 2 < s.len() && s[i + 1] == hex_digit((b / 16) as nat) as u8 && s[i + 2]
            == hex_digit((b % 16) as nat) as u8 ==> url_decoded(s, i) == seq![b as char]
            + url_decoded(s, i + 3),
        s[i] == 43 ==> url_decoded(s, i) == seq![' '] + url_decoded(s, i + 1),
        s[i] != 37 && s[i] != 43 ==> url_decoded(s, i)
            == seq![s[i] as char] + url_decoded(s, i + 1),
        s[i] == 37 && i + 2 >= s.len() ==> url_decoded(s, i) == seq!['%'] + url_decoded(s, i + 1),
{
    let hi = (b / 16) as nat;
    let lo = (b % 16) as nat;
    assert(hi < 16 && lo < 16);
    digit_reads_back(hi);
    digit_reads_back(lo);
    assert(b == (b / 16) * 16 + b % 16);
}

proof fn digit_reads_back(n: nat)
    requires
        n < 16,
    ensures
        hex_value(hex_digit(n) as u8) == Some(n as u8),
{
}

/// The parameters of a callback are the texts behind their names.
pub proof fn parameters_are_found(state: Seq<char>, key: Seq<char>)
    requires
        !state.contains('&'),
        !key.contains('&'),
    ensures
        ({
            let query = "state="@ + state + "&key="@ + key;
            &&& query_param(query, "state"@) == Some(
                url_decoded(vstd::utf8::encode_utf8(state), 0),
            )
            &&& query_param(query, "key"@) == Some(url_decoded(vstd::utf8::encode_utf8(key), 0))
        }),
{
    reveal_strlit("state=");
    reveal_strlit("&key=");
    reveal_strlit("state");
    reveal_strlit("key");
    assert("state="@.len() == 6 && "&key="@.len() == 5 && "state"@.len() == 5 && "key"@.len() == 3);
    let a = "state="@ + state;
    let b = "key="@ + key;
    reveal_strlit("key=");
    assert("key="@.len() == 4);
    let query = "state="@ + state + "&key="@ + key;
    assert("&key="@ =~= seq!['&'] + "key="@);
    assert(query =~= a + seq!['&'] + b);
    assert(!a.contains('&')) by {
        if a.contains('&') {
            let i = a.index_of('&');
            if i >= 6 {
                assert(state[i - 6] == '&');
            }
        }
    }
    assert(!b.contains('&')) by {
        if b.contains('&') {
            let i = b.index_of('&');
            if i >= 4 {
                assert(key[i - 4] == '&');
            }
        }
    }
    two_parts(a, b);
    let parts = split_at_char(query, '&');
    assert(parts =~= seq![a, b]);
    first_at(a, '=', 5);
    first_at(b, '=', 3);
    assert(a.take(5) =~= "state"@);
    assert(b.take(3) =~= "key"@);
    assert(a.skip(6) =~= state);
    assert(b.skip(4) =~= key);
    reveal_with_fuel(last_param, 3);
    assert("state"@ != "key"@);
}

proof fn first_at(s: Seq<char>, c: char, k: int)
    requires
        0 <= k < s.len(),
        s[k] == c,
        forall|i: int| 0 <= i < k ==> s[i] != c,
    ensures
        find_from(s, c, 0) == k,
{
    find_from_is_first(s, c, 0);
}

proof fn two_parts(a: Seq<char>, b: Seq<char>)
    requires
        !a.contains('&'),
        !b.contains('&'),
    ensures
        split_at_char(a + seq!['&'] + b, '&') == seq![a, b],
{
    let s = a + seq!['&'] + b;
    assert forall|i: int| 0 <= i < a.len() implies s[i] != '&' by {
        assert(a.contains(a[i]));
    }
    first_at(s, '&', a.len() as int);
    assert(s.take(a.len() as int) =~= a);
    assert(s.skip(a.len() as int + 1) =~= b);
    find_from_is_first(b, '&', 0);
    if find_from(b, '&', 0) < b.len() {
        assert(b.contains(b[find_from(b, '&', 0)]));
    }
    assert(split_at_char(b, '&') == seq![b]);
    assert(seq![a] + seq![b] =~= seq![a, b]);
}

/// A callback hands over its key exactly where it is a GET for the callback, from
/// the listener itself, with the state that was handed out.
pub proof fn callbacks_that_are_taken(text: Seq<char>, state: Seq<char>, port: u16)
    ensures
        ({
            let parts = crlf_parts(text, 0);
            let target = first_word(after_word(parts[0]));
            let query = target_query(target);
            let (answer, outcome) = callback_of(text, state, port);
            &&& outcome is Ok <==> {
                &&& first_word(parts[0]) == "GET"@
                &&& host_matches(parts, 1, port)
                &&& target_path(target) == "/callback"@
                &&& query_param(query, "state"@) == Some(state)
                &&& query_param(query, "key"@) is Some
            }
            &&& outcome matches Ok(k) ==> query_param(query, "key"@) == Some(k)
            &&& answer == Some(Answer::WrongMethod) <==> first_word(parts[0]) != "GET"@
            &&& answer == Some(Answer::WrongState) ==> query_param(query, "state"@) is Some
                && query_param(query, "state"@) != Some(state)
        }),
{
}

/// The target of a request is its path up to the question mark, and its query
/// behind it.
pub proof fn targets_are_split(path: Seq<char>, query: Seq<char>)
    requires
        !path.contains('?'),
    ensures
        target_path(path + seq!['?'] + query) == path,
        target_query(path + seq!['?'] + query) == query,
        target_path(path) == path,
        target_query(path).len() == 0,
{
    let s = path + seq!['?'] + query;
    assert forall|i: int| 0 <= i < path.len() implies s[i] != '?' && path[i] != '?' by {
        assert(path.contains(path[i]));
    }
    first_at(s, '?', path.len() as int);
    assert(s.take(path.len() as int) =~= path);
    assert(s.skip(path.len() as int + 1) =~= query);
    find_from_is_first(path, '?', 0);
    if find_from(path, '?', 0) < path.len() {
        assert(path.contains(path[find_from(path, '?', 0)]));
    }
    assert(path.take(path.len() as int) =~= path);
    reveal_strlit("");
}

// ─── Editor sessions ───────────────────────────────────────────────────────

/// The methods and the commands differ from each other.
pub proof fn method_names()
    ensures
        "textDocument/completion"@.len() == 23 && "textDocument/completion"@[15] == 'm',
        "textDocument/hover"@.len() == 18,
        "textDocument/codeAction"@.len() == 23 && "textDocument/codeAction"@[15] == 'd',
        "workspace/executeCommand"@.len() == 24,
        "textDocument/didOpen"@.len() == 20 && "textDocument/didOpen"@[16] == 'O',
        "textDocument/didChange"@.len() == 22 && "textDocument/didChange"@[0] == 't',
        "textDocument/didSave"@.len() == 20 && "textDocument/didSave"@[16] == 'S',
        "textDocument/didClose"@.len() == 21,
        "partiri.validateRemote"@.len() == 22 && "partiri.validateRemote"@[0] == 'p'
            && "partiri.validateRemote"@[8] == 'v',
        "partiri.deploy"@.len() == 14,
        "partiri.pull"@.len() == 12,
        "partiri.refreshContext"@.len() == 22 && "partiri.refreshContext"@[0] == 'p'
            && "partiri.refreshContext"@[8] == 'r',
{
    reveal_strlit("textDocument/completion");
    reveal_strlit("textDocument/hover");
    reveal_strlit("textDocument/codeAction");
    reveal_strlit("workspace/executeCommand");
    reveal_strlit("textDocument/didOpen");
    reveal_strlit("textDocument/didChange");
    reveal_strlit("textDocument/didSave");
    reveal_strlit("textDocument/didClose");
    reveal_strlit("partiri.validateRemote");
    reveal_strlit("partiri.deploy");
    reveal_strlit("partiri.pull");
    reveal_strlit("partiri.refreshContext");
    assert("textDocument/completion"@.len() == 23);
    assert("textDocument/hover"@.len() == 18);
    assert("textDocument/codeAction"@.len() == 23);
    assert("workspace/executeCommand"@.len() == 24);
    assert("textDocument/didOpen"@.len() == 20);
    assert("textDocument/didChange"@.len() == 22);
    assert("textDocument/didSave"@.len() == 20);
    assert("textDocument/didClose"@.len() == 21);
    assert("partiri.validateRemote"@.len() == 22);
    assert("partiri.deploy"@.len() == 14);
    assert("partiri.pull"@.len() == 12);
    assert("partiri.refreshContext"@.len() == 22);
}

/// A method names its request or its notification, and a method that names none
/// is told so.
pub proof fn methods_name_their_requests(r: RequestKind, method: Seq<char>)
    requires
        is_request(r, method),
    ensures
        r is Completion <==> method == "textDocument/completion"@,
        r is Hover <==> method == "textDocument/hover"@,
        r is CodeAction <==> method == "textDocument/codeAction"@,
        r is ExecuteCommand <==> method == "workspace/executeCommand"@,
        note_of(method) == NoteKind::DidOpen <==> method == "textDocument/didOpen"@,
        note_of(method) == NoteKind::DidChange <==> method == "textDocument/didChange"@,
        note_of(method) == NoteKind::DidSave <==> method == "textDocument/didSave"@,
        note_of(method) == NoteKind::DidClose <==> method == "textDocument/didClose"@,
{
    method_names();
}

/// A command leads to what it is called, for the document that it names; only the
/// refresh needs none.
pub proof fn commands_lead_to_their_plans(r: CommandPlan, command: Seq<char>, uri: Option<String>)
    requires
        is_plan(r, command, uri),
    ensures
        r is RefreshContext <==> command == "partiri.refreshContext"@,
        r is ValidateRemote <==> command == "partiri.validateRemote"@ && uri is Some,
        r is Deploy <==> command == "partiri.deploy"@ && uri is Some,
        r is Pull <==> command == "partiri.pull"@ && uri is Some,
        r is ValidateRemote ==> uri == Some(r->ValidateRemote_0),
        r is Deploy ==> uri == Some(r->Deploy_0),
        r is Pull ==> uri == Some(r->Pull_0),
{
    method_names();
}

/// What confirms a deploy is the button to deploy, and what confirms a pull the
/// button to pull.
pub proof fn buttons_confirm_their_actions(a: PendingAction)
    ensures
        confirming(a) == "Deploy"@ <==> a is Deploy,
        confirming(a) == "Pull"@ <==> a is Pull,
{
    reveal_strlit("Deploy");
    reveal_strlit("Pull");
    assert("Deploy"@.len() == 6);
    assert("Pull"@.len() == 4);
}

/// A service can be deployed or pulled once it exists.
pub proof fn actions_need_a_service(config: Option<PartiriConfig>)
    ensures
        missing_service(config) is None <==> config is Some && config->0.id is Some,
{
}

/// The context is fetched anew once it is more than five minutes old, and remote
/// validation waits five seconds between runs unless it is asked for.
pub proof fn intervals(fetched: Option<u64>, now: u64, s: Server, asked: bool)
    ensures
        is_stale(fetched, now) <==> fetched is None || now - fetched->0 > 300000,
        s.may_validate(asked, now) <==> asked || s.last_remote_run is None || now
            - s.last_remote_run->0 >= 5000,
{
}

/// The document that is found is the one with the address.
pub proof fn documents_are_found_by_address(docs: Seq<OpenDoc>, i: int, from: int)
    requires
        0 <= from <= i < docs.len(),
        forall|k: int| 0 <= k < i ==> (#[trigger] docs[k]).uri@ != docs[i].uri@,
    ensures
        doc_index(docs, docs[i].uri@, from) == i,
        from == 0 ==> doc_at(docs, docs[i].uri@) == Some(docs[i].doc@),
    decreases i - from,
{
    if from < i {
        assert(docs[from].uri@ != docs[i].uri@);
        documents_are_found_by_address(docs, i, from + 1);
    }
}

/// A document that is not open is not found.
pub proof fn closed_documents_are_not_found(docs: Seq<OpenDoc>, uri: Seq<char>, from: int)
    requires
        0 <= from <= docs.len(),
        forall|k: int| 0 <= k < docs.len() ==> (#[trigger] docs[k]).uri@ != uri,
    ensures
        doc_index(docs, uri, from) == docs.len(),
        from == 0 ==> doc_at(docs, uri) is None,
    decreases docs.len() - from,
{
    if from < docs.len() {
        closed_documents_are_not_found(docs, uri, from + 1);
    }
}

/// The answer to a question is for the action that it asked about.
pub proof fn questions_are_found_by_id(v: Seq<Pending>, i: int, from: int)
    requires
        0 <= from <= i < v.len(),
        forall|k: int| 0 <= k < i ==> (#[trigger] v[k]).id != v[i].id,
    ensures
        pending_at(v, v[i].id, from) == Some(v[i].action),
    decreases i - from,
{
    if from < i {
        assert(v[from].id != v[i].id);
        questions_are_found_by_id(v, i, from + 1);
    }
}

/// A remote validation without problems is one where every row passes.
pub proof fn problems_are_rows_that_do_not_pass(rows: Seq<RowView>)
    ensures
        problems_in(rows) == 0 <==> forall|i: int|
            0 <= i < rows.len() ==> (#[trigger] rows[i]).status == Status::Pass,
        problems_in(rows) <= rows.len(),
{
    let p = |r: RowView| is_problem(r);
    let kept = rows.filter(p);
    rows.lemma_filter_len(p);
    if kept.len() == 0 {
        assert forall|i: int| 0 <= i < rows.len() implies (#[trigger] rows[i]).status
            == Status::Pass by {
            if rows[i].status != Status::Pass {
                rows.lemma_filter_contains(p, i);
                assert(kept.contains(rows[i]));
            }
        }
    } else {
        rows.lemma_filter_pred(p, 0);
        assert(kept.contains(kept[0]));
        rows.lemma_filter_contains_rev(p, kept[0]);
        let i = rows.index_of(kept[0]);
        assert(rows[i] == kept[0]);
        assert(rows[i].status != Status::Pass);
    }
}

} // verus!
