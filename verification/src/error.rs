//! Errors: the structured [`CliError`], the [`Failure`] that commands fail with,
//! and the per-code metadata that enriches an error with `likely_causes` and
//! `suggested_commands`.
use vstd::prelude::*;
use vstd::string::*;

use crate::config::{config_display, config_display_of, config_flag_suffix, config_flag_suffix_of};
use crate::config::ConfigOverride;
use crate::text::{
    cat2, cat4, opt_view, parse_number, parsed_number, str_eq, trim, trimmed, views,
};

verus! {

/// Schema version stamped on every JSON envelope that the tool prints.
pub const SCHEMA_VERSION: &'static str = "1";

/// What a command fails with: a structured error, or a plain message.
#[derive(Debug, Clone)]
pub enum Failure {
    Cli(CliError),
    Text(String),
}

/// Structured error, printed as it stands in JSON mode.
#[derive(Debug, Clone)]
pub struct CliError {
    pub code: String,
    pub message: String,
    pub hint: Option<String>,
    pub likely_causes: Vec<String>,
    pub suggested_commands: Vec<String>,
}

/// What a [`CliError`] says, over character sequences.
pub ghost struct CliErrorView {
    pub code: Seq<char>,
    pub message: Seq<char>,
    pub hint: Option<Seq<char>>,
    pub likely_causes: Seq<Seq<char>>,
    pub suggested_commands: Seq<Seq<char>>,
}

impl View for CliError {
    type V = CliErrorView;

    open spec fn view(&self) -> CliErrorView {
        CliErrorView {
            code: self.code@,
            message: self.message@,
            hint: opt_view(self.hint),
            likely_causes: views(self.likely_causes@),
            suggested_commands: views(self.suggested_commands@),
        }
    }
}

/// What an [`Failure`] says.
pub ghost enum FailureView {
    Cli(CliErrorView),
    Text(Seq<char>),
}

impl View for Failure {
    type V = FailureView;

    open spec fn view(&self) -> FailureView {
        match self {
            Failure::Cli(e) => FailureView::Cli(e@),
            Failure::Text(s) => FailureView::Text(s@),
        }
    }
}

/// The error with nothing but a code and a message.
pub open spec fn bare(code: Seq<char>, message: Seq<char>) -> CliErrorView {
    CliErrorView {
        code,
        message,
        hint: None,
        likely_causes: Seq::empty(),
        suggested_commands: Seq::empty(),
    }
}

/// `e` with `hint` attached, trimmed; a blank hint leaves none.
pub open spec fn hinted(e: CliErrorView, hint: Seq<char>) -> CliErrorView {
    CliErrorView {
        hint: if trimmed(hint).len() == 0 {
            None
        } else {
            Some(trimmed(hint))
        },
        ..e
    }
}

/// `e` with the metadata of its code in each list that was empty.
pub open spec fn enriched_of(e: CliErrorView, over: Option<Seq<char>>) -> CliErrorView {
    let (causes, commands) = metadata_of(e.code, over);
    CliErrorView {
        likely_causes: if e.likely_causes.len() == 0 {
            causes
        } else {
            e.likely_causes
        },
        suggested_commands: if e.suggested_commands.len() == 0 {
            commands
        } else {
            e.suggested_commands
        },
        ..e
    }
}

/// A code that reads as a three-digit HTTP status.
pub open spec fn is_http_code(code: Seq<char>) -> bool {
    match parsed_number(code, 65535) {
        Some(n) => 100 <= n < 1000,
        None => false,
    }
}

/// The text that a person sees.
pub open spec fn human_text(e: CliErrorView) -> Seq<char> {
    let first = if is_http_code(e.code) {
        "API error "@ + e.code + " — "@ + e.message
    } else {
        e.message
    };
    match e.hint {
        Some(h) => first + "\n  "@ + h,
        None => first,
    }
}

/// The causes and the suggested commands that belong to an error code. Those
/// of `config` name the active configuration file.
pub open spec fn metadata_of(code: Seq<char>, over: Option<Seq<char>>) -> (
    Seq<Seq<char>>,
    Seq<Seq<char>>,
) {
    let none = Seq::<Seq<char>>::empty();
    if code == "400"@ {
        (
            seq!["Configuration values are out of range or wrong type"@],
            seq!["partiri validate"@],
        )
    } else if code == "401"@ {
        (
            seq!["API key expired or revoked"@, "Wrong PARTIRI_API_URL"@],
            seq!["partiri auth --key <K>"@, "partiri llm doctor"@],
        )
    } else if code == "402"@ {
        (seq!["Workspace balance is empty"@], seq!["partiri llm whoami"@])
    } else if code == "403"@ {
        (
            seq!["Account lacks permission"@, "Workspace limit reached"@],
            seq!["partiri llm whoami"@],
        )
    } else if code == "404"@ {
        (
            seq!["Resource was deleted"@, "Wrong UUID for workspace/project/region/pod"@],
            seq!["partiri llm context"@],
        )
    } else if code == "409"@ {
        (seq!["Conflicting operation in progress"@], seq!["partiri service jobs"@])
    } else if code == "422"@ {
        (
            seq!["Invalid request data"@, "Schema mismatch with the API"@],
            seq!["partiri validate --remote"@],
        )
    } else if code == "429"@ {
        (seq!["Rate limit exceeded"@], none)
    } else if code == "auth"@ {
        (seq!["No API key configured"@], seq!["partiri auth --key <K>"@])
    } else if code == "validation"@ {
        (none, seq!["partiri llm next"@])
    } else if code == "network"@ {
        (seq!["API host unreachable"@, "Wrong PARTIRI_API_URL"@], seq!["partiri llm doctor"@])
    } else if code == "config"@ {
        (
            seq!["Missing or unparseable "@ + config_display_of(over)],
            seq!["partiri init --template"@ + config_flag_suffix_of(over)],
        )
    } else if code == "missing_dependency"@ {
        (none, seq!["partiri llm next"@])
    } else {
        (none, none)
    }
}

/// A list of one string.
pub fn list1(a: &str) -> (r: Vec<String>)
    ensures
        views(r@) == seq![a@],
{
    let mut out: Vec<String> = Vec::new();
    out.push(a.to_owned());
    assert(views(out@) =~= seq![a@]);
    out
}

/// A list of two strings.
pub fn list2(a: &str, b: &str) -> (r: Vec<String>)
    ensures
        views(r@) == seq![a@, b@],
{
    let mut out: Vec<String> = Vec::new();
    out.push(a.to_owned());
    out.push(b.to_owned());
    assert(views(out@) =~= seq![a@, b@]);
    out
}

/// The empty list.
pub fn list0() -> (r: Vec<String>)
    ensures
        views(r@) == Seq::<Seq<char>>::empty(),
        r@.len() == 0,
{
    let out: Vec<String> = Vec::new();
    assert(views(out@) =~= Seq::<Seq<char>>::empty());
    out
}

/// The causes and suggested commands of `code`; both empty for a code without
/// an entry.
pub fn lookup_metadata(code: &str, over: &ConfigOverride) -> (r: (Vec<String>, Vec<String>))
    ensures
        (views(r.0@), views(r.1@)) == metadata_of(code@, over@),
{
    if str_eq(code, "400") {
        (
            list1("Configuration values are out of range or wrong type"),
            list1("partiri validate"),
        )
    } else if str_eq(code, "401") {
        (
            list2("API key expired or revoked", "Wrong PARTIRI_API_URL"),
            list2("partiri auth --key <K>", "partiri llm doctor"),
        )
    } else if str_eq(code, "402") {
        (list1("Workspace balance is empty"), list1("partiri llm whoami"))
    } else if str_eq(code, "403") {
        (
            list2("Account lacks permission", "Workspace limit reached"),
            list1("partiri llm whoami"),
        )
    } else if str_eq(code, "404") {
        (
            list2("Resource was deleted", "Wrong UUID for workspace/project/region/pod"),
            list1("partiri llm context"),
        )
    } else if str_eq(code, "409") {
        (list1("Conflicting operation in progress"), list1("partiri service jobs"))
    } else if str_eq(code, "422") {
        (
            list2("Invalid request data", "Schema mismatch with the API"),
            list1("partiri validate --remote"),
        )
    } else if str_eq(code, "429") {
        (list1("Rate limit exceeded"), list0())
    } else if str_eq(code, "auth") {
        (list1("No API key configured"), list1("partiri auth --key <K>"))
    } else if str_eq(code, "validation") {
        (list0(), list1("partiri llm next"))
    } else if str_eq(code, "network") {
        (list2("API host unreachable", "Wrong PARTIRI_API_URL"), list1("partiri llm doctor"))
    } else if str_eq(code, "config") {
        let shown = config_display(over);
        let suffix = config_flag_suffix(over);
        let cause = cat2("Missing or unparseable ", shown.as_str());
        let command = cat2("partiri init --template", suffix.as_str());
        (list1(cause.as_str()), list1(command.as_str()))
    } else if str_eq(code, "missing_dependency") {
        (list0(), list1("partiri llm next"))
    } else {
        (list0(), list0())
    }
}

impl CliError {
    /// An error with `code` (an HTTP status or a literal such as `validation`)
    /// and `message`. Hint and metadata start empty.
    pub fn new(code: &str, message: &str) -> (r: CliError)
        ensures
            r@ == bare(code@, message@),
    {
        CliError {
            code: code.to_owned(),
            message: message.to_owned(),
            hint: None,
            likely_causes: list0(),
            suggested_commands: list0(),
        }
    }

    /// Attach a one-line hint. A blank hint is dropped, so that it never
    /// renders as a blank line.
    pub fn with_hint(self, hint: &str) -> (r: CliError)
        ensures
            r@ == hinted(self@, hint@),
    {
        let t = trim(hint);
        let kept = if t.is_empty() {
            None
        } else {
            Some(t.to_owned())
        };
        CliError {
            code: self.code,
            message: self.message,
            hint: kept,
            likely_causes: self.likely_causes,
            suggested_commands: self.suggested_commands,
        }
    }

    /// Fill the empty lists of metadata from the table of codes.
    pub fn enriched(self, over: &ConfigOverride) -> (r: CliError)
        ensures
            r@ == enriched_of(self@, over@),
    {
        let (causes, commands) = lookup_metadata(self.code.as_str(), over);
        let likely_causes = if self.likely_causes.is_empty() {
            causes
        } else {
            self.likely_causes
        };
        let suggested_commands = if self.suggested_commands.is_empty() {
            commands
        } else {
            self.suggested_commands
        };
        CliError {
            code: self.code,
            message: self.message,
            hint: self.hint,
            likely_causes,
            suggested_commands,
        }
    }

    /// Whether the code reads as an HTTP status.
    pub fn is_http(&self) -> (r: bool)
        ensures
            r == is_http_code(self.code@),
    {
        match parse_number(self.code.as_str(), 65535) {
            Some(n) => 100 <= n && n < 1000,
            None => false,
        }
    }

    /// The text shown to a person.
    pub fn to_text(&self) -> (r: String)
        ensures
            r@ == human_text(self@),
    {
        let mut out = if self.is_http() {
            cat4("API error ", self.code.as_str(), " — ", self.message.as_str())
        } else {
            self.message.clone()
        };
        match &self.hint {
            Some(h) => {
                out.append("\n  ");
                out.append(h.as_str());
            },
            None => {},
        }
        out
    }

    /// A copy of the error.
    pub fn copied(&self) -> (r: CliError)
        ensures
            r@ == self@,
    {
        CliError {
            code: self.code.clone(),
            message: self.message.clone(),
            hint: crate::text::clone_opt(&self.hint),
            likely_causes: crate::text::clone_strings(&self.likely_causes),
            suggested_commands: crate::text::clone_strings(&self.suggested_commands),
        }
    }
}

/// A `validation` error, enriched.
pub open spec fn validation_of(message: Seq<char>) -> CliErrorView {
    enriched_of(bare("validation"@, message), None)
}

/// A `validation` error with a hint, enriched.
pub open spec fn validation_hint_of(message: Seq<char>, hint: Seq<char>) -> CliErrorView {
    enriched_of(hinted(bare("validation"@, message), hint), None)
}

pub fn validation_error(message: &str) -> (r: Failure)
    ensures
        r@ == FailureView::Cli(validation_of(message@)),
{
    Failure::Cli(CliError::new("validation", message).enriched(&ConfigOverride::none()))
}

pub fn validation_error_with_hint(message: &str, hint: &str) -> (r: Failure)
    ensures
        r@ == FailureView::Cli(validation_hint_of(message@, hint@)),
{
    Failure::Cli(
        CliError::new("validation", message).with_hint(hint).enriched(&ConfigOverride::none()),
    )
}

/// A plain error text.
pub fn text_error(message: &str) -> (r: Failure)
    ensures
        r@ == FailureView::Text(message@),
{
    Failure::Text(message.to_owned())
}

impl Failure {
    /// The text shown to a person.
    pub fn to_text(&self) -> (r: String)
        ensures
            r@ == error_text(self@),
    {
        match self {
            Failure::Cli(e) => e.to_text(),
            Failure::Text(s) => s.clone(),
        }
    }
}

pub open spec fn error_text(e: FailureView) -> Seq<char> {
    match e {
        FailureView::Cli(c) => human_text(c),
        FailureView::Text(s) => s,
    }
}

/// The structured form of any error: a plain text becomes the message of an
/// error with the generic code.
pub open spec fn extracted(e: FailureView) -> CliErrorView {
    match e {
        FailureView::Cli(c) => c,
        FailureView::Text(s) => bare("error"@, s),
    }
}

pub fn extract_cli_error(err: &Failure) -> (r: CliError)
    ensures
        r@ == extracted(err@),
{
    match err {
        Failure::Cli(e) => e.copied(),
        Failure::Text(s) => {
            proof {
                generic_code_has_no_metadata();
                let e = bare("error"@, s@);
                assert(enriched_of(e, None) == e);
            }
            CliError::new("error", s.as_str()).enriched(&ConfigOverride::none())
        },
    }
}

proof fn generic_code_has_no_metadata()
    ensures
        metadata_of("error"@, None) == (Seq::<Seq<char>>::empty(), Seq::<Seq<char>>::empty()),
{
    reveal_strlit("error");
    reveal_strlit("400");
    reveal_strlit("401");
    reveal_strlit("402");
    reveal_strlit("403");
    reveal_strlit("404");
    reveal_strlit("409");
    reveal_strlit("422");
    reveal_strlit("429");
    reveal_strlit("auth");
    reveal_strlit("validation");
    reveal_strlit("network");
    reveal_strlit("config");
    reveal_strlit("missing_dependency");
    assert("error"@.len() == 5);
    assert("error"@[0] == 'e');
}

// ─── Laws ──────────────────────────────────────────────────────────────────

/// A hint is never blank, and never has whitespace at its ends.
pub proof fn hint_is_never_blank(e: CliErrorView, hint: Seq<char>)
    ensures
        match hinted(e, hint).hint {
            Some(h) => h.len() > 0 && trimmed(h) == h,
            None => trimmed(hint).len() == 0,
        },
{
    crate::text::trim_is_idempotent(hint);
}

/// Enriching twice is enriching once.
pub proof fn enriching_is_idempotent(e: CliErrorView, over: Option<Seq<char>>)
    ensures
        enriched_of(enriched_of(e, over), over) == enriched_of(e, over),
{
}

/// Enriching adds to an error and replaces nothing: code, message, hint and
/// every list that was filled stay as they were.
pub proof fn enriching_keeps_what_is_there(e: CliErrorView, over: Option<Seq<char>>)
    ensures
        enriched_of(e, over).code == e.code,
        enriched_of(e, over).message == e.message,
        enriched_of(e, over).hint == e.hint,
        e.likely_causes.len() > 0 ==> enriched_of(e, over).likely_causes == e.likely_causes,
        e.suggested_commands.len() > 0 ==> enriched_of(e, over).suggested_commands
            == e.suggested_commands,
{
}

/// Only the metadata of the `config` code depends on the active configuration
/// file.
pub proof fn only_config_errors_name_the_file(
    code: Seq<char>,
    a: Option<Seq<char>>,
    b: Option<Seq<char>>,
)
    requires
        code != "config"@,
    ensures
        metadata_of(code, a) == metadata_of(code, b),
{
}

} // verus!
