//! `partiri secrets`: create and list the credentials for registries and
//! repositories. A secret is never printed, and never kept in a file.
use vstd::prelude::*;
use vstd::string::*;

use crate::client::{secret_body, with_body, ApiClient, ApiRequest, CreatedSecret, Method};
use crate::client::WorkspaceSecret;
use crate::config::{config_display, config_display_of, ConfigOverride};
use crate::error::{list1, validation_error_with_hint, validation_hint_of};
use crate::error::{CliErrorView, Failure, FailureView};
use crate::json::{array_view, items_view, json_view, opt_string_view, Json, JsonView};
use crate::output::{Ctx, Listing, Report, ReportView};
use crate::text::{
    cat2, cat3, cat5, cat6, opt_view, or_empty, str_eq, text_or_empty, trim, trimmed,
};

verus! {

/// The flags of `secrets create-registry`.
#[derive(Debug)]
pub struct CreateRegistryArgs {
    pub workspace: Option<String>,
    pub name: Option<String>,
    pub provider: Option<String>,
    pub username: Option<String>,
    pub password: Option<String>,
    pub password_stdin: bool,
}

/// The flags of `secrets create-repository`.
#[derive(Debug)]
pub struct CreateRepositoryArgs {
    pub workspace: Option<String>,
    pub name: Option<String>,
    pub provider: Option<String>,
    pub token: Option<String>,
    pub token_stdin: bool,
    /// Only Bitbucket needs it.
    pub username: Option<String>,
}

pub open spec fn missing_arg_error(field: Seq<char>, flag: Seq<char>, cmd: Seq<char>) -> CliErrorView {
    validation_hint_of(
        "'--"@ + field + "' is required for '"@ + cmd + "'."@,
        "Pass "@ + flag + " on the command line."@,
    )
}

/// The value of a flag that a command cannot do without.
pub fn require_arg(value: Option<String>, field: &str, flag: &str, cmd: &str) -> (r: Result<
    String,
    Failure,
>)
    ensures
        r is Ok <==> value is Some,
        r is Ok ==> r->Ok_0 == value->0,
        r is Err ==> r->Err_0@ == FailureView::Cli(missing_arg_error(field@, flag@, cmd@)),
{
    match value {
        Some(v) => Ok(v),
        None => {
            let message = cat5("'--", field, "' is required for '", cmd, "'.");
            let hint = cat3("Pass ", flag, " on the command line.");
            Err(validation_error_with_hint(message.as_str(), hint.as_str()))
        },
    }
}

/// What was read from standard input.
#[derive(Debug)]
pub enum StdinLine {
    /// Nothing at all.
    Empty,
    /// It could not be read: the reason.
    Failed(String),
    /// The first line.
    Line(String),
}

/// The secret that a command works with, from its flag or from the first line
/// of standard input.
pub open spec fn secret_value(
    flag: Option<String>,
    from_stdin: bool,
    kind: Seq<char>,
    line: StdinLine,
) -> Result<Seq<char>, Seq<char>> {
    match flag {
        Some(v) => Ok(v@),
        None => if from_stdin {
            match line {
                StdinLine::Empty => Err("stdin was empty; expected a "@ + kind),
                StdinLine::Failed(why) => Err(
                    "failed to read "@ + kind + " from stdin: "@ + why@,
                ),
                StdinLine::Line(s) => Ok(trimmed(s@)),
            }
        } else {
            Err(
                "'"@ + kind + "' is required. Pass --"@ + kind + " <VALUE> or --"@ + kind
                    + "-stdin."@,
            )
        },
    }
}

/// A secret from its flag, or from the line that was read from standard input
/// (trimmed). The line counts only where the flag is absent and standard input
/// was asked for.
pub fn read_secret_arg(
    flag_value: Option<String>,
    from_stdin: bool,
    kind: &str,
    line: StdinLine,
) -> (r: Result<String, Failure>)
    ensures
        match secret_value(flag_value, from_stdin, kind@, line) {
            Ok(v) => r is Ok && r->Ok_0@ == v,
            Err(e) => r is Err && r->Err_0@ == FailureView::Text(e),
        },
{
    match flag_value {
        Some(v) => Ok(v),
        None => {
            if from_stdin {
                match line {
                    StdinLine::Empty => Err(
                        Failure::Text(cat2("stdin was empty; expected a ", kind)),
                    ),
                    StdinLine::Failed(why) => Err(
                        Failure::Text(
                            crate::text::cat4(
                                "failed to read ",
                                kind,
                                " from stdin: ",
                                why.as_str(),
                            ),
                        ),
                    ),
                    StdinLine::Line(s) => Ok(trim(s.as_str()).to_owned()),
                }
            } else {
                let mut message = cat6("'", kind, "' is required. Pass --", kind, " <VALUE> or --", kind);
                message.append("-stdin.");
                Err(Failure::Text(message))
            }
        },
    }
}

/// The first flag that is missing, in the order in which they are looked at.
pub open spec fn registry_problem(args: CreateRegistryArgs, line: StdinLine) -> Option<FailureView> {
    let cmd = "secrets create-registry"@;
    if args.name is None {
        Some(FailureView::Cli(missing_arg_error("name"@, "--name <NAME>"@, cmd)))
    } else if args.provider is None {
        Some(FailureView::Cli(missing_arg_error("provider"@, "--provider <PROVIDER>"@, cmd)))
    } else if args.username is None {
        Some(FailureView::Cli(missing_arg_error("username"@, "--username <USER>"@, cmd)))
    } else {
        match secret_value(args.password, args.password_stdin, "password"@, line) {
            Ok(_) => None,
            Err(e) => Some(FailureView::Text(e)),
        }
    }
}

/// `secrets create-registry`: the request, in the workspace that was resolved.
pub fn run_create_registry(args: CreateRegistryArgs, workspace_id: &str, line: StdinLine) -> (r:
    Result<ApiRequest, Failure>)
    ensures
        r is Ok <==> registry_problem(args, line) is None,
        r is Err ==> r->Err_0@ == registry_problem(args, line)->0,
        r is Ok ==> r->Ok_0@ == with_body(
            Method::Post,
            "/workspaces/secrets/registry"@,
            secret_body(
                args.name->0@,
                workspace_id@,
                args.provider->0@,
                seq![
                    ("username"@, JsonView::Str(args.username->0@)),
                    (
                        "password"@,
                        JsonView::Str(
                            secret_value(
                                args.password,
                                args.password_stdin,
                                "password"@,
                                line,
                            )->Ok_0,
                        ),
                    ),
                ],
            ),
        ),
{
    let cmd = "secrets create-registry";
    let name = match require_arg(args.name, "name", "--name <NAME>", cmd) {
        Ok(v) => v,
        Err(e) => {
            return Err(e);
        },
    };
    let provider = match require_arg(args.provider, "provider", "--provider <PROVIDER>", cmd) {
        Ok(v) => v,
        Err(e) => {
            return Err(e);
        },
    };
    let username = match require_arg(args.username, "username", "--username <USER>", cmd) {
        Ok(v) => v,
        Err(e) => {
            return Err(e);
        },
    };
    match read_secret_arg(args.password, args.password_stdin, "password", line) {
        Ok(password) => Ok(
            ApiClient::create_registry_secret(
                name.as_str(),
                workspace_id,
                provider.as_str(),
                username.as_str(),
                password.as_str(),
            ),
        ),
        Err(e) => Err(e),
    }
}

/// The first flag that is missing, in the order in which they are looked at.
pub open spec fn repository_problem(args: CreateRepositoryArgs, line: StdinLine) -> Option<
    FailureView,
> {
    let cmd = "secrets create-repository"@;
    if args.name is None {
        Some(FailureView::Cli(missing_arg_error("name"@, "--name <NAME>"@, cmd)))
    } else if args.provider is None {
        Some(FailureView::Cli(missing_arg_error("provider"@, "--provider <PROVIDER>"@, cmd)))
    } else {
        match secret_value(args.token, args.token_stdin, "token"@, line) {
            Ok(_) => None,
            Err(e) => Some(FailureView::Text(e)),
        }
    }
}

/// The user that goes with the token. Only Bitbucket takes one; it is empty for
/// every other provider.
pub open spec fn repository_user(args: CreateRepositoryArgs) -> Seq<char> {
    if opt_view(args.provider) == Some("bitbucket"@) {
        or_empty(args.username)
    } else {
        ""@
    }
}

/// `secrets create-repository`: the request, in the workspace that was
/// resolved.
pub fn run_create_repository(args: CreateRepositoryArgs, workspace_id: &str, line: StdinLine) -> (r:
    Result<ApiRequest, Failure>)
    ensures
        r is Ok <==> repository_problem(args, line) is None,
        r is Err ==> r->Err_0@ == repository_problem(args, line)->0,
        r is Ok ==> r->Ok_0@ == with_body(
            Method::Post,
            "/workspaces/secrets/repository"@,
            secret_body(
                args.name->0@,
                workspace_id@,
                args.provider->0@,
                seq![
                    ("key"@, JsonView::Str(repository_user(args))),
                    (
                        "value"@,
                        JsonView::Str(
                            secret_value(args.token, args.token_stdin, "token"@, line)->Ok_0,
                        ),
                    ),
                ],
            ),
        ),
{
    let cmd = "secrets create-repository";
    let name = match require_arg(args.name, "name", "--name <NAME>", cmd) {
        Ok(v) => v,
        Err(e) => {
            return Err(e);
        },
    };
    let provider = match require_arg(args.provider, "provider", "--provider <PROVIDER>", cmd) {
        Ok(v) => v,
        Err(e) => {
            return Err(e);
        },
    };
    let username = if str_eq(provider.as_str(), "bitbucket") {
        text_or_empty(&args.username)
    } else {
        "".to_owned()
    };
    match read_secret_arg(args.token, args.token_stdin, "token", line) {
        Ok(token) => Ok(
            ApiClient::create_repository_secret(
                name.as_str(),
                workspace_id,
                provider.as_str(),
                token.as_str(),
                username.as_str(),
            ),
        ),
        Err(e) => Err(e),
    }
}

/// The two kinds of secrets.
#[derive(Debug, Clone, Copy, PartialEq, Eq, Structural)]
pub enum SecretKind {
    Registry,
    Repository,
}

pub open spec fn kind_text(kind: SecretKind) -> Seq<char> {
    match kind {
        SecretKind::Registry => "registry"@,
        SecretKind::Repository => "repository"@,
    }
}

pub open spec fn kind_title(kind: SecretKind) -> Seq<char> {
    match kind {
        SecretKind::Registry => "Registry secret '"@,
        SecretKind::Repository => "Repository secret '"@,
    }
}

/// What is reported of a secret that was created: by the name that the API
/// gives back, or else by the name that was asked for.
pub open spec fn created_view(
    secret: CreatedSecret,
    name: Seq<char>,
    kind: SecretKind,
    over: Option<Seq<char>>,
) -> ReportView {
    ReportView {
        message: kind_title(kind) + (match secret.name {
            Some(n) => n@,
            None => name,
        }) + "' created — ID: "@ + secret.id@,
        data: Some(
            JsonView::Obj(
                seq![
                    ("id"@, JsonView::Str(secret.id@)),
                    ("name"@, opt_string_view(opt_view(secret.name))),
                    ("kind"@, JsonView::Str(kind_text(kind))),
                ],
            ),
        ),
        notes: seq![
            "Use this ID as fk_service_secret in "@ + config_display_of(over)
                + " or via\n  'partiri service token --secret "@ + secret.id@ + "'."@,
        ],
    }
}

/// The report on a secret that was created.
pub fn created_report(
    secret: &CreatedSecret,
    name: &str,
    kind: SecretKind,
    over: &ConfigOverride,
) -> (r: Report)
    ensures
        r@ == created_view(*secret, name@, kind, over@),
{
    let (title, kind_name) = match kind {
        SecretKind::Registry => ("Registry secret '", "registry"),
        SecretKind::Repository => ("Repository secret '", "repository"),
    };
    let shown = match &secret.name {
        Some(n) => n.as_str(),
        None => name,
    };
    let data = Json::object().with("id", Json::str(secret.id.as_str())).with(
        "name",
        Json::opt(&secret.name),
    ).with("kind", Json::str(kind_name));
    assert(data@->Obj_0 =~= created_view(*secret, name@, kind, over@).data->0->Obj_0);
    let path = config_display(over);
    let note = cat5(
        "Use this ID as fk_service_secret in ",
        path.as_str(),
        " or via\n  'partiri service token --secret ",
        secret.id.as_str(),
        "'.",
    );
    Report {
        message: crate::text::cat4(title, shown, "' created — ID: ", secret.id.as_str()),
        data: Some(data),
        notes: list1(note.as_str()),
    }
}

/// A row of the table of secrets.
#[derive(Debug)]
pub struct SecretRow {
    pub kind: String,
    pub name: String,
    pub provider: String,
    pub id: String,
}

pub open spec fn is_secret_row(row: SecretRow, s: WorkspaceSecret, kind: Seq<char>) -> bool {
    &&& row.kind@ == kind
    &&& row.name@ == or_empty(s.name)
    &&& row.provider@ == or_empty(s.provider)
    &&& row.id == s.id
}

pub fn to_row(s: &WorkspaceSecret, kind: &str) -> (r: SecretRow)
    ensures
        is_secret_row(r, *s, kind@),
{
    SecretRow {
        kind: kind.to_owned(),
        name: text_or_empty(&s.name),
        provider: text_or_empty(&s.provider),
        id: s.id.clone(),
    }
}

/// What is shown of a secret in JSON; never its data.
pub open spec fn secret_json_of(s: WorkspaceSecret) -> JsonView {
    JsonView::Obj(
        seq![
            ("id"@, JsonView::Str(s.id@)),
            ("name"@, opt_string_view(opt_view(s.name))),
            ("provider"@, opt_string_view(opt_view(s.provider))),
        ],
    )
}

pub fn secret_json(s: &WorkspaceSecret) -> (r: Json)
    ensures
        r@ == secret_json_of(*s),
{
    let r = Json::object().with("id", Json::str(s.id.as_str())).with(
        "name",
        Json::opt(&s.name),
    ).with("provider", Json::opt(&s.provider));
    assert(r@->Obj_0 =~= secret_json_of(*s)->Obj_0);
    r
}

pub open spec fn secrets_array(v: Seq<WorkspaceSecret>) -> JsonView {
    JsonView::Arr(v.map_values(|s: WorkspaceSecret| secret_json_of(s)))
}

fn secrets_json(v: &Vec<WorkspaceSecret>) -> (r: Json)
    ensures
        r@ == secrets_array(v@),
{
    let mut out: Vec<Json> = Vec::new();
    for i in 0..v.len()
        invariant
            out@.len() == i,
            forall|k: int| 0 <= k < i ==> json_view(#[trigger] out@[k]) == secret_json_of(v@[k]),
    {
        out.push(secret_json(&v[i]));
    }
    proof {
        array_view(out);
        assert(items_view(out@) =~= secrets_array(v@)->Arr_0);
    }
    Json::Arr(out)
}

/// What `secrets list` prints where there is no secret.
pub const NO_SECRETS: &'static str = "No secrets found in this workspace.";

/// `secrets list`: registry secrets first, then repository secrets. A list
/// that could not be fetched counts as empty.
pub fn run_list(registry: &Vec<WorkspaceSecret>, repository: &Vec<WorkspaceSecret>, ctx: Ctx) -> (r:
    Listing<SecretRow>)
    ensures
        ctx.json ==> r is Data && r->Data_0@ == JsonView::Obj(
            seq![
                ("registry"@, secrets_array(registry@)),
                ("repository"@, secrets_array(repository@)),
            ],
        ),
        !ctx.json && registry@.len() + repository@.len() == 0 ==> r is Message && r->Message_0@
            == NO_SECRETS@,
        !ctx.json && registry@.len() + repository@.len() > 0 ==> {
            &&& r is Rows
            &&& r->Rows_0@.len() == registry@.len() + repository@.len()
            &&& forall|i: int|
                0 <= i < registry@.len() ==> is_secret_row(
                    #[trigger] r->Rows_0@[i],
                    registry@[i],
                    "registry"@,
                )
            &&& forall|i: int|
                registry@.len() <= i < r->Rows_0@.len() ==> is_secret_row(
                    #[trigger] r->Rows_0@[i],
                    repository@[i - registry@.len()],
                    "repository"@,
                )
        },
{
    if ctx.json {
        let data = Json::object().with("registry", secrets_json(registry)).with(
            "repository",
            secrets_json(repository),
        );
        assert(data@->Obj_0 =~= seq![
            ("registry"@, secrets_array(registry@)),
            ("repository"@, secrets_array(repository@)),
        ]);
        return Listing::Data(data);
    }
    if registry.len() == 0 && repository.len() == 0 {
        return Listing::Message(NO_SECRETS.to_owned());
    }
    let mut rows: Vec<SecretRow> = Vec::new();
    for i in 0..registry.len()
        invariant
            rows@.len() == i,
            forall|k: int|
                0 <= k < i ==> is_secret_row(#[trigger] rows@[k], registry@[k], "registry"@),
    {
        rows.push(to_row(&registry[i], "registry"));
    }
    for i in 0..repository.len()
        invariant
            rows@.len() == registry@.len() + i,
            forall|k: int|
                0 <= k < registry@.len() ==> is_secret_row(
                    #[trigger] rows@[k],
                    registry@[k],
                    "registry"@,
                ),
            forall|k: int|
                registry@.len() <= k < rows@.len() ==> is_secret_row(
                    #[trigger] rows@[k],
                    repository@[k - registry@.len()],
                    "repository"@,
                ),
    {
        rows.push(to_row(&repository[i], "repository"));
    }
    Listing::Rows(rows)
}

} // verus!
