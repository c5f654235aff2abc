//! `partiri service token`: link or clear the token for private repositories
//! and registries.
use vstd::prelude::*;
use vstd::string::*;

use crate::client::WorkspaceSecret;
use crate::common::label_index;
use crate::config::{given, PartiriConfig, ServiceConfig};
use crate::error::{text_error, validation_error, validation_of};
use crate::error::{Failure, FailureView};
use crate::output::Ctx;
use crate::text::{cat2, cat3, cat4, cat5, cat6, views};

verus! {

/// The flags of `service token`.
#[derive(Debug)]
pub struct TokenArgs {
    pub secret: Option<String>,
    pub clear: bool,
}

/// The configuration with another token.
pub open spec fn with_token(c: PartiriConfig, token: Option<String>) -> PartiriConfig {
    PartiriConfig { service: ServiceConfig { fk_service_secret: token, ..c.service }, ..c }
}

fn set_token(config: PartiriConfig, token: Option<String>) -> (r: PartiriConfig)
    ensures
        r == with_token(config, token),
{
    let mut out = config;
    out.service.fk_service_secret = token;
    out
}

/// What `service token` does.
#[derive(Debug)]
pub enum TokenPlan {
    /// Save this configuration and print the message.
    Save(PartiriConfig, String),
    /// Let the user pick a token: whether from the registry secrets (or else
    /// the repository secrets), and what to say of the present token.
    Pick(PartiriConfig, bool, String),
}

/// What to say after a change.
pub const APPLY_NOTE: &'static str = "Run 'partiri service push' to apply the change to Partiri.";

/// What to say of the token that is linked.
pub open spec fn current_token(c: PartiriConfig) -> Seq<char> {
    match c.service.fk_service_secret {
        Some(id) => "Current token: "@ + id@,
        None => "No authentication token is currently linked."@,
    }
}

/// `service token`: `--secret` links, `--clear` clears, and without either the
/// user picks, from the registry secrets where the service comes from a
/// registry.
pub fn run(config: PartiriConfig, args: TokenArgs, ctx: Ctx) -> (r: Result<TokenPlan, Failure>)
    ensures
        args.secret matches Some(id) ==> r is Ok && r->Ok_0 is Save && ({
            &&& r->Ok_0->Save_0 == with_token(config, Some(id))
            &&& r->Ok_0->Save_1@ == "Token "@ + id@ + " linked."@
        }),
        args.secret is None && args.clear ==> r is Ok && r->Ok_0 is Save && ({
            &&& r->Ok_0->Save_0 == with_token(config, None)
            &&& r->Ok_0->Save_1@ == "Authentication token cleared."@
        }),
        args.secret is None && !args.clear && ctx.no_input ==> r is Err && r->Err_0@
            == FailureView::Cli(
            validation_of(
                "service token requires --secret <UUID> or --clear when running non-interactively."@,
            ),
        ),
        args.secret is None && !args.clear && !ctx.no_input ==> r is Ok && r->Ok_0 is Pick && ({
            &&& r->Ok_0->Pick_0 == config
            &&& r->Ok_0->Pick_1 == given(config.service.registry_url)
            &&& r->Ok_0->Pick_2@ == current_token(config)
        }),
{
    match args.secret {
        Some(id) => {
            let message = cat3("Token ", id.as_str(), " linked.");
            return Ok(TokenPlan::Save(set_token(config, Some(id)), message));
        },
        None => {},
    }
    if args.clear {
        return Ok(
            TokenPlan::Save(set_token(config, None), "Authentication token cleared.".to_owned()),
        );
    }
    if ctx.no_input {
        return Err(
            validation_error(
                "service token requires --secret <UUID> or --clear when running non-interactively.",
            ),
        );
    }
    let registry = match &config.service.registry_url {
        Some(s) => !s.as_str().is_empty(),
        None => false,
    };
    let present = match &config.service.fk_service_secret {
        Some(id) => cat2("Current token: ", id.as_str()),
        None => "No authentication token is currently linked.".to_owned(),
    };
    Ok(TokenPlan::Pick(config, registry, present))
}

/// How a secret is offered.
pub open spec fn secret_label_of(s: WorkspaceSecret) -> Seq<char> {
    let name = match s.name {
        Some(n) => n@,
        None => "unnamed"@,
    };
    match s.provider {
        Some(p) => name + " ["@ + p@ + "] ("@ + s.id@ + ")"@,
        None => name + " ("@ + s.id@ + ")"@,
    }
}

pub fn secret_label(s: &WorkspaceSecret) -> (r: String)
    ensures
        r@ == secret_label_of(*s),
{
    let name = match &s.name {
        Some(n) => n.as_str(),
        None => "unnamed",
    };
    match &s.provider {
        Some(p) => cat6(name, " [", p.as_str(), "] (", s.id.as_str(), ")"),
        None => cat4(name, " (", s.id.as_str(), ")"),
    }
}

/// The first entry of the list, which clears the token.
pub const CLEAR_LABEL: &'static str = "-- none (clear token) --";

/// The list that is offered: the entry that clears, then the secrets.
pub open spec fn offered(secrets: Seq<WorkspaceSecret>) -> Seq<Seq<char>> {
    seq![CLEAR_LABEL@] + secrets.map_values(|s: WorkspaceSecret| secret_label_of(s))
}

/// The kind of the secrets on offer.
pub open spec fn source_kind(registry: bool) -> Seq<char> {
    if registry {
        "registry"@
    } else {
        "repository"@
    }
}

fn kind_name(registry: bool) -> (r: &'static str)
    ensures
        r@ == source_kind(registry),
{
    if registry {
        "registry"
    } else {
        "repository"
    }
}

/// The labels to pick from, or the warning and the advice where there is no
/// secret.
pub fn token_choices(secrets: &Vec<WorkspaceSecret>, registry: bool, fk_workspace: &str) -> (r:
    Result<Vec<String>, (String, String)>)
    ensures
        r is Ok <==> secrets@.len() > 0,
        r is Ok ==> views(r->Ok_0@) == offered(secrets@),
        r is Err ==> {
            &&& r->Err_0.0@ == "No "@ + source_kind(registry) + " secrets found in workspace "@
                + fk_workspace@ + "."@
            &&& r->Err_0.1@ == "Create one with 'partiri secrets create-"@ + source_kind(registry)
                + "' first."@
        },
{
    let kind = kind_name(registry);
    if secrets.len() == 0 {
        return Err(
            (
                cat5("No ", kind, " secrets found in workspace ", fk_workspace, "."),
                cat3("Create one with 'partiri secrets create-", kind, "' first."),
            ),
        );
    }
    let mut labels: Vec<String> = Vec::new();
    labels.push(CLEAR_LABEL.to_owned());
    for i in 0..secrets.len()
        invariant
            labels@.len() == i + 1,
            labels@[0]@ == CLEAR_LABEL@,
            forall|k: int|
                0 < k <= i ==> (#[trigger] labels@[k])@ == secret_label_of(secrets@[k - 1]),
    {
        labels.push(secret_label(&secrets[i]));
    }
    assert(views(labels@) =~= offered(secrets@));
    Ok(labels)
}

/// The configuration after a pick from the offered list, and the message. The
/// first entry clears the token, any other links its secret; no pick is an
/// aborted prompt.
pub fn picked_token(
    config: PartiriConfig,
    secrets: &Vec<WorkspaceSecret>,
    labels: &Vec<String>,
    choice: Option<String>,
) -> (r: Result<(PartiriConfig, String), Failure>)
    requires
        views(labels@) == offered(secrets@),
    ensures
        choice is None ==> r is Err && r->Err_0@ == FailureView::Text("Cancelled."@),
        choice matches Some(c) ==> {
            let at = label_index(offered(secrets@), c@, 0);
            if at >= labels@.len() {
                r is Err && r->Err_0@ == FailureView::Text("Selected token not found in list"@)
            } else if at == 0 {
                &&& r is Ok
                &&& r->Ok_0.0 == with_token(config, None)
                &&& r->Ok_0.1@ == "Authentication token cleared."@
            } else {
                &&& r is Ok
                &&& r->Ok_0.0 == with_token(config, Some(secrets@[at - 1].id))
                &&& r->Ok_0.1@ == "Token "@ + secrets@[at - 1].id@ + " linked."@
            }
        },
{
    match choice {
        None => Err(text_error("Cancelled.")),
        Some(c) => match crate::common::select_by_label(labels, Ok(c)) {
            Err(_) => Err(text_error("Selected token not found in list")),
            Ok(at) => {
                assert(offered(secrets@).len() == secrets@.len() + 1);
                assert(views(labels@).len() == labels@.len());
                if at == 0 {
                    Ok((set_token(config, None), "Authentication token cleared.".to_owned()))
                } else {
                    let id = secrets[at - 1].id.clone();
                    let message = cat3("Token ", id.as_str(), " linked.");
                    Ok((set_token(config, Some(id)), message))
                }
            },
        },
    }
}

} // verus!
