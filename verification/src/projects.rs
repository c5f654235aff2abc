//! `partiri projects create`.
use vstd::prelude::*;
use vstd::string::*;

use crate::common::cancelled_error;
use crate::error::{validation_error, validation_of};
use crate::error::{CliError, Failure, FailureView};
use crate::output::{message_only, report, Ctx, Report};
use crate::text::{ascii_lower, cat3, str_eq, to_ascii_lowercase};

verus! {

/// The flags of `projects create`; what is absent is prompted for.
#[derive(Debug)]
pub struct CreateArgs {
    pub workspace: Option<String>,
    pub name: Option<String>,
    pub environment: Option<String>,
}

/// A value that is known, or that has to be asked for.
#[derive(Debug)]
pub enum Needed {
    Known(String),
    Ask,
}

/// The environment that a flag names, whatever its letter case.
pub open spec fn environment_of(input: Seq<char>) -> Option<Seq<char>> {
    let s = ascii_lower(input);
    if s == "dev"@ || s == "development"@ {
        Some("dev"@)
    } else if s == "staging"@ || s == "stage"@ {
        Some("staging"@)
    } else if s == "prod"@ || s == "production"@ {
        Some("prod"@)
    } else {
        None
    }
}

pub fn normalise_environment(input: &str) -> (r: Result<String, Failure>)
    ensures
        r is Ok <==> environment_of(input@) is Some,
        r is Ok ==> r->Ok_0@ == environment_of(input@)->0,
        r is Err ==> r->Err_0@ == FailureView::Text(
            "invalid --environment '"@ + input@ + "'. Allowed: dev, staging, prod."@,
        ),
{
    let lower = to_ascii_lowercase(input);
    let s = lower.as_str();
    if str_eq(s, "dev") || str_eq(s, "development") {
        Ok("dev".to_owned())
    } else if str_eq(s, "staging") || str_eq(s, "stage") {
        Ok("staging".to_owned())
    } else if str_eq(s, "prod") || str_eq(s, "production") {
        Ok("prod".to_owned())
    } else {
        Err(
            Failure::Text(
                cat3("invalid --environment '", input, "'. Allowed: dev, staging, prod."),
            ),
        )
    }
}

/// The name of the new project, from its flag; without a prompt it has to be
/// given.
pub fn project_name(name: Option<String>, ctx: Ctx) -> (r: Result<Needed, Failure>)
    ensures
        match name {
            Some(n) => r == Ok::<Needed, Failure>(Needed::Known(n)),
            None => if ctx.no_input {
                r is Err && r->Err_0@ == FailureView::Cli(
                    validation_of("--name is required when running non-interactively."@),
                )
            } else {
                r is Ok && r->Ok_0 is Ask
            },
        },
{
    match name {
        Some(n) => Ok(Needed::Known(n)),
        None => {
            if ctx.no_input {
                Err(validation_error("--name is required when running non-interactively."))
            } else {
                Ok(Needed::Ask)
            }
        },
    }
}

/// The environment of the new project, from its flag; without a prompt it has
/// to be given.
pub fn project_environment(environment: Option<String>, ctx: Ctx) -> (r: Result<Needed, Failure>)
    ensures
        match environment {
            Some(e) => match environment_of(e@) {
                Some(name) => r is Ok && r->Ok_0 is Known && r->Ok_0->Known_0@ == name,
                None => r is Err && r->Err_0@ == FailureView::Text(
                    "invalid --environment '"@ + e@ + "'. Allowed: dev, staging, prod."@,
                ),
            },
            None => if ctx.no_input {
                r is Err && r->Err_0@ == FailureView::Cli(
                    validation_of(
                        "--environment is required when running non-interactively. Allowed values: dev, staging, prod."@,
                    ),
                )
            } else {
                r is Ok && r->Ok_0 is Ask
            },
        },
{
    match environment {
        Some(e) => match normalise_environment(e.as_str()) {
            Ok(name) => Ok(Needed::Known(name)),
            Err(x) => Err(x),
        },
        None => {
            if ctx.no_input {
                Err(
                    validation_error(
                        "--environment is required when running non-interactively. Allowed values: dev, staging, prod.",
                    ),
                )
            } else {
                Ok(Needed::Ask)
            }
        },
    }
}

/// The environments that are offered, in order.
pub const ENVIRONMENT_CHOICES: [&'static str; 3] = ["Development", "Staging", "Production"];

/// The environment that was picked from [`ENVIRONMENT_CHOICES`] by position.
pub fn picked_environment(choice: usize) -> (r: &'static str)
    requires
        choice < 3,
    ensures
        r@ == (if choice == 0 {
            "dev"@
        } else if choice == 1 {
            "staging"@
        } else {
            "prod"@
        }),
{
    if choice == 0 {
        "dev"
    } else if choice == 1 {
        "staging"
    } else {
        "prod"
    }
}

/// The error for a prompt that was aborted.
pub fn cancelled() -> (r: Failure)
    ensures
        r@ == FailureView::Cli(cancelled_error()),
{
    Failure::Cli(CliError::new("cancelled", "Operation cancelled by user."))
}

/// The report on a project that was created.
pub fn created_report(name: &str) -> (r: Report)
    ensures
        r@ == message_only("Project '"@ + name@ + "' created."@),
{
    report(cat3("Project '", name, "' created."))
}

} // verus!
