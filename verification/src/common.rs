//! Decisions that several commands share: confirmation, picking one item from
//! a list, and which workspace and project a command works on.
use vstd::prelude::*;
use vstd::string::*;

use crate::client::{Project, Workspace};
use crate::error::{bare, text_error, validation_error, validation_of};
use crate::error::{CliError, CliErrorView, Failure, FailureView};
use crate::output::Ctx;
use crate::text::{cat2, cat4, cat5, cat6, str_eq, views};

verus! {

/// What to do before an action that needs a confirmation.
#[derive(Debug)]
pub enum Confirmation {
    /// Go ahead.
    Proceed,
    /// Stop with this error.
    Refuse(Failure),
    /// Ask this question; the answer decides (see [`confirmed`]).
    Ask(String),
}

/// The error for a declined or aborted action.
pub open spec fn cancelled_error() -> CliErrorView {
    bare("cancelled"@, "Operation cancelled by user."@)
}

/// Whether to confirm an action: `--yes` goes ahead, `--no-input` refuses, and
/// otherwise the user is asked.
pub fn confirm_action(ctx: Ctx, action: &str, subject: &str, id: &str) -> (r: Confirmation)
    ensures
        ctx.yes <==> r is Proceed,
        !ctx.yes && ctx.no_input ==> r is Refuse && r->Refuse_0@ == FailureView::Cli(
            validation_of(
                action@ + " requires confirmation. Pass --yes (or -y) to skip the prompt."@,
            ),
        ),
        !ctx.yes && !ctx.no_input ==> r is Ask && r->Ask_0@ == "Are you sure you want to "@
            + action@ + " "@ + subject@ + " "@ + id@ + "?"@,
{
    if ctx.yes {
        return Confirmation::Proceed;
    }
    if ctx.no_input {
        let message = cat2(
            action,
            " requires confirmation. Pass --yes (or -y) to skip the prompt.",
        );
        return Confirmation::Refuse(validation_error(message.as_str()));
    }
    let mut question = cat6("Are you sure you want to ", action, " ", subject, " ", id);
    question.append("?");
    Confirmation::Ask(question)
}

/// What the answer to a confirmation means. No answer at all is an aborted
/// prompt.
pub fn confirmed(answer: Option<bool>) -> (r: Result<(), Failure>)
    ensures
        r is Ok <==> answer == Some(true),
        r is Err ==> r->Err_0@ == FailureView::Cli(cancelled_error()),
{
    match answer {
        Some(true) => Ok(()),
        _ => Err(Failure::Cli(CliError::new("cancelled", "Operation cancelled by user."))),
    }
}

/// The first position at or after `from` at which `labels` holds `label`, or
/// their number.
pub open spec fn label_index(labels: Seq<Seq<char>>, label: Seq<char>, from: int) -> int
    decreases labels.len() - from,
{
    if from >= labels.len() {
        labels.len() as int
    } else if labels[from] == label {
        from
    } else {
        label_index(labels, label, from + 1)
    }
}

/// The item that was picked by its label: the first that carries it. An
/// aborted prompt gives the reason in place of the label.
pub fn select_by_label(labels: &Vec<String>, choice: Result<String, String>) -> (r: Result<
    usize,
    Failure,
>)
    ensures
        r is Ok <==> choice is Ok && label_index(views(labels@), choice->Ok_0@, 0) < labels@.len(),
        r is Ok ==> r->Ok_0 as int == label_index(views(labels@), choice->Ok_0@, 0),
        r is Ok ==> r->Ok_0 < labels@.len() && labels@[r->Ok_0 as int]@ == choice->Ok_0@,
        choice is Err ==> r->Err_0@ == FailureView::Text(
            "Selection cancelled: "@ + choice->Err_0@,
        ),
        choice is Ok && r is Err ==> r->Err_0@ == FailureView::Text(
            "Selection not found in list"@,
        ),
{
    match choice {
        Ok(label) => {
            let mut i: usize = 0;
            while i < labels.len() && !str_eq(labels[i].as_str(), label.as_str())
                invariant
                    i <= labels@.len(),
                    label_index(views(labels@), label@, 0) == label_index(
                        views(labels@),
                        label@,
                        i as int,
                    ),
                decreases labels@.len() - i,
            {
                i += 1;
            }
            if i < labels.len() {
                Ok(i)
            } else {
                Err(text_error("Selection not found in list"))
            }
        },
        Err(why) => Err(Failure::Text(cat2("Selection cancelled: ", why.as_str()))),
    }
}

/// How a choice among several records is made.
#[derive(Debug)]
pub enum Resolved {
    /// There is only one: its id.
    One(String),
    /// Let the user pick from these labels, one per record.
    Ask(Vec<String>),
}

/// How a workspace is offered: by name and id, since only the primary
/// workspace has an email.
pub open spec fn workspace_label(w: Workspace) -> Seq<char> {
    w.name@ + " ("@ + w.id@ + ")"@
}

pub open spec fn project_label(p: Project) -> Seq<char> {
    p.name@ + " ["@ + p.environment@ + "] ("@ + p.id@ + ")"@
}

/// The labels of some workspaces, in their order.
pub fn workspace_labels(workspaces: &Vec<Workspace>) -> (r: Vec<String>)
    ensures
        views(r@) == workspaces@.map_values(|w: Workspace| workspace_label(w)),
{
    let mut labels: Vec<String> = Vec::new();
    for i in 0..workspaces.len()
        invariant
            labels@.len() == i,
            forall|k: int| 0 <= k < i ==> (#[trigger] labels@[k])@ == workspace_label(workspaces@[k]),
    {
        let w = &workspaces[i];
        labels.push(cat4(w.name.as_str(), " (", w.id.as_str(), ")"));
    }
    assert(views(labels@) =~= workspaces@.map_values(|w: Workspace| workspace_label(w)));
    labels
}

/// The labels of some projects, in their order.
pub fn project_labels(projects: &Vec<Project>) -> (r: Vec<String>)
    ensures
        views(r@) == projects@.map_values(|p: Project| project_label(p)),
{
    let mut labels: Vec<String> = Vec::new();
    for i in 0..projects.len()
        invariant
            labels@.len() == i,
            forall|k: int| 0 <= k < i ==> (#[trigger] labels@[k])@ == project_label(projects@[k]),
    {
        let p = &projects[i];
        let mut label = cat5(p.name.as_str(), " [", p.environment.as_str(), "] (", p.id.as_str());
        label.append(")");
        labels.push(label);
    }
    assert(views(labels@) =~= projects@.map_values(|p: Project| project_label(p)));
    labels
}

/// The workspace to work in: the only one, or the one that the user picks.
pub fn resolve_workspace(workspaces: &Vec<Workspace>, ctx: Ctx) -> (r: Result<Resolved, Failure>)
    ensures
        workspaces@.len() == 0 ==> r is Err && r->Err_0@ == FailureView::Text(
            "No workspaces found. Create one at https://partiri.cloud"@,
        ),
        workspaces@.len() == 1 ==> r is Ok && r->Ok_0 is One && r->Ok_0->One_0 == workspaces@[0].id,
        workspaces@.len() > 1 && ctx.no_input ==> r is Err && r->Err_0@ == FailureView::Text(
            "Multiple workspaces — pass --workspace <UUID>. Run 'partiri workspaces list' to see them."@,
        ),
        workspaces@.len() > 1 && !ctx.no_input ==> r is Ok && r->Ok_0 is Ask && views(
            r->Ok_0->Ask_0@,
        ) == workspaces@.map_values(|w: Workspace| workspace_label(w)),
{
    if workspaces.len() == 0 {
        return Err(text_error("No workspaces found. Create one at https://partiri.cloud"));
    }
    if workspaces.len() == 1 {
        return Ok(Resolved::One(workspaces[0].id.clone()));
    }
    if ctx.no_input {
        return Err(
            text_error(
                "Multiple workspaces — pass --workspace <UUID>. Run 'partiri workspaces list' to see them.",
            ),
        );
    }
    Ok(Resolved::Ask(workspace_labels(workspaces)))
}

/// The project to work on: the only one, or the one that the user picks.
pub fn resolve_project(projects: &Vec<Project>, ctx: Ctx) -> (r: Result<Resolved, Failure>)
    ensures
        projects@.len() == 0 ==> r is Err && r->Err_0@ == FailureView::Text(
            "No projects found in this workspace."@,
        ),
        projects@.len() == 1 ==> r is Ok && r->Ok_0 is One && r->Ok_0->One_0 == projects@[0].id,
        projects@.len() > 1 && ctx.no_input ==> r is Err && r->Err_0@ == FailureView::Text(
            "Multiple projects — pass --project <UUID>. Run 'partiri projects list' to see them."@,
        ),
        projects@.len() > 1 && !ctx.no_input ==> r is Ok && r->Ok_0 is Ask && views(r->Ok_0->Ask_0@)
            == projects@.map_values(|p: Project| project_label(p)),
{
    if projects.len() == 0 {
        return Err(text_error("No projects found in this workspace."));
    }
    if projects.len() == 1 {
        return Ok(Resolved::One(projects[0].id.clone()));
    }
    if ctx.no_input {
        return Err(
            text_error(
                "Multiple projects — pass --project <UUID>. Run 'partiri projects list' to see them.",
            ),
        );
    }
    Ok(Resolved::Ask(project_labels(projects)))
}

} // verus!
