//! The commands that act on a running service: deploy, pause, unpause, kill,
//! logs and metrics.
use vstd::prelude::*;
use vstd::string::*;

use crate::client::{job_request, tagged, ApiClient, ApiRequest, Job, LogLine, LogsResponse, Service};
use crate::common::{confirm_action, Confirmation};
use crate::config::{not_created, ConfigOverride, PartiriConfig};
use crate::error::{bare, enriched_of, hinted, list1, validation_error, validation_of};
use crate::error::{CliError, CliErrorView, Failure, FailureView};
use crate::json::{array_view, items_view, json_view, opt_string_view, Json, JsonView};
use crate::jobs::{
    newest_first, newest_first_is_a_permutation, short_ref, short_ref_of, sort_newest_first,
};
use crate::output::{message_only, report, Ctx, Report, ReportView};
use crate::text::{cat3, opt_view};

verus! {

// ─── Deploy ────────────────────────────────────────────────────────────────

/// Whether to confirm a deploy; `name` is what the question calls the service.
pub fn confirm_deploy(ctx: Ctx, name: &str) -> (r: Confirmation)
    ensures
        ctx.yes <==> r is Proceed,
        !ctx.yes && ctx.no_input ==> r is Refuse && r->Refuse_0@ == FailureView::Cli(
            validation_of(
                "deploy requires confirmation. Pass --yes (or -y) to skip the prompt."@,
            ),
        ),
        !ctx.yes && !ctx.no_input ==> r is Ask && r->Ask_0@
            == "Are you sure you want to deploy service "@ + name@ + "?"@,
{
    if ctx.yes {
        return Confirmation::Proceed;
    }
    if ctx.no_input {
        return Confirmation::Refuse(
            validation_error("deploy requires confirmation. Pass --yes (or -y) to skip the prompt."),
        );
    }
    Confirmation::Ask(cat3("Are you sure you want to deploy service ", name, "?"))
}

/// The report on a deploy that was enqueued.
pub fn deployed_report() -> (r: Report)
    ensures
        r@ == (ReportView {
            message: "Deploy job created."@,
            data: None,
            notes: seq!["Check progress with 'partiri service jobs'"@],
        }),
{
    Report {
        message: "Deploy job created.".to_owned(),
        data: None,
        notes: list1("Check progress with 'partiri service jobs'"),
    }
}

// ─── Pause, unpause, kill ──────────────────────────────────────────────────

/// The jobs that change whether a service runs.
#[derive(Debug, Clone, Copy, PartialEq, Eq, Structural)]
pub enum Lifecycle {
    Pause,
    Unpause,
    Kill,
}

pub open spec fn verb(a: Lifecycle) -> Seq<char> {
    match a {
        Lifecycle::Pause => "pause"@,
        Lifecycle::Unpause => "unpause"@,
        Lifecycle::Kill => "kill"@,
    }
}

fn verb_text(a: Lifecycle) -> (r: &'static str)
    ensures
        r@ == verb(a),
{
    match a {
        Lifecycle::Pause => "pause",
        Lifecycle::Unpause => "unpause",
        Lifecycle::Kill => "kill",
    }
}

/// The confirmation of a job for the service of the configuration.
pub fn confirm_lifecycle(a: Lifecycle, config: &PartiriConfig, ctx: Ctx) -> (r: Result<
    Confirmation,
    Failure,
>)
    ensures
        r is Ok <==> config.id is Some,
        r is Err ==> r->Err_0@ == not_created(),
        r is Ok ==> {
            let c = r->Ok_0;
            &&& ctx.yes <==> c is Proceed
            &&& !ctx.yes && ctx.no_input ==> c is Refuse && c->Refuse_0@ == FailureView::Cli(
                validation_of(
                    verb(a) + " requires confirmation. Pass --yes (or -y) to skip the prompt."@,
                ),
            )
            &&& !ctx.yes && !ctx.no_input ==> c is Ask && c->Ask_0@ == "Are you sure you want to "@
                + verb(a) + " "@ + "service"@ + " "@ + config.id->0@ + "?"@
        },
{
    match config.id_or_err() {
        Ok(id) => Ok(confirm_action(ctx, verb_text(a), "service", id)),
        Err(e) => Err(e),
    }
}

/// The request that enqueues the job.
pub fn lifecycle_request(a: Lifecycle, id: &str) -> (r: ApiRequest)
    ensures
        r@ == job_request(verb(a), id@),
{
    match a {
        Lifecycle::Pause => ApiClient::pause_service(id),
        Lifecycle::Unpause => ApiClient::unpause_service(id),
        Lifecycle::Kill => ApiClient::kill_service(id),
    }
}

/// The report on a job that was enqueued.
pub fn lifecycle_report(a: Lifecycle) -> (r: Report)
    ensures
        r@ == message_only(
            match a {
                Lifecycle::Pause => "Pause job created."@,
                Lifecycle::Unpause => "Unpause job created."@,
                Lifecycle::Kill => "Kill job created."@,
            },
        ),
{
    let message = match a {
        Lifecycle::Pause => "Pause job created.",
        Lifecycle::Unpause => "Unpause job created.",
        Lifecycle::Kill => "Kill job created.",
    };
    report(message.to_owned())
}

// ─── Logs ──────────────────────────────────────────────────────────────────

/// How many log lines are shown: the newest of them.
pub const LINES: usize = 35;

/// The error for a configuration without a deploy tag.
pub open spec fn no_tag_error() -> CliErrorView {
    enriched_of(
        hinted(
            bare("missing_dependency"@, "No deploy_tag found in config."@),
            "Run 'partiri service pull' to refresh it after your latest deployment."@,
        ),
        None,
    )
}

/// The request for the logs of the latest deploy.
pub fn logs_request(config: &PartiriConfig) -> (r: Result<ApiRequest, Failure>)
    ensures
        r is Ok <==> config.id is Some && config.deploy_tag is Some,
        r is Ok ==> r->Ok_0@ == tagged("/logs/"@ + config.id->0@, Some(config.deploy_tag->0@)),
        config.id is None ==> r->Err_0@ == not_created(),
        config.id is Some && config.deploy_tag is None ==> r->Err_0@ == FailureView::Cli(
            no_tag_error(),
        ),
{
    let id = match config.id_or_err() {
        Ok(id) => id,
        Err(e) => {
            return Err(e);
        },
    };
    match &config.deploy_tag {
        Some(tag) => Ok(ApiClient::read_service_logs(id, Some(tag.as_str()))),
        None => Err(
            Failure::Cli(
                CliError::new("missing_dependency", "No deploy_tag found in config.").with_hint(
                    "Run 'partiri service pull' to refresh it after your latest deployment.",
                ).enriched(&ConfigOverride::none()),
            ),
        ),
    }
}

/// The newest lines, at most [`LINES`] of them, still oldest first.
pub open spec fn newest_lines(logs: Seq<LogLine>) -> Seq<LogLine> {
    if logs.len() > LINES {
        logs.skip(logs.len() - LINES)
    } else {
        logs
    }
}

/// Where the lines that are shown begin.
pub fn first_shown_line(logs: &Vec<LogLine>) -> (r: usize)
    ensures
        r <= logs@.len(),
        logs@.skip(r as int) == newest_lines(logs@),
{
    if logs.len() > LINES {
        logs.len() - LINES
    } else {
        assert(logs@.skip(0) =~= logs@);
        0
    }
}

pub open spec fn line_json(l: LogLine) -> JsonView {
    JsonView::Obj(
        seq![("timestamp"@, JsonView::Str(l.timestamp@)), ("message"@, JsonView::Str(l.message@))],
    )
}

/// The logs in JSON: the deploy tag and the newest lines.
pub open spec fn logs_json_of(tag: Seq<char>, logs: Seq<LogLine>) -> JsonView {
    JsonView::Obj(
        seq![
            ("deploy_tag"@, JsonView::Str(tag)),
            ("lines"@, JsonView::Arr(newest_lines(logs).map_values(|l: LogLine| line_json(l)))),
        ],
    )
}

pub fn logs_json(tag: &str, resp: &LogsResponse) -> (r: Json)
    ensures
        r@ == logs_json_of(tag@, resp.logs@),
{
    let logs = &resp.logs;
    let start: usize = first_shown_line(logs);
    let mut out: Vec<Json> = Vec::new();
    for i in start..logs.len()
        invariant
            start <= logs@.len(),
            out@.len() == i - start,
            forall|k: int|
                0 <= k < out@.len() ==> json_view(#[trigger] out@[k]) == line_json(logs@[start + k]),
    {
        let l = &logs[i];
        let item = Json::object().with("timestamp", Json::str(l.timestamp.as_str())).with(
            "message",
            Json::str(l.message.as_str()),
        );
        assert(item@->Obj_0 =~= line_json(*l)->Obj_0);
        out.push(item);
    }
    proof {
        array_view(out);
        assert(items_view(out@) =~= newest_lines(logs@).map_values(|l: LogLine| line_json(l)));
    }
    let r = Json::object().with("deploy_tag", Json::str(tag)).with("lines", Json::Arr(out));
    assert(r@->Obj_0 =~= logs_json_of(tag@, resp.logs@)->Obj_0);
    r
}

// ─── Metrics ───────────────────────────────────────────────────────────────

pub open spec fn job_json_of(j: Job) -> JsonView {
    JsonView::Obj(
        seq![
            ("type"@, JsonView::Str(j.job_type@)),
            ("status"@, JsonView::Str(j.status@)),
            ("deploy_ref"@, opt_string_view(opt_view(j.deploy_ref))),
            ("created_at"@, opt_string_view(opt_view(j.created_at))),
        ],
    )
}

/// The ten newest jobs in JSON.
pub open spec fn recent_jobs_of(jobs: Seq<Job>) -> JsonView {
    let sorted = newest_first(jobs);
    JsonView::Arr(
        (if sorted.len() > 10 {
            sorted.take(10)
        } else {
            sorted
        }).map_values(|j: Job| job_json_of(j)),
    )
}

pub fn recent_jobs_json(jobs: Vec<Job>) -> (r: Json)
    ensures
        r@ == recent_jobs_of(jobs@),
{
    let ghost all = jobs@;
    let sorted = sort_newest_first(jobs);
    let n: usize = if sorted.len() > 10 {
        10
    } else {
        sorted.len()
    };
    let mut out: Vec<Json> = Vec::new();
    for i in 0..n
        invariant
            n <= sorted@.len(),
            out@.len() == i,
            forall|k: int| 0 <= k < i ==> json_view(#[trigger] out@[k]) == job_json_of(sorted@[k]),
    {
        let j = &sorted[i];
        let item = Json::object().with("type", Json::str(j.job_type.as_str())).with(
            "status",
            Json::str(j.status.as_str()),
        ).with("deploy_ref", Json::opt(&j.deploy_ref)).with("created_at", Json::opt(&j.created_at));
        assert(item@->Obj_0 =~= job_json_of(*j)->Obj_0);
        out.push(item);
    }
    proof {
        array_view(out);
        assert(items_view(out@) =~= recent_jobs_of(all)->Arr_0);
    }
    Json::Arr(out)
}

/// The service part of the metrics in JSON.
pub open spec fn metrics_service_of(s: Service) -> JsonView {
    JsonView::Obj(
        seq![
            ("id"@, JsonView::Str(s.id@)),
            ("name"@, JsonView::Str(s.name@)),
            ("deploy_type"@, JsonView::Str(s.deploy_type@)),
            ("runtime"@, JsonView::Str(s.runtime@)),
            ("deploy_tag"@, opt_string_view(opt_view(s.deploy_tag))),
            ("external_sd_url"@, opt_string_view(opt_view(s.external_sd_url))),
        ],
    )
}

pub fn metrics_service_json(s: &Service) -> (r: Json)
    ensures
        r@ == metrics_service_of(*s),
{
    let r = Json::object().with("id", Json::str(s.id.as_str())).with(
        "name",
        Json::str(s.name.as_str()),
    ).with("deploy_type", Json::str(s.deploy_type.as_str())).with(
        "runtime",
        Json::str(s.runtime.as_str()),
    ).with("deploy_tag", Json::opt(&s.deploy_tag)).with(
        "external_sd_url",
        Json::opt(&s.external_sd_url),
    );
    assert(r@->Obj_0 =~= metrics_service_of(*s)->Obj_0);
    r
}

/// The most recent job, where there is one.
pub fn last_job(jobs: Vec<Job>) -> (r: Option<Job>)
    ensures
        r == (if jobs@.len() > 0 {
            Some(newest_first(jobs@)[0])
        } else {
            None
        }),
{
    proof {
        newest_first_is_a_permutation(jobs@);
    }
    let mut sorted = sort_newest_first(jobs);
    if sorted.len() > 0 {
        Some(sorted.remove(0))
    } else {
        None
    }
}

/// The `deploy_ref` part of the line on the last job.
pub open spec fn ref_suffix(job: Job) -> Seq<char> {
    match job.deploy_ref {
        Some(d) => " "@ + short_ref_of(d@),
        None => ""@,
    }
}

pub fn last_job_ref(job: &Job) -> (r: String)
    ensures
        r@ == ref_suffix(*job),
{
    match &job.deploy_ref {
        Some(d) => {
            let short = short_ref(d.as_str());
            crate::text::cat2(" ", short.as_str())
        },
        None => "".to_owned(),
    }
}

} // verus!
