//! Dispatch, errors, confirmations and lists.
use partiri::cli::{
    exit_code_for, run, AuthCommands, Commands, LlmCommands, McpCommands, ServiceCommands, Setup,
    StorageCommands, Task,
};
use partiri::client::{Job, Pod, PodPrice, Project, Region, RegionPricing, Workspace};
use partiri::common::{
    confirm_action, confirmed, resolve_project, resolve_workspace, select_by_label, Confirmation,
    Resolved,
};
use partiri::config::{ConfigOverride, PartiriConfig, ServiceConfig};
use partiri::error::{
    extract_cli_error, lookup_metadata, text_error, validation_error, validation_error_with_hint,
    CliError, Failure,
};
use partiri::jobs::{jobs_request, run_list, short_ref, sort_newest_first};
use partiri::listings::{list_pods, list_projects, list_regions, list_workspaces};
use partiri::output::{Ctx, Listing};
use partiri::projects::{
    cancelled, created_report, normalise_environment, picked_environment, project_environment,
    project_name, Needed,
};

const TEXT: Ctx = Ctx { json: false, yes: false, no_input: false };
const YES: Ctx = Ctx { json: false, yes: true, no_input: true };
const JSON: Ctx = Ctx { json: true, yes: false, no_input: false };
const NO_INPUT: Ctx = Ctx { json: false, yes: false, no_input: true };

// ─── Dispatch ──────────────────────────────────────────────────────────────

#[test]
fn offline_commands_need_nothing() {
    let (setup, task) = run(Commands::Init { template: true });
    assert!(matches!(setup, Setup::Nothing));
    assert!(matches!(task, Task::Init(a) if a.template));
    let (setup, _) = run(Commands::Llm(LlmCommands::Schema));
    assert!(matches!(setup, Setup::Nothing));
    let (setup, _) = run(Commands::Mcp(McpCommands::Install { client: None }));
    assert!(matches!(setup, Setup::Nothing));
    let (setup, _) = run(Commands::Auth { cmd: AuthCommands::Login { force: true } });
    assert!(matches!(setup, Setup::Nothing));
}

#[test]
fn commands_set_up_what_they_use() {
    let (setup, task) = run(Commands::Validate { remote: false });
    assert!(matches!((setup, task), (Setup::Config, Task::Validate)));
    let (setup, task) = run(Commands::Validate { remote: true });
    assert!(matches!((setup, task), (Setup::ConfigThenClient, Task::ValidateRemote)));
    let deploy = ServiceCommands::Deploy { service: Some("s".to_string()) };
    let (setup, task) = run(Commands::Service(deploy));
    assert!(matches!((setup, task), (Setup::Client, Task::DeployById(id)) if id == "s"));
    let (setup, task) = run(Commands::Service(ServiceCommands::Deploy { service: None }));
    assert!(matches!((setup, task), (Setup::ClientThenConfig, Task::Deploy)));
    let (setup, task) = run(Commands::Storage(StorageCommands::Create));
    assert!(matches!((setup, task), (Setup::ClientThenConfig, Task::StorageCreate)));
    let (setup, task) = run(Commands::Storage(StorageCommands::Show { id: "v".to_string() }));
    assert!(matches!((setup, task), (Setup::Client, Task::StorageShow(id)) if id == "v"));
}

#[test]
fn cancellation_has_its_own_exit_code() {
    assert_eq!(exit_code_for(&cancelled()), 2);
    assert_eq!(exit_code_for(&text_error(" Cancelled.\n")), 2);
    assert_eq!(exit_code_for(&text_error("boom")), 1);
    assert_eq!(exit_code_for(&validation_error("x")), 1);
}

// ─── Errors ────────────────────────────────────────────────────────────────

#[test]
fn errors_read_as_text() {
    let plain = CliError::new("validation", "bad name").with_hint("  pick another \n");
    assert_eq!(plain.to_text(), "bad name\n  pick another");
    assert!(!plain.is_http());
    let http = CliError::new("404", "gone");
    assert!(http.is_http());
    assert_eq!(http.to_text(), "API error 404 — gone");
    assert!(CliError::new("x", "y").with_hint(" \n").hint.is_none());
    assert!(!CliError::new("99", "").is_http());
    assert!(!CliError::new("1000", "").is_http());
}

#[test]
fn enrichment_fills_only_what_is_empty() {
    let over = ConfigOverride::none();
    let (causes, commands) = lookup_metadata("401", &over);
    assert!(!causes.is_empty() && !commands.is_empty());
    let once = CliError::new("401", "no").enriched(&over);
    assert_eq!(once.likely_causes, causes);
    let mut own = CliError::new("401", "no");
    own.likely_causes = vec!["mine".to_string()];
    let own = own.enriched(&over);
    assert_eq!(own.likely_causes, ["mine"]);
    assert_eq!(own.suggested_commands, commands);
    let twice = once.copied().enriched(&over);
    assert_eq!(twice.likely_causes, once.likely_causes);
}

#[test]
fn plain_messages_become_structured_errors() {
    let e = extract_cli_error(&text_error("boom"));
    assert_eq!(e.message, "boom");
    let e = extract_cli_error(&validation_error_with_hint("bad", "fix it"));
    assert_eq!(e.code, "validation");
    assert_eq!(e.hint.as_deref(), Some("fix it"));
}

// ─── Confirmations and choices ─────────────────────────────────────────────

#[test]
fn actions_are_confirmed_or_refused() {
    assert!(matches!(confirm_action(YES, "kill", "service", "s"), Confirmation::Proceed));
    assert!(matches!(confirm_action(NO_INPUT, "kill", "service", "s"), Confirmation::Refuse(_)));
    match confirm_action(TEXT, "kill", "service", "s") {
        Confirmation::Ask(q) => assert_eq!(q, "Are you sure you want to kill service s?"),
        _ => panic!("expected a question"),
    }
    assert!(confirmed(Some(true)).is_ok());
    assert!(confirmed(Some(false)).is_err());
    assert!(confirmed(None).is_err());
}

fn workspace(id: &str) -> Workspace {
    Workspace { id: id.to_string(), name: format!("name-{id}"), email: None }
}

fn project(id: &str) -> Project {
    Project {
        id: id.to_string(),
        name: format!("name-{id}"),
        environment: "dev".to_string(),
        fk_workspace: None,
    }
}

#[test]
fn a_single_workspace_needs_no_choice() {
    assert!(matches!(resolve_workspace(&vec![workspace("a")], NO_INPUT), Ok(Resolved::One(id)) if id == "a"));
    assert!(resolve_workspace(&Vec::new(), TEXT).is_err());
    assert!(resolve_workspace(&vec![workspace("a"), workspace("b")], NO_INPUT).is_err());
    match resolve_workspace(&vec![workspace("a"), workspace("b")], TEXT) {
        Ok(Resolved::Ask(labels)) => {
            assert_eq!(labels, ["name-a (a)", "name-b (b)"]);
            assert_eq!(select_by_label(&labels, Ok(labels[1].clone())).unwrap(), 1);
            assert!(select_by_label(&labels, Ok("?".to_string())).is_err());
            let aborted = select_by_label(&labels, Err("esc".to_string())).unwrap_err();
            assert_eq!(aborted.to_text(), "Selection cancelled: esc");
        }
        other => panic!("expected a choice, got {other:?}"),
    }
    assert!(matches!(resolve_project(&vec![project("p")], NO_INPUT), Ok(Resolved::One(id)) if id == "p"));
}

// ─── Projects ──────────────────────────────────────────────────────────────

#[test]
fn environments_have_short_names() {
    for (given, expected) in [
        ("dev", "dev"),
        ("Development", "dev"),
        ("STAGE", "staging"),
        ("staging", "staging"),
        ("production", "prod"),
        ("Prod", "prod"),
    ] {
        assert_eq!(normalise_environment(given).unwrap(), expected);
    }
    assert_eq!(
        normalise_environment("qa").unwrap_err().to_text(),
        "invalid --environment 'qa'. Allowed: dev, staging, prod."
    );
    assert_eq!(picked_environment(0), "dev");
    assert_eq!(picked_environment(1), "staging");
    assert_eq!(picked_environment(2), "prod");
}

#[test]
fn projects_need_a_name_and_an_environment() {
    assert!(matches!(project_name(Some("p".to_string()), NO_INPUT), Ok(Needed::Known(n)) if n == "p"));
    assert!(matches!(project_name(None, TEXT), Ok(Needed::Ask)));
    assert!(project_name(None, NO_INPUT).is_err());
    assert!(matches!(project_environment(Some("PROD".to_string()), TEXT), Ok(Needed::Known(e)) if e == "prod"));
    assert!(project_environment(Some("qa".to_string()), TEXT).is_err());
    assert!(project_environment(None, NO_INPUT).is_err());
    assert!(created_report("web").message.contains("web"));
}

// ─── Lists ─────────────────────────────────────────────────────────────────

fn job(id: &str, created_at: Option<&str>) -> Job {
    Job {
        id: id.to_string(),
        fk_service: "s".to_string(),
        job_type: "deploy".to_string(),
        status: "open".to_string(),
        deploy_ref: Some("0123456789".to_string()),
        created_at: created_at.map(str::to_string),
        updated_at: None,
    }
}

#[test]
fn jobs_are_sorted_newest_first_and_stably() {
    let jobs = vec![
        job("a", Some("2024-01-02")),
        job("b", None),
        job("c", Some("2024-01-03")),
        job("d", Some("2024-01-02")),
        job("e", None),
    ];
    let mut expected: Vec<(Option<String>, String)> =
        jobs.iter().map(|j| (j.created_at.clone(), j.id.clone())).collect();
    expected.sort_by(|x, y| y.0.cmp(&x.0));
    let sorted: Vec<(Option<String>, String)> =
        sort_newest_first(jobs).into_iter().map(|j| (j.created_at, j.id)).collect();
    assert_eq!(sorted, expected);
    assert_eq!(short_ref("0123456789"), "0123456");
    assert_eq!(short_ref("abc"), "abc");
}

#[test]
fn jobs_are_listed() {
    let config = |id: Option<&str>| PartiriConfig {
        id: id.map(str::to_string),
        deploy_tag: None,
        fk_workspace: String::new(),
        fk_project: String::new(),
        service: ServiceConfig::default(),
    };
    assert_eq!(jobs_request(&config(Some("s"))).unwrap().path, "/jobs/services/s");
    assert!(jobs_request(&config(None)).is_err());
    match run_list(vec![job("a", Some("1")), job("b", Some("2"))], TEXT) {
        Listing::Rows(rows) => {
            assert_eq!(rows[0].created_at.as_deref(), Some("2"));
            assert_eq!(rows[0].deploy_ref, "0123456");
        }
        _ => panic!("expected rows"),
    }
}

#[test]
fn resources_are_listed() {
    assert!(matches!(list_workspaces(&vec![workspace("a")], TEXT), Listing::Rows(r) if r[0].id == "a"));
    assert!(matches!(list_projects(&vec![project("p")], TEXT), Listing::Rows(r) if r[0].environment == "dev"));
    let region = Region {
        id: "r".to_string(),
        name: "eu".to_string(),
        label: None,
        country_code: Some("NL".to_string()),
    };
    assert!(matches!(list_regions(&vec![region], TEXT), Listing::Rows(r) if r[0].country == "NL"));
    assert!(!matches!(list_regions(&Vec::new(), TEXT), Listing::Rows(_)));
    let pod = || Pod {
        id: "p".to_string(),
        name: "s".to_string(),
        label: None,
        cpu: None,
        ram: None,
    };
    let pricing = Some(RegionPricing {
        pods: vec![PodPrice {
            fk_pod: "p".to_string(),
            price: "4.50".to_string(),
            per_minute: "0".to_string(),
        }],
        volume_price_per_gb: "1".to_string(),
    });
    match list_pods(&vec![pod()], true, &pricing, TEXT) {
        Listing::Rows(rows) => assert_eq!(rows[0].price_eur_month.as_deref(), Some("4.50")),
        _ => panic!("expected rows"),
    }
    match list_pods(&vec![pod()], false, &None, JSON) {
        Listing::Rows(rows) => assert!(rows[0].price_eur_month.is_none()),
        _ => panic!("expected rows"),
    }
    let kept: Failure = text_error("x");
    assert_eq!(kept.to_text(), "x");
}
