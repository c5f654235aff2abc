//! Local and remote validation.
use partiri::client::{
    HealthCheckResult, Pod, Project, Region, Workspace,
};
use partiri::config::{ConfigOverride, PartiriConfig, ServiceConfig};
use partiri::error::text_error;
use partiri::validate::{
    collect_remote_checks, remote_requests, run, run_remote, static_check_rows, Balance, CheckRow,
    RemoteAnswers, Status,
};

#[test]
fn check_row_warn_is_not_fail() {
    let row = CheckRow::warn("remote.balance", "low balance");
    assert!(!row.is_fail(), "warn row must never be treated as fail");
}

#[test]
fn check_row_fail_is_fail() {
    let row = CheckRow::fail("remote.fk_workspace", "not found");
    assert!(row.is_fail());
}

#[test]
fn check_row_ok_is_not_fail() {
    let row = CheckRow::ok("remote.balance", "ok");
    assert!(!row.is_fail());
}

fn config() -> PartiriConfig {
    PartiriConfig {
        id: None,
        deploy_tag: None,
        fk_workspace: "ws-1".to_string(),
        fk_project: "proj-1".to_string(),
        service: ServiceConfig {
            name: "svc".to_string(),
            deploy_type: "webservice".to_string(),
            runtime: "node".to_string(),
            root_path: ".".to_string(),
            repository_url: Some("https://github.com/o/r".to_string()),
            repository_branch: Some("main".to_string()),
            build_command: Some("b".to_string()),
            run_command: Some("r".to_string()),
            fk_region: "region-1".to_string(),
            fk_pod: "pod-1".to_string(),
            ..ServiceConfig::default()
        },
    }
}

fn answers(amount: f64) -> RemoteAnswers {
    RemoteAnswers {
        workspaces: Ok(vec![Workspace {
            id: "ws-1".to_string(),
            name: "Acme".to_string(),
            email: None,
        }]),
        projects: Ok(vec![Project {
            id: "proj-1".to_string(),
            name: "web".to_string(),
            environment: "prod".to_string(),
            fk_workspace: None,
        }]),
        regions: Ok(vec![Region {
            id: "region-1".to_string(),
            name: "eu".to_string(),
            label: None,
            country_code: None,
        }]),
        pods: Ok(vec![Pod {
            id: "pod-1".to_string(),
            name: "s".to_string(),
            label: None,
            cpu: None,
            ram: None,
        }]),
        services: Ok(Vec::new()),
        branches: Ok(vec!["main".to_string()]),
        registry: Ok(true),
        balance: Ok(Balance { exhausted: amount <= 0.0, shown: format!("{amount:.2}") }),
        health: Ok(HealthCheckResult { status: Some(200), ok: true, error: false, attempts: 1 }),
    }
}

fn status_of(rows: &[CheckRow], field: &str) -> Status {
    match rows.iter().find(|r| r.field == field) {
        Some(r) => r.status,
        None => panic!("no row for {field}"),
    }
}

#[test]
fn balance_amount_le_zero_produces_warn_not_fail() {
    let warn = collect_remote_checks(&config(), &answers(-1.0_f64));
    assert_eq!(status_of(&warn, "remote.balance"), Status::Warn);

    let warn = collect_remote_checks(&config(), &answers(0.0_f64));
    assert_eq!(status_of(&warn, "remote.balance"), Status::Warn);

    let ok = collect_remote_checks(&config(), &answers(0.01_f64));
    assert_eq!(status_of(&ok, "remote.balance"), Status::Pass);
}

#[test]
fn everything_found_passes() {
    let (rows, outcome) = run_remote(&config(), &answers(5.0));
    assert!(outcome.is_ok());
    assert!(rows.iter().all(|r| !r.is_fail()), "{:?}", rows);
}

#[test]
fn what_is_missing_remotely_fails() {
    let mut c = config();
    c.fk_workspace = "ws-2".to_string();
    c.service.fk_pod = "pod-2".to_string();
    let (rows, outcome) = run_remote(&c, &answers(5.0));
    assert!(outcome.is_err());
    assert_eq!(status_of(&rows, "remote.fk_workspace"), Status::Fail);
    assert_eq!(status_of(&rows, "remote.fk_pod"), Status::Fail);
    let mut a = answers(5.0);
    a.workspaces = Err(text_error("offline"));
    let rows = collect_remote_checks(&config(), &a);
    assert_eq!(status_of(&rows, "remote.fk_workspace"), Status::Fail);
}

#[test]
fn requests_follow_the_configuration() {
    let asked = remote_requests(&config());
    assert!(asked.workspaces.path.starts_with("/workspaces"));
    assert!(asked.branches.is_some());
    assert!(asked.registry.is_none());
    assert!(asked.health.is_none());
}

#[test]
fn local_validation_reports_every_check() {
    let over = ConfigOverride::none();
    let (rows, outcome) = run(&config(), &over);
    assert!(outcome.is_ok());
    assert_eq!(rows.len(), static_check_rows(&config()).len());
    let mut c = config();
    c.service.name = String::new();
    let (rows, outcome) = run(&c, &over);
    assert!(outcome.is_err());
    assert_eq!(status_of(&rows, "name"), Status::Fail);
}

#[test]
fn rows_are_shown_by_their_status() {
    let row = CheckRow::fail("name", "Service name is required").into_row(true);
    assert_eq!(row.field, "name");
    assert_eq!(row.status, "fail");
    assert_eq!(row.message, "Service name is required");
}
