//! Requests to the API and what is made of its responses.
use partiri::client::{
    error_message, handle_response, handle_response_empty, retry_wait, service_json, status_error,
    transport_error, update_body, volume_body, ApiClient, ApiRequest, Job, Method, PaginatedJobs,
    Project, Service, Volume, VolumeUpdate, Workspace,
};
use partiri::config::{DiskConfig, ServiceConfig};
use partiri::error::Failure;
use partiri::json::Json;
use partiri::mcp::write_config;

fn text(json: &Json) -> String {
    write_config(json).unwrap()
}

fn value(json: &Json) -> serde_json::Value {
    serde_json::from_str(&text(json)).unwrap()
}

fn body(req: &ApiRequest) -> serde_json::Value {
    value(req.body.as_ref().unwrap())
}

fn json(s: &str) -> serde_json::Value {
    serde_json::from_str(s).unwrap()
}

fn has_query(req: &ApiRequest, key: &str, value: &str) -> bool {
    req.query.contains(&(key.to_string(), value.to_string()))
}

fn volume(id: Option<&str>, fk_service: Option<&str>) -> Volume {
    Volume {
        id: id.map(str::to_string),
        name: "svc-disk".into(),
        fk_project: "proj-1".into(),
        fk_workspace: "ws-1".into(),
        fk_region: "reg-1".into(),
        fk_service: fk_service.map(str::to_string),
        mount_path: "/app/data".into(),
        size: 3,
        status: "pending".into(),
        created_at: None,
    }
}

// ─── Lists ─────────────────────────────────────────────────────────────────

#[test]
fn list_workspaces_success_parses_response() {
    let req = ApiClient::list_workspaces();
    assert!(matches!(req.method, Method::Get));
    assert_eq!(req.path, "/workspaces");
    let reply = r#"[{"id": "ws-1", "name": "My Workspace", "email": "user@example.com"}]"#;
    let parsed = vec![Workspace {
        id: "ws-1".to_string(),
        name: "My Workspace".to_string(),
        email: Some("user@example.com".to_string()),
    }];
    let result = handle_response(200, Ok(reply.to_string()), Ok(parsed)).unwrap();
    assert_eq!(result.len(), 1);
    assert_eq!(result[0].id, "ws-1");
    assert_eq!(result[0].name, "My Workspace");
    assert_eq!(result[0].email.as_deref(), Some("user@example.com"));
}

#[test]
fn list_workspaces_empty_array_returns_empty_vec() {
    let parsed: Vec<Workspace> = Vec::new();
    let result = handle_response(200, Ok("[]".to_string()), Ok(parsed)).unwrap();
    assert!(result.is_empty());
}

#[test]
fn list_projects_includes_workspace_query_param() {
    let req = ApiClient::list_projects("ws-uuid-123");
    assert!(matches!(req.method, Method::Get));
    assert_eq!(req.path, "/projects");
    assert!(has_query(&req, "workspace", "ws-uuid-123"));
    let parsed = vec![Project {
        id: "proj-1".to_string(),
        name: "My Project".to_string(),
        environment: "production".to_string(),
        fk_workspace: Some("ws-uuid-123".to_string()),
    }];
    let result = handle_response(200, Ok(String::new()), Ok(parsed)).unwrap();
    assert_eq!(result.len(), 1);
    assert_eq!(result[0].name, "My Project");
}

#[test]
fn list_services_sends_explicit_limit_query_param() {
    let req = ApiClient::list_services("proj-uuid-1", 50);
    assert!(matches!(req.method, Method::Get));
    assert_eq!(req.path, "/services");
    assert!(has_query(&req, "project", "proj-uuid-1"));
    assert!(has_query(&req, "limit", "50"));
}

fn job(id: &str, job_type: &str, status: &str, deploy_ref: Option<&str>) -> Job {
    Job {
        id: id.to_string(),
        fk_service: "svc-42".to_string(),
        job_type: job_type.to_string(),
        status: status.to_string(),
        deploy_ref: deploy_ref.map(str::to_string),
        created_at: Some("2025-03-18T10:00:00Z".to_string()),
        updated_at: None,
    }
}

#[test]
fn list_service_jobs_parses_paginated_response() {
    let req = ApiClient::list_service_jobs("svc-42");
    assert!(matches!(req.method, Method::Get));
    assert_eq!(req.path, "/jobs/services/svc-42");
    let page = PaginatedJobs {
        data: vec![
            job("job-1", "deploy", "succeeded", Some("abc1234def5678")),
            job("job-2", "kill", "open", None),
        ],
        total: 2,
    };
    let jobs = page.jobs();
    assert_eq!(jobs.len(), 2);
    assert_eq!(jobs[0].id, "job-1");
    assert_eq!(jobs[0].job_type, "deploy");
    assert_eq!(jobs[0].status, "succeeded");
    assert_eq!(jobs[0].deploy_ref.as_deref(), Some("abc1234def5678"));
    assert_eq!(jobs[1].job_type, "kill");
    assert!(jobs[1].deploy_ref.is_none());
}

#[test]
fn list_service_jobs_empty_data_returns_empty_vec() {
    assert!(PaginatedJobs { data: Vec::new(), total: 0 }.jobs().is_empty());
}

// ─── Failing statuses ──────────────────────────────────────────────────────

#[test]
fn status_401_includes_partiri_key_hint() {
    let err = error_message(401, r#"{"message": "Unauthorized"}"#).to_text();
    assert!(err.contains("401"), "should mention 401: {err}");
    assert!(
        err.contains("partiri auth"),
        "should include auth hint: {err}"
    );
}

#[test]
fn status_403_includes_permission_or_limit_hint() {
    let err = error_message(403, r#"{"message": "Forbidden"}"#).to_text();
    assert!(err.contains("403"), "{err}");
    assert!(
        err.contains("permission") && err.contains("limit"),
        "should include permission and limit hint: {err}"
    );
}

#[test]
fn status_404_includes_not_found_hint() {
    let err = error_message(404, "not found").to_text();
    assert!(err.contains("404"), "{err}");
    assert!(
        err.to_lowercase().contains("not found") || err.contains("resource"),
        "should include not-found hint: {err}"
    );
}

#[test]
fn status_402_includes_balance_hint() {
    let req = ApiClient::deploy_service("svc-1");
    assert!(matches!(req.method, Method::Post));
    assert_eq!(req.path, "/jobs/services/deploy/svc-1");
    let err =
        error_message(402, r#"{"message": "Insufficient balance to deploy this service"}"#)
            .to_text();
    assert!(err.contains("402"), "should mention 402: {err}");
    assert!(
        err.contains("balance"),
        "should include balance hint: {err}"
    );
}

#[test]
fn status_409_includes_conflict_hint() {
    let req = ApiClient::unpause_service("svc-1");
    assert!(matches!(req.method, Method::Post));
    assert_eq!(req.path, "/jobs/services/unpause/svc-1");
    let err = handle_response_empty(409, r#"{"message": "Active job already exists for this service"}"#)
        .unwrap_err()
        .to_text();
    assert!(err.contains("409"), "should mention 409: {err}");
    assert!(
        err.contains("conflicting operation"),
        "should include conflict hint: {err}"
    );
}

#[test]
fn status_400_includes_validation_hint() {
    let err = error_message(400, r#"{"message": "Invalid health check URL"}"#).to_text();
    assert!(err.contains("400"), "should mention 400: {err}");
    assert!(
        err.contains("configuration values"),
        "should include validation hint: {err}"
    );
}

#[test]
fn status_429_includes_rate_limit_hint() {
    let mut attempts: u32 = 0;
    while retry_wait(429, None, attempts).is_some() {
        attempts += 1;
    }
    assert_eq!(attempts, 3);
    let err = error_message(429, r#"{"message": "Too many requests"}"#).to_text();
    assert!(err.contains("429"), "should mention 429: {err}");
    assert!(
        err.contains("Rate limit"),
        "should include rate limit hint: {err}"
    );
}

#[test]
fn status_500_includes_server_error_hint() {
    let err = error_message(500, r#"{"message": "Internal server error"}"#).to_text();
    assert!(err.contains("500"), "should mention 500: {err}");
    assert!(
        err.contains("server-side error"),
        "should include server error hint: {err}"
    );
}

#[test]
fn json_message_field_extracted_from_error_body() {
    let err = error_message(400, r#"{"message": "Workspace limit exceeded"}"#).to_text();
    assert!(
        err.contains("Workspace limit exceeded"),
        "should extract message field: {err}"
    );
    assert!(!err.contains("\"message\""), "{err}");
}

#[test]
fn non_json_error_body_returned_raw() {
    let err = error_message(503, "<html>Service Unavailable</html>").to_text();
    assert!(
        err.contains("Service Unavailable") || err.contains("503"),
        "should include raw body or status: {err}"
    );
}

#[test]
fn statuses_without_a_hint_have_none() {
    match status_error(418, Some("teapot")) {
        Failure::Cli(e) => {
            assert_eq!(e.code, "418");
            assert_eq!(e.message, "teapot");
            assert!(e.hint.is_none());
        }
        Failure::Text(t) => panic!("expected a coded error, got {t}"),
    }
}

#[test]
fn retries_wait_as_asked_or_double() {
    assert_eq!(retry_wait(429, None, 0), Some(1));
    assert_eq!(retry_wait(429, None, 1), Some(2));
    assert_eq!(retry_wait(429, None, 2), Some(4));
    assert_eq!(retry_wait(429, None, 3), None);
    assert_eq!(retry_wait(429, Some("7"), 0), Some(7));
    assert_eq!(retry_wait(429, Some("soon"), 1), Some(2));
    assert_eq!(retry_wait(200, Some("7"), 0), None);
    assert_eq!(retry_wait(503, None, 0), None);
}

#[test]
fn responses_that_cannot_be_read_are_errors() {
    let unread = handle_response::<u8>(200, Err("reset".to_string()), Err(String::new()));
    assert_eq!(unread.unwrap_err().to_text(), "Failed to read response: reset");
    let long = "x".repeat(300);
    let broken = handle_response::<u8>(200, Ok(long), Err("expected value".to_string()));
    assert_eq!(
        broken.unwrap_err().to_text(),
        format!("Failed to parse API response: expected value\n  Body: {}", "x".repeat(200))
    );
    assert!(handle_response_empty(204, "").is_ok());
    assert!(transport_error("dns").to_text().contains("dns"));
}

// ─── Logs and metrics ──────────────────────────────────────────────────────

#[test]
fn read_service_logs_with_deploy_tag_sends_query_param() {
    let req = ApiClient::read_service_logs("svc-123", Some("ab12c"));
    assert!(matches!(req.method, Method::Get));
    assert_eq!(req.path, "/logs/svc-123");
    assert!(has_query(&req, "deployTag", "ab12c"));
}

#[test]
fn read_service_logs_without_deploy_tag_omits_query_param() {
    let req = ApiClient::read_service_logs("svc-123", None);
    assert_eq!(req.path, "/logs/svc-123");
    assert!(req.query.is_empty());
}

#[test]
fn read_metrics_cpu_with_deploy_tag_sends_query_param() {
    let req = ApiClient::read_metrics_cpu("svc-123", Some("ab12c"));
    assert!(matches!(req.method, Method::Get));
    assert_eq!(req.path, "/metrics/cpu/svc-123");
    assert!(has_query(&req, "deployTag", "ab12c"));
}

// ─── Secrets ───────────────────────────────────────────────────────────────

#[test]
fn create_registry_secret_posts_to_correct_path() {
    let req = ApiClient::create_registry_secret("ghcr-token", "ws-1", "github", "user", "pass");
    assert!(matches!(req.method, Method::Post));
    assert_eq!(req.path, "/workspaces/secrets/registry");
}

#[test]
fn create_registry_secret_body_contains_provider_and_data() {
    let req = ApiClient::create_registry_secret("my-reg", "ws-42", "docker", "user", "s3cret");
    assert_eq!(
        body(&req),
        json(
            r#"{"name": "my-reg", "fk_workspace": "ws-42", "provider": "docker",
                "data": { "username": "user", "password": "s3cret" }}"#
        )
    );
}

#[test]
fn create_repository_secret_posts_to_correct_path() {
    let req =
        ApiClient::create_repository_secret("github-pat", "ws-1", "github", "ghp_token123", "");
    assert!(matches!(req.method, Method::Post));
    assert_eq!(req.path, "/workspaces/secrets/repository");
}

#[test]
fn create_repository_secret_body_contains_provider_key_value() {
    let req = ApiClient::create_repository_secret("git-token", "ws-5", "github", "mytoken", "");
    assert_eq!(
        body(&req),
        json(
            r#"{"name": "git-token", "fk_workspace": "ws-5", "provider": "github",
                "data": { "key": "", "value": "mytoken" }}"#
        )
    );
}

#[test]
fn create_repository_secret_bitbucket_sends_username_as_key() {
    let req =
        ApiClient::create_repository_secret("bb-token", "ws-7", "bitbucket", "bbpass", "bbuser");
    assert_eq!(
        body(&req),
        json(
            r#"{"name": "bb-token", "fk_workspace": "ws-7", "provider": "bitbucket",
                "data": { "key": "bbuser", "value": "bbpass" }}"#
        )
    );
}

// ─── Prices and volumes ────────────────────────────────────────────────────

#[test]
fn get_pricing_queries_with_region_param() {
    let req = ApiClient::get_pricing("reg-eu-1");
    assert!(matches!(req.method, Method::Get));
    assert_eq!(req.path, "/resources/pricing");
    assert!(has_query(&req, "region", "reg-eu-1"));
}

#[test]
fn get_balance_fetches_workspace_balance() {
    let req = ApiClient::get_balance("ws-abc");
    assert!(matches!(req.method, Method::Get));
    assert_eq!(req.path, "/balances/ws-abc");
}

#[test]
fn list_volumes_queries_with_project_param() {
    let req = ApiClient::list_volumes("proj-1");
    assert!(matches!(req.method, Method::Get));
    assert_eq!(req.path, "/storage/volumes");
    assert!(has_query(&req, "project", "proj-1"));
}

#[test]
fn create_volume_posts_body_with_fk_service() {
    let req = ApiClient::create_volume(&volume(None, Some("svc-new")));
    assert!(matches!(req.method, Method::Post));
    assert_eq!(req.path, "/storage/volumes");
    assert_eq!(body(&req)["fk_service"], "svc-new");
    assert_eq!(body(&req)["status"], "pending");
}

#[test]
fn create_volume_body_omits_null_id_and_none_options() {
    let body = text(&volume_body(&volume(None, None)));
    assert!(!body.contains("\"id\""), "create body must omit id: {body}");
    assert!(
        !body.contains("\"fk_service\""),
        "None fk_service must be omitted: {body}"
    );
    assert!(
        !body.contains("\"created_at\""),
        "None created_at must be omitted: {body}"
    );
}

#[test]
fn service_create_body_flattened_omits_disk() {
    let service = ServiceConfig {
        name: "svc".into(),
        disk: Some(DiskConfig {
            mount_path: "/app/data".into(),
            size: 5,
        }),
        ..Default::default()
    };
    let req = ApiClient::create_service(&service, "proj-1", "ws-1");
    let json = text(req.body.as_ref().unwrap());
    assert!(
        !json.contains("\"disk\""),
        "flattened /services body must omit disk: {json}"
    );
    assert!(
        json.contains("\"fk_project\"") && json.contains("\"name\""),
        "flatten should include wrapper and service fields: {json}"
    );
}

#[test]
fn volume_serde_roundtrip_preserves_optional_fk_service() {
    let json = text(&volume_body(&volume(Some("v1"), None)));
    assert!(
        !json.contains("fk_service"),
        "None fk_service should be skipped"
    );
    assert!(json.contains("\"v1\""));
}

#[test]
fn read_volume_fetches_by_id() {
    let req = ApiClient::read_volume("vol-42");
    assert!(matches!(req.method, Method::Get));
    assert_eq!(req.path, "/storage/volumes/vol-42");
}

#[test]
fn delete_volume_sends_delete_to_correct_path() {
    let req = ApiClient::delete_volume("vol-del");
    assert!(matches!(req.method, Method::Delete));
    assert_eq!(req.path, "/storage/volumes/vol-del");
    assert!(handle_response_empty(200, "true").is_ok());
}

#[test]
fn attach_volume_sends_put_with_service_id_body() {
    let req = ApiClient::attach_volume("vol-att", "svc-att");
    assert!(matches!(req.method, Method::Put));
    assert_eq!(req.path, "/storage/volumes/vol-att/attach");
    assert_eq!(body(&req), json(r#"{ "serviceId": "svc-att" }"#));
}

#[test]
fn retry_volume_sends_put_to_retry_path() {
    let req = ApiClient::retry_volume("vol-fail");
    assert!(matches!(req.method, Method::Put));
    assert_eq!(req.path, "/storage/volumes/vol-fail/retry");
    assert!(handle_response_empty(204, "").is_ok());
}

#[test]
fn update_volume_sends_patch_with_changed_fields() {
    let changes = VolumeUpdate {
        size: Some(8),
        mount_path: Some("/app/storage".to_string()),
    };
    let req = ApiClient::update_volume("vol-up", &changes);
    assert!(matches!(req.method, Method::Patch));
    assert_eq!(req.path, "/storage/volumes/vol-up");
    assert_eq!(body(&req), json(r#"{ "size": 8, "mount_path": "/app/storage" }"#));
}

#[test]
fn volume_update_omits_none_fields() {
    let changes = VolumeUpdate {
        size: Some(4),
        mount_path: None,
    };
    let json = text(&update_body(&changes));
    assert!(json.contains("\"size\""), "{json}");
    assert!(!json.contains("mount_path"), "{json}");
}

#[test]
fn volume_update_is_empty_reports_no_changes() {
    assert!(VolumeUpdate { size: None, mount_path: None }.is_empty());
    assert!(!VolumeUpdate {
        size: Some(2),
        mount_path: None,
    }
    .is_empty());
}

// ─── The client ────────────────────────────────────────────────────────────

#[test]
fn client_needs_a_key_and_a_secure_address() {
    let key = || Some("k".to_string());
    let made = ApiClient::new(key(), None, None).unwrap();
    assert_eq!(made.url("/workspaces"), "https://api.partiri.cloud/workspaces");
    assert_eq!(made.timeout_secs, 30);
    let made = ApiClient::new(key(), Some("https://x.example".to_string()), Some("5".to_string())).unwrap();
    assert_eq!(made.url("/a"), "https://x.example/a");
    assert_eq!(made.timeout_secs, 5);
    let made = ApiClient::new(key(), None, Some("soon".to_string())).unwrap();
    assert_eq!(made.timeout_secs, 30);
    let err = ApiClient::new(None, None, None).unwrap_err();
    assert!(err.to_text().contains("No API key found."));
    let err = ApiClient::new(key(), Some("http://x.example".to_string()), None).unwrap_err();
    assert!(err.to_text().contains("must use HTTPS"), "{}", err.to_text());
}

#[test]
fn primary_region_is_the_first_primary_replica() {
    let mut svc = Service {
        id: "s".into(),
        name: "s".into(),
        deploy_type: "webservice".into(),
        runtime: "node".into(),
        external_sd_url: None,
        internal_sd_url: None,
        repository_url: None,
        repository_branch: None,
        registry_url: None,
        fk_service_secret: None,
        root_path: None,
        build_path: None,
        build_command: None,
        pre_deploy_command: None,
        run_command: None,
        fk_pod: None,
        fk_project: None,
        fk_workspace: None,
        replicas: None,
        health_check_path: None,
        maintenance_mode: None,
        active: None,
        env: None,
        deploy_tag: None,
        created_at: None,
        updated_at: None,
        db_type: None,
        db_version: None,
        db_name: None,
        db_user: None,
    };
    assert!(svc.primary_region().is_none());
    let replica = |region: &str, is_primary: bool| partiri::client::ServiceReplica {
        id: "r".into(),
        fk_region: region.into(),
        is_primary,
    };
    svc.replicas = Some(vec![replica("a", false), replica("b", true), replica("c", true)]);
    assert_eq!(svc.primary_region(), Some("b"));
}

#[test]
fn service_body_keeps_the_switches() {
    let body = value(&service_json(&ServiceConfig { active: true, ..ServiceConfig::default() }));
    assert_eq!(body["active"], true);
    assert_eq!(body["maintenance_mode"], false);
    assert_eq!(body["name"], "");
}
