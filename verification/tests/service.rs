//! The commands on one service.
use partiri::client::{
    ApiEnvVar, ApiRequest, Job, LogLine, LogsResponse, Method, PodPrice, RegionPricing, Service,
    ServiceReplica, Volume, WorkspaceSecret,
};
use partiri::common::Confirmation;
use partiri::config::{ConfigOverride, ConfigRead, DiskConfig, PartiriConfig, ServiceConfig};
use partiri::error::{text_error, Failure};
use partiri::mcp::write_config;
use partiri::output::Ctx;
use partiri::service::create::{
    created_report, derive_volume_name, disk_volume, disk_warning, failed_checks, volume_name,
    with_assigned_id, Cost,
};
use partiri::service::link::{run_with_flags, start_walk, LinkArgs, LinkMove, LinkStep};
use partiri::service::pull::{
    apply_live_disk, fetch_service_disk, map_to_config, offered_services, overwrite_guard, picked,
    refresh_existing, refresh_id, run_by_id, silent_refresh, PullPlan,
};
use partiri::service::push::{
    compute_pod_monthly_cost, disk_divergence_hint, pushed_report, CostChange,
};
use partiri::service::run::{
    confirm_deploy, confirm_lifecycle, first_shown_line, last_job, last_job_ref, lifecycle_report,
    lifecycle_request, logs_json, logs_request, metrics_service_json, recent_jobs_json, Lifecycle,
    LINES,
};
use partiri::service::token::{
    picked_token, secret_label, token_choices, TokenArgs, TokenPlan, CLEAR_LABEL,
};
use partiri::service::{create, pull, push, token};
use partiri::storage::canonical_mount_path;

const TEXT: Ctx = Ctx { json: false, yes: false, no_input: false };
const YES: Ctx = Ctx { json: false, yes: true, no_input: false };
const NO_INPUT: Ctx = Ctx { json: false, yes: false, no_input: true };

fn sample_volume(id: &str, service_id: &str, status: &str, size: u32) -> Volume {
    Volume {
        id: Some(id.to_string()),
        name: "svc-disk".into(),
        fk_project: "p".into(),
        fk_workspace: "ws".into(),
        fk_region: "r".into(),
        fk_service: Some(service_id.to_string()),
        mount_path: "/app/data".into(),
        size,
        status: status.to_string(),
        created_at: None,
    }
}

fn sample_pricing(pod_id: &str, pod_price: f64) -> RegionPricing<f64> {
    RegionPricing {
        pods: vec![PodPrice {
            fk_pod: pod_id.to_string(),
            price: pod_price,
            per_minute: pod_price / (30.0 * 24.0 * 60.0),
        }],
        volume_price_per_gb: 0.0,
    }
}

fn config_with_disk(pod: &str, disk: Option<DiskConfig>) -> PartiriConfig {
    PartiriConfig {
        id: Some("svc-1".into()),
        deploy_tag: None,
        fk_workspace: "ws".into(),
        fk_project: "p".into(),
        service: ServiceConfig {
            name: "svc".into(),
            deploy_type: "webservice".into(),
            runtime: "node".into(),
            root_path: ".".into(),
            repository_url: Some("https://github.com/o/r".into()),
            repository_branch: Some("main".into()),
            registry_url: None,
            fk_service_secret: None,
            build_path: None,
            build_command: Some("npm run build".into()),
            pre_deploy_command: None,
            run_command: Some("npm start".into()),
            fk_region: "r".into(),
            fk_pod: pod.into(),
            health_check_path: None,
            disk,
            maintenance_mode: false,
            active: true,
            env: None,
        },
    }
}

fn disk(mount: &str, size: u32) -> DiskConfig {
    DiskConfig { mount_path: mount.to_string(), size }
}

fn make_service() -> Service {
    Service {
        id: "svc-123".to_string(),
        name: "my-service".to_string(),
        deploy_type: "webservice".to_string(),
        runtime: "node".to_string(),
        external_sd_url: None,
        internal_sd_url: None,
        repository_url: Some("https://github.com/org/repo".to_string()),
        repository_branch: Some("main".to_string()),
        registry_url: None,
        fk_service_secret: None,
        root_path: Some(".".to_string()),
        build_path: None,
        build_command: None,
        pre_deploy_command: None,
        run_command: Some("npm start".to_string()),
        replicas: Some(vec![ServiceReplica {
            id: "replica-uuid".to_string(),
            fk_region: "region-uuid".to_string(),
            is_primary: true,
        }]),
        fk_pod: Some("pod-uuid".to_string()),
        fk_project: Some("proj-1".to_string()),
        fk_workspace: Some("ws-1".to_string()),
        health_check_path: None,
        maintenance_mode: Some(false),
        active: Some(true),
        env: None,
        deploy_tag: None,
        created_at: None,
        updated_at: None,
        db_type: None,
        db_version: None,
        db_name: None,
        db_user: None,
    }
}

fn mapped(svc: Service) -> Result<PartiriConfig, Failure> {
    map_to_config(svc, "svc-1".to_string(), "ws-1".to_string(), "proj-1".to_string())
}

fn value(json: &partiri::json::Json) -> serde_json::Value {
    serde_json::from_str(&write_config(json).unwrap()).unwrap()
}

fn body(req: &ApiRequest) -> serde_json::Value {
    value(req.body.as_ref().unwrap())
}

// ─── create ────────────────────────────────────────────────────────────────

#[test]
fn derive_volume_name_basic_name() {
    assert_eq!(derive_volume_name("myservice"), "myservice-disk");
}

#[test]
fn derive_volume_name_lowercases() {
    assert_eq!(derive_volume_name("MyService"), "myservice-disk");
}

#[test]
fn derive_volume_name_replaces_special_chars_with_hyphens() {
    assert_eq!(derive_volume_name("my_service"), "my-service-disk");
}

#[test]
fn derive_volume_name_collapses_multiple_hyphens() {
    assert_eq!(derive_volume_name("my--service"), "my-service-disk");
}

#[test]
fn derive_volume_name_trims_leading_and_trailing_hyphens() {
    assert_eq!(derive_volume_name("---name---"), "name-disk");
}

#[test]
fn derive_volume_name_caps_at_48_chars_plus_disk() {
    let long = "a".repeat(60);
    let result = derive_volume_name(&long);
    assert!(result.len() <= 53, "got len {}: {}", result.len(), result);
    assert!(result.ends_with("-disk"));
}

#[test]
fn derive_volume_name_empty_string_produces_disk_suffix() {
    let result = derive_volume_name("");
    assert!(result.ends_with("disk"));
}

#[test]
fn derive_volume_name_multibyte_utf8_does_not_panic() {
    let long_cjk = "名".repeat(60);
    let result = derive_volume_name(&long_cjk);
    assert!(result.ends_with("-disk") || result == "-disk" || result == "disk");
    let base = result.strip_suffix("-disk").unwrap_or(&result);
    assert!(base.chars().count() <= 48);
}

#[test]
fn derive_volume_name_multibyte_utf8_with_ascii_suffix() {
    let name = format!("{}abc", "日".repeat(50));
    let result = derive_volume_name(&name);
    let base = result.strip_suffix("-disk").unwrap_or(&result);
    assert!(base.chars().count() <= 48);
}

#[test]
fn volume_names_are_labels() {
    for name in ["A B!c", "é_È", "--x--", "a---------b", "İstanbul"] {
        let made = derive_volume_name(name);
        assert!(made.chars().all(|c| c.is_ascii_lowercase() || c.is_ascii_digit() || c == '-'), "{made}");
        assert!(!made.contains("--"), "{made}");
    }
    assert_eq!(volume_name("web app"), "web-app-disk");
}

#[test]
fn create_posts_the_service() {
    let mut config = config_with_disk("pod-a", None);
    config.id = None;
    let req = create::run(&config).unwrap();
    assert!(matches!(req.method, Method::Post));
    assert_eq!(req.path, "/services");
    let sent = body(&req);
    assert_eq!(sent["name"], "svc");
    assert_eq!(sent["fk_project"], "p");
    assert_eq!(sent["fk_workspace"], "ws");
}

#[test]
fn create_refuses_a_service_that_exists_or_is_invalid() {
    let config = config_with_disk("pod-a", None);
    let err = create::run(&config).unwrap_err();
    assert!(err.to_text().contains("svc-1"), "{}", err.to_text());
    let mut broken = config_with_disk("", None);
    broken.id = None;
    assert_eq!(failed_checks(&broken), ["fk_pod: Compute pod is required"]);
    match create::run(&broken).unwrap_err() {
        Failure::Cli(e) => {
            assert_eq!(e.code, "validation");
            assert_eq!(e.likely_causes, ["fk_pod: Compute pod is required"]);
        }
        Failure::Text(t) => panic!("expected a validation error, got {t}"),
    }
}

#[test]
fn created_service_is_recorded_and_its_disk_planned() {
    let mut config = config_with_disk("pod-a", Some(disk("/data/", 3)));
    config.id = None;
    let config = with_assigned_id(config, &make_service());
    assert_eq!(config.id.as_deref(), Some("svc-123"));
    let vol = disk_volume(&config, "svc-123").unwrap();
    assert_eq!(vol.name, "svc-disk");
    assert_eq!(vol.fk_service.as_deref(), Some("svc-123"));
    assert_eq!(vol.size, 3);
    assert!(disk_volume(&config_with_disk("pod-a", None), "svc-123").is_none());
    assert!(disk_warning("quota").starts_with("disk creation failed: quota."));
}

#[test]
fn created_report_shows_address_and_cost() {
    let mut svc = make_service();
    svc.external_sd_url = Some("https://x.example".to_string());
    let cost = Some(Cost { number: "7.5".to_string(), shown: "7.5000".to_string() });
    let report = created_report(&svc, &cost);
    assert_eq!(report.message, "Service created — ID: svc-123");
    assert_eq!(
        report.notes,
        [
            "External URL: https://x.example",
            "Estimated monthly cost: €7.5000",
            "Run 'partiri service deploy' to deploy.",
        ]
    );
    let data = value(&report.data.unwrap());
    assert_eq!(data["monthly_cost_eur"], 7.5);
    let bare = created_report(&make_service(), &None);
    assert_eq!(bare.notes, ["Run 'partiri service deploy' to deploy."]);
    assert!(value(&bare.data.unwrap())["monthly_cost_eur"].is_null());
}

// ─── push ──────────────────────────────────────────────────────────────────

#[test]
fn pod_cost_looks_up_price() {
    let pricing = sample_pricing("pod-a", 12.0);
    assert_eq!(
        compute_pod_monthly_cost(Some("pod-a"), Some(&pricing), 0.0),
        Some(12.0)
    );
}

#[test]
fn pod_cost_none_without_pricing() {
    assert!(compute_pod_monthly_cost::<f64>(Some("pod-a"), None, 0.0).is_none());
}

#[test]
fn pod_cost_none_without_pod_id() {
    let pricing = sample_pricing("pod-a", 12.0);
    assert!(compute_pod_monthly_cost(None, Some(&pricing), 0.0).is_none());
}

#[test]
fn pod_cost_unknown_pod_is_zero() {
    let pricing = sample_pricing("pod-a", 12.0);
    assert_eq!(
        compute_pod_monthly_cost(Some("pod-x"), Some(&pricing), 0.0),
        Some(0.0)
    );
}

#[test]
fn pod_change_delta_excludes_disk() {
    let pricing = RegionPricing {
        pods: vec![
            PodPrice { fk_pod: "pod-old".into(), price: 10.0, per_minute: 0.0 },
            PodPrice { fk_pod: "pod-new".into(), price: 20.0, per_minute: 0.0 },
        ],
        volume_price_per_gb: 5.0,
    };
    let current = compute_pod_monthly_cost(Some("pod-old"), Some(&pricing), 0.0);
    let desired = compute_pod_monthly_cost(Some("pod-new"), Some(&pricing), 0.0);
    assert_eq!(desired.unwrap() - current.unwrap(), 10.0);
}

#[test]
fn hint_none_when_no_disk_and_no_volume() {
    let config = config_with_disk("pod-a", None);
    assert!(disk_divergence_hint(&config, None).is_none());
}

#[test]
fn hint_none_when_disk_matches_volume() {
    let config = config_with_disk("pod-a", Some(disk("/app/data", 5)));
    let vol = sample_volume("v1", "svc-1", "attached", 5);
    assert!(disk_divergence_hint(&config, Some(&vol)).is_none());
}

#[test]
fn hint_create_when_disk_declared_but_no_volume() {
    let config = config_with_disk("pod-a", Some(disk("/app/data", 5)));
    let hint = disk_divergence_hint(&config, None).unwrap();
    assert!(hint.contains("storage create"), "{hint}");
}

#[test]
fn hint_none_when_only_a_trailing_slash_differs() {
    let config = config_with_disk("pod-a", Some(disk("/app/data/", 5)));
    let vol = sample_volume("v1", "svc-1", "attached", 5);
    assert!(disk_divergence_hint(&config, Some(&vol)).is_none());
}

#[test]
fn hint_update_when_size_differs() {
    let config = config_with_disk("pod-a", Some(disk("/app/data", 8)));
    let vol = sample_volume("v1", "svc-1", "attached", 5);
    let hint = disk_divergence_hint(&config, Some(&vol)).unwrap();
    assert!(hint.contains("storage update"), "{hint}");
}

#[test]
fn hint_update_when_mount_path_differs() {
    let config = config_with_disk("pod-a", Some(disk("/app/storage", 5)));
    let vol = sample_volume("v1", "svc-1", "attached", 5);
    let hint = disk_divergence_hint(&config, Some(&vol)).unwrap();
    assert!(hint.contains("storage update"), "{hint}");
}

#[test]
fn hint_detach_when_volume_exists_but_no_disk_block() {
    let config = config_with_disk("pod-a", None);
    let vol = sample_volume("v1", "svc-1", "attached", 5);
    let hint = disk_divergence_hint(&config, Some(&vol)).unwrap();
    assert!(hint.contains("storage detach"), "{hint}");
    assert!(hint.contains("v1"), "{hint}");
}

#[test]
fn push_updates_the_service() {
    let config = config_with_disk("pod-a", Some(disk("/app/data", 5)));
    let req = push::run(&config).unwrap();
    assert_eq!(req.path, "/services/svc-1");
    let sent = body(&req);
    assert_eq!(sent["fk_pod"], "pod-a");
    assert!(sent.get("disk").is_none());
    let mut fresh = config_with_disk("pod-a", None);
    fresh.id = None;
    assert!(push::run(&fresh).is_err());
}

#[test]
fn pushed_report_shows_the_change() {
    let cost = CostChange {
        current: Some("10.0".to_string()),
        desired: Some("20.0".to_string()),
        delta: Some("10.0".to_string()),
        shown: Some("+€10.00".to_string()),
    };
    let hint = Some("look".to_string());
    let report = pushed_report("svc-1", &cost, &hint);
    assert_eq!(report.message, "Service svc-1 updated successfully.");
    assert_eq!(report.notes, ["Monthly pod cost change: +€10.00", "info: look"]);
    let data = value(&report.data.unwrap());
    assert_eq!(data["cost_delta_eur"], 10.0);
    assert_eq!(data["disk_hint"], "look");
}

// ─── pull: the disk ────────────────────────────────────────────────────────

#[test]
fn returns_some_disk_for_a_live_volume() {
    let mut vol = sample_volume("vol-1", "svc-1", "attached", 7);
    vol.fk_project = "proj-1".to_string();
    let disk = fetch_service_disk(Ok(vec![vol]), "svc-1")
        .unwrap()
        .expect("a live volume should yield a disk block");
    assert_eq!(disk.mount_path, "/app/data");
    assert_eq!(disk.size, 7);
}

#[test]
fn returns_none_when_no_volume_bound() {
    let disk = fetch_service_disk(Ok(Vec::new()), "svc-1").unwrap();
    assert!(
        disk.is_none(),
        "no volume must map to Ok(None), not an error"
    );
}

#[test]
fn propagates_a_listing_error_instead_of_swallowing_it() {
    let result = fetch_service_disk(Err(text_error("boom")), "svc-1");
    assert!(result.is_err(), "listing failure must propagate as Err");
}

fn cfg(d: Option<DiskConfig>) -> PartiriConfig {
    config_with_disk("pod-1", d)
}

#[test]
fn ok_none_preserves_an_existing_local_block() {
    let mut config = cfg(Some(disk("/app/data", 5)));
    apply_live_disk(&mut config, Ok(None), TEXT);
    let d = config.service.disk.as_ref().expect("block preserved");
    assert_eq!(d.mount_path, "/app/data");
    assert_eq!(d.size, 5);
    assert_eq!(config.service.build_command.as_deref(), Some("npm run build"));
}

#[test]
fn ok_none_leaves_a_fresh_config_without_a_block() {
    let mut config = cfg(None);
    apply_live_disk(&mut config, Ok(None), TEXT);
    assert!(config.service.disk.is_none());
    assert_eq!(config.service.name, "svc");
}

#[test]
fn ok_some_with_no_local_block_adopts_live_values() {
    let mut config = cfg(None);
    apply_live_disk(&mut config, Ok(Some(disk("/app/store", 9))), TEXT);
    let d = config.service.disk.as_ref().expect("block adopted");
    assert_eq!(d.mount_path, "/app/store");
    assert_eq!(d.size, 9);
    assert_eq!(config.service.build_command.as_deref(), Some("npm run build"));
}

#[test]
fn ok_some_diverging_replaces_local_block_with_live_values() {
    let mut config = cfg(Some(disk("/app/data", 5)));
    apply_live_disk(&mut config, Ok(Some(disk("/app/store", 9))), TEXT);
    let d = config.service.disk.as_ref().expect("live block adopted");
    assert_eq!(d.mount_path, "/app/store");
    assert_eq!(d.size, 9);
    assert_eq!(config.service.name, "svc");
}

#[test]
fn ok_some_equal_including_trailing_slash_still_adopts_live() {
    let mut config = cfg(Some(disk("/app/data/", 5)));
    apply_live_disk(&mut config, Ok(Some(disk("/app/data", 5))), TEXT);
    let d = config.service.disk.as_ref().expect("live block adopted");
    assert_eq!(canonical_mount_path(&d.mount_path), "/app/data");
    assert_eq!(d.size, 5);
    assert_eq!(config.service.build_command.as_deref(), Some("npm run build"));
}

#[test]
fn err_leaves_the_existing_local_block_unchanged() {
    let mut config = cfg(Some(disk("/app/data", 5)));
    apply_live_disk(&mut config, Err(text_error("boom")), TEXT);
    let d = config
        .service
        .disk
        .as_ref()
        .expect("block preserved on error");
    assert_eq!(d.mount_path, "/app/data");
    assert_eq!(d.size, 5);
    assert_eq!(config.service.build_command.as_deref(), Some("npm run build"));
}

// ─── pull: the service ─────────────────────────────────────────────────────

#[test]
fn map_to_config_full_service_produces_correct_config() {
    let svc = make_service();
    let config = map_to_config(
        svc,
        "svc-123".to_string(),
        "ws-1".to_string(),
        "proj-1".to_string(),
    )
    .unwrap();
    assert_eq!(config.id, Some("svc-123".to_string()));
    assert_eq!(config.fk_workspace, "ws-1");
    assert_eq!(config.fk_project, "proj-1");
    assert_eq!(config.service.name, "my-service");
    assert_eq!(config.service.deploy_type, "webservice");
    assert_eq!(config.service.runtime, "node");
    assert_eq!(config.service.fk_region, "region-uuid");
    assert_eq!(config.service.fk_pod, "pod-uuid");
    assert_eq!(
        config.service.repository_url.as_deref(),
        Some("https://github.com/org/repo")
    );
}

#[test]
fn map_to_config_none_root_path_defaults_to_dot() {
    let mut svc = make_service();
    svc.root_path = None;
    let config = mapped(svc).unwrap();
    assert_eq!(config.service.root_path, ".");
}

#[test]
fn map_to_config_drops_env_from_local_config() {
    let mut svc = make_service();
    svc.env = Some(vec![ApiEnvVar {
        key: "PORT".to_string(),
        value: "3000".to_string(),
    }]);
    let config = mapped(svc).unwrap();
    assert!(config.service.env.is_none());
}

#[test]
fn map_to_config_no_replicas_returns_error() {
    let mut svc = make_service();
    svc.replicas = None;
    assert!(mapped(svc).is_err(), "Missing replicas should return an error");
}

#[test]
fn map_to_config_no_primary_replica_returns_error() {
    let mut svc = make_service();
    svc.replicas = Some(vec![ServiceReplica {
        id: "r".to_string(),
        fk_region: "region-uuid".to_string(),
        is_primary: false,
    }]);
    assert!(mapped(svc).is_err(), "Replicas without a primary should return an error");
}

#[test]
fn map_to_config_deploy_tag_is_mapped() {
    let mut svc = make_service();
    svc.deploy_tag = Some("ab12c".to_string());
    let config = mapped(svc).unwrap();
    assert_eq!(config.deploy_tag, Some("ab12c".to_string()));
}

#[test]
fn map_to_config_none_deploy_tag_stays_none() {
    let config = mapped(make_service()).unwrap();
    assert!(config.deploy_tag.is_none());
}

#[test]
fn map_to_config_none_fk_pod_returns_error() {
    let mut svc = make_service();
    svc.fk_pod = None;
    assert!(mapped(svc).is_err(), "None fk_pod should return an error");
}

#[test]
fn map_to_config_empty_primary_region_returns_error() {
    let mut svc = make_service();
    svc.replicas = Some(vec![ServiceReplica {
        id: "r".to_string(),
        fk_region: String::new(),
        is_primary: true,
    }]);
    assert!(mapped(svc).is_err(), "Empty primary fk_region should return an error");
}

#[test]
fn map_to_config_empty_fk_pod_returns_error() {
    let mut svc = make_service();
    svc.fk_pod = Some(String::new());
    assert!(mapped(svc).is_err(), "Empty fk_pod should return an error");
}

fn cfg_with_id(id: &str) -> PartiriConfig {
    let mut c = cfg(None);
    c.id = Some(id.to_string());
    c
}

fn guard(path_exists: bool, existing: Option<&PartiriConfig>, id: &str, yes: bool) -> Result<(), Failure> {
    overwrite_guard(path_exists, existing, id, yes, &ConfigOverride::none())
}

#[test]
fn no_file_is_ok() {
    assert!(guard(false, None, "svc-1", false).is_ok());
}

#[test]
fn same_id_is_ok_without_yes() {
    let existing = cfg_with_id("svc-1");
    assert!(guard(true, Some(&existing), "svc-1", false).is_ok());
}

#[test]
fn different_id_without_yes_errs() {
    let existing = cfg_with_id("svc-1");
    assert!(guard(true, Some(&existing), "svc-2", false).is_err());
}

#[test]
fn different_id_with_yes_is_ok() {
    let existing = cfg_with_id("svc-1");
    assert!(guard(true, Some(&existing), "svc-2", true).is_ok());
}

#[test]
fn unparseable_without_yes_errs() {
    let err = guard(true, None, "svc-1", false).unwrap_err();
    assert!(err.to_text().contains("could not be parsed"), "{}", err.to_text());
}

#[test]
fn unparseable_with_yes_is_ok() {
    assert!(guard(true, None, "svc-1", true).is_ok());
}

#[test]
fn unparseable_file_on_disk_via_load_from_is_none() {
    let read = ConfigRead::Unparseable("expected a value".to_string());
    let over = ConfigOverride::none();
    let existing = PartiriConfig::load_from("/tmp/.partiri.jsonc", &over, read).ok();
    assert!(existing.is_none());
    assert!(guard(true, existing.as_ref(), "svc-1", false).is_err());
    assert!(guard(true, existing.as_ref(), "svc-1", true).is_ok());
}

#[test]
fn refresh_takes_what_the_service_says() {
    let mut svc = make_service();
    svc.deploy_tag = Some("t2".to_string());
    let (config, changed) = silent_refresh(cfg(Some(disk("/app/data", 5))), &svc);
    assert_eq!(config.deploy_tag.as_deref(), Some("t2"));
    assert!(changed);
    assert_eq!(config.service.disk.as_ref().map(|d| d.size), Some(5));
    assert_eq!(refresh_id(&cfg(None)).unwrap(), "svc-1");
    let mut fresh = cfg(None);
    fresh.id = None;
    assert!(refresh_id(&fresh).is_err());
    let (config, warning) = refresh_existing(
        cfg(Some(disk("/app/data", 5))),
        &svc,
        Err(text_error("boom")),
        TEXT,
    );
    assert_eq!(config.service.disk.as_ref().map(|d| d.size), Some(5));
    assert!(warning.unwrap().contains("boom"));
}

#[test]
fn pull_by_id_takes_everything_from_the_service() {
    let config = run_by_id(make_service(), "svc-123").unwrap();
    assert_eq!(config.fk_workspace, "ws-1");
    assert_eq!(config.fk_project, "proj-1");
    let mut lost = make_service();
    lost.fk_project = None;
    assert!(run_by_id(lost, "svc-123").is_err());
}

#[test]
fn pull_refreshes_selects_or_asks() {
    let over = ConfigOverride::none();
    assert!(matches!(pull::run(Some(cfg(None)), true, TEXT, &over), PullPlan::Refresh(_)));
    assert!(matches!(pull::run(None, false, TEXT, &over), PullPlan::Select));
    assert!(matches!(pull::run(None, true, NO_INPUT, &over), PullPlan::Refuse(_)));
}

#[test]
fn picks_are_found_among_the_offers() {
    let labels = offered_services(&vec![make_service()]).unwrap();
    assert_eq!(labels.len(), 1);
    assert_eq!(picked(&labels, Some(labels[0].clone()), "service").unwrap(), 0);
    assert!(picked(&labels, Some("other".to_string()), "service").is_err());
    assert!(picked(&labels, None, "service").is_err());
    assert!(offered_services(&Vec::new()).is_err());
}

// ─── link ──────────────────────────────────────────────────────────────────

fn link_args() -> LinkArgs {
    LinkArgs {
        workspace: None,
        project: None,
        region: None,
        pod: None,
        token: None,
        clear_token: false,
    }
}

#[test]
fn flags_replace_their_fields_only() {
    let mut args = link_args();
    args.workspace = Some("ws-2".to_string());
    args.project = Some("p-2".to_string());
    args.token = Some("tok".to_string());
    let (config, save) = run_with_flags(cfg(None), args).unwrap();
    assert!(save);
    assert_eq!(config.fk_workspace, "ws-2");
    assert_eq!(config.fk_project, "p-2");
    assert_eq!(config.service.fk_region, "r");
    assert_eq!(config.service.fk_service_secret.as_deref(), Some("tok"));
    let (same, save) = run_with_flags(cfg(None), link_args()).unwrap();
    assert!(!save);
    assert_eq!(same.fk_workspace, "ws");
}

#[test]
fn paired_flags_need_each_other() {
    let mut args = link_args();
    args.workspace = Some("ws-2".to_string());
    assert!(run_with_flags(cfg(None), args).unwrap_err().to_text().contains("--project"));
    let mut args = link_args();
    args.region = Some("r-2".to_string());
    assert!(run_with_flags(cfg(None), args).unwrap_err().to_text().contains("--pod"));
    let mut clear = link_args();
    clear.clear_token = true;
    let mut c = cfg(None);
    c.service.fk_service_secret = Some("x".to_string());
    let (cleared, _) = run_with_flags(c, clear).unwrap();
    assert!(cleared.service.fk_service_secret.is_none());
}

#[test]
fn a_new_workspace_forces_a_new_project() {
    let walk = start_walk(cfg(None), TEXT).unwrap();
    assert!(matches!(walk.next_move(), LinkMove::Ask("Update workspace?")));
    let walk = walk.choose_id("ws-2".to_string());
    assert!(matches!(walk.next_move(), LinkMove::Pick(_)));
    let walk = walk.choose_id("p-2".to_string());
    assert!(matches!(walk.next_move(), LinkMove::Ask("Update region?")));
    let walk = walk.skip().skip();
    assert_eq!(walk.step, LinkStep::Done);
    assert!(matches!(walk.next_move(), LinkMove::Finish(true)));
    assert_eq!(walk.config.fk_project, "p-2");
    let nothing = start_walk(cfg(None), TEXT).unwrap().skip().skip().skip().skip();
    assert!(matches!(nothing.next_move(), LinkMove::Finish(false)));
    assert!(start_walk(cfg(None), NO_INPUT).is_err());
}

// ─── token ─────────────────────────────────────────────────────────────────

fn token_secret(id: &str, name: Option<&str>, provider: Option<&str>) -> WorkspaceSecret {
    WorkspaceSecret {
        id: id.to_string(),
        name: name.map(str::to_string),
        provider: provider.map(str::to_string),
    }
}

#[test]
fn token_flags_link_and_clear() {
    let args = TokenArgs { secret: Some("sec".to_string()), clear: false };
    match token::run(cfg(None), args, TEXT).unwrap() {
        TokenPlan::Save(c, message) => {
            assert_eq!(c.service.fk_service_secret.as_deref(), Some("sec"));
            assert_eq!(message, "Token sec linked.");
        }
        TokenPlan::Pick(..) => panic!("expected a save"),
    }
    let args = TokenArgs { secret: None, clear: true };
    assert!(matches!(token::run(cfg(None), args, TEXT), Ok(TokenPlan::Save(_, m)) if m == "Authentication token cleared."));
    let args = TokenArgs { secret: None, clear: false };
    assert!(token::run(cfg(None), args, NO_INPUT).is_err());
    let args = TokenArgs { secret: None, clear: false };
    assert!(matches!(token::run(cfg(None), args, TEXT), Ok(TokenPlan::Pick(_, false, _))));
}

#[test]
fn token_picks_come_from_the_secrets() {
    let secrets = vec![
        token_secret("a", Some("ghcr"), Some("github")),
        token_secret("b", None, None),
    ];
    assert_eq!(secret_label(&secrets[0]), "ghcr [github] (a)");
    assert_eq!(secret_label(&secrets[1]), "unnamed (b)");
    let labels = token_choices(&secrets, false, "ws").unwrap();
    assert_eq!(labels, [CLEAR_LABEL, "ghcr [github] (a)", "unnamed (b)"]);
    let (c, m) = picked_token(cfg(None), &secrets, &labels, Some(labels[2].clone())).unwrap();
    assert_eq!(c.service.fk_service_secret.as_deref(), Some("b"));
    assert_eq!(m, "Token b linked.");
    let (c, _) = picked_token(c, &secrets, &labels, Some(CLEAR_LABEL.to_string())).unwrap();
    assert!(c.service.fk_service_secret.is_none());
    assert!(picked_token(c, &secrets, &labels, None).is_err());
    let (what, hint) = token_choices(&Vec::new(), true, "ws").unwrap_err();
    assert_eq!(what, "No registry secrets found in workspace ws.");
    assert_eq!(hint, "Create one with 'partiri secrets create-registry' first.");
}

// ─── deploy, lifecycle, logs, metrics ──────────────────────────────────────

#[test]
fn deploys_are_confirmed() {
    assert!(matches!(confirm_deploy(YES, "svc"), Confirmation::Proceed));
    assert!(matches!(confirm_deploy(NO_INPUT, "svc"), Confirmation::Refuse(_)));
    match confirm_deploy(TEXT, "svc") {
        Confirmation::Ask(q) => assert_eq!(q, "Are you sure you want to deploy service svc?"),
        _ => panic!("expected a question"),
    }
}

#[test]
fn lifecycle_commands_name_their_job() {
    match confirm_lifecycle(Lifecycle::Kill, &cfg(None), TEXT).unwrap() {
        Confirmation::Ask(q) => assert_eq!(q, "Are you sure you want to kill service svc-1?"),
        _ => panic!("expected a question"),
    }
    let req = lifecycle_request(Lifecycle::Pause, "svc-1");
    assert!(req.path.contains("svc-1") || body(&req).to_string().contains("svc-1"));
    assert_eq!(lifecycle_report(Lifecycle::Unpause).message, "Unpause job created.");
    let mut fresh = cfg(None);
    fresh.id = None;
    assert!(confirm_lifecycle(Lifecycle::Pause, &fresh, YES).is_err());
}

#[test]
fn logs_need_a_deploy_tag_and_show_the_newest_lines() {
    let mut c = cfg(None);
    assert!(logs_request(&c).is_err());
    c.deploy_tag = Some("t1".to_string());
    let req = logs_request(&c).unwrap();
    assert_eq!(req.path, "/logs/svc-1");
    assert!(req.query.contains(&("deployTag".to_string(), "t1".to_string())));
    let logs: Vec<LogLine> = (0..40)
        .map(|i| LogLine { timestamp: format!("{i:02}"), message: format!("m{i}") })
        .collect();
    assert_eq!(logs.len() - first_shown_line(&logs), LINES);
    let data = value(&logs_json("t1", &LogsResponse { logs }));
    assert_eq!(data["deploy_tag"], "t1");
    let lines = data["lines"].as_array().unwrap();
    assert_eq!(lines.len(), LINES);
    assert_eq!(lines[0]["message"], "m5");
    assert_eq!(lines[LINES - 1]["message"], "m39");
}

fn job(id: &str, created_at: Option<&str>) -> Job {
    Job {
        id: id.to_string(),
        fk_service: "svc-1".to_string(),
        job_type: "deploy".to_string(),
        status: "done".to_string(),
        deploy_ref: Some("abcdefghij".to_string()),
        created_at: created_at.map(str::to_string),
        updated_at: None,
    }
}

#[test]
fn metrics_show_the_service_and_its_last_jobs() {
    let s = value(&metrics_service_json(&make_service()));
    assert_eq!(s["id"], "svc-123");
    assert!(s["deploy_tag"].is_null());
    let jobs: Vec<Job> = (0..12).map(|i| job(&format!("j{i}"), Some(&format!("2024-01-{:02}", i + 1)))).collect();
    let shown = value(&recent_jobs_json(jobs));
    let shown = shown.as_array().unwrap();
    assert_eq!(shown.len(), 10);
    assert_eq!(shown[0]["created_at"], "2024-01-12");
    assert_eq!(last_job_ref(&job("j", None)), " abcdefg");
    let jobs = vec![job("old", Some("2024-01-01")), job("new", Some("2024-02-01"))];
    assert_eq!(last_job(jobs).unwrap().id, "new");
    assert!(last_job(Vec::new()).is_none());
}
