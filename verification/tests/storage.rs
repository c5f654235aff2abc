//! Disks and volumes.
use partiri::client::{ApiClient, Volume};
use partiri::config::{
    ConfigOverride, DiskConfig, PartiriConfig, ServiceConfig, DISK_SIZE_MAX, DISK_SIZE_MIN,
};
use partiri::mcp::write_config;
use partiri::output::{Ctx, Listing};
use partiri::storage::{
    build_volume, canonical_mount_path, created_report, deleted_report, detached_report,
    diff_volume, disk_from_volume, disk_or_err, find_service_volume, list_request, run_create,
    run_list, run_update, updated_report, validate_disk, volume_json, volume_row, UpdatePlan,
    RESERVED_MOUNT_PATHS,
};

fn sample_volume() -> Volume {
    Volume {
        id: Some("vol-1".to_string()),
        name: "my-disk".to_string(),
        fk_project: "proj-1".to_string(),
        fk_workspace: "ws-1".to_string(),
        fk_region: "reg-1".to_string(),
        fk_service: Some("svc-1".to_string()),
        mount_path: "/app/data".to_string(),
        size: 5,
        status: "attached".to_string(),
        created_at: Some("2025-01-01T00:00:00Z".to_string()),
    }
}

fn live(size: u32) -> Vec<Volume> {
    vec![Volume { size, ..sample_volume() }]
}

fn disk(mount: &str, size: u32) -> DiskConfig {
    DiskConfig { mount_path: mount.to_string(), size }
}

fn config_for_build() -> PartiriConfig {
    PartiriConfig {
        id: Some("svc-1".to_string()),
        deploy_tag: None,
        fk_workspace: "ws-1".to_string(),
        fk_project: "proj-1".to_string(),
        service: ServiceConfig {
            name: "My Service".to_string(),
            deploy_type: "webservice".to_string(),
            runtime: "node".to_string(),
            root_path: ".".to_string(),
            repository_url: Some("https://github.com/o/r".to_string()),
            repository_branch: Some("main".to_string()),
            registry_url: None,
            fk_service_secret: None,
            build_path: None,
            build_command: Some("npm run build".to_string()),
            pre_deploy_command: None,
            run_command: Some("npm start".to_string()),
            fk_region: "reg-1".to_string(),
            fk_pod: "pod-1".to_string(),
            health_check_path: None,
            disk: Some(disk("/app/data", 3)),
            maintenance_mode: false,
            active: true,
            env: None,
        },
    }
}

fn config_disk(size: u32, mount: &str) -> PartiriConfig {
    let mut cfg = config_for_build();
    cfg.service.disk = Some(disk(mount, size));
    cfg
}

fn none() -> ConfigOverride {
    ConfigOverride::none()
}

fn value(json: &partiri::json::Json) -> serde_json::Value {
    serde_json::from_str(&write_config(json).unwrap()).unwrap()
}

// ─── Rows ──────────────────────────────────────────────────────────────────

#[test]
fn volume_row_maps_fields_correctly() {
    let row = volume_row(&sample_volume());
    assert_eq!(row.id, "vol-1");
    assert_eq!(row.name, "my-disk");
    assert_eq!(row.status, "attached");
    assert_eq!(row.size, 5);
    assert_eq!(row.mount_path, "/app/data");
    assert_eq!(row.fk_service, "svc-1");
}

#[test]
fn volume_row_missing_id_uses_empty_string() {
    let mut v = sample_volume();
    v.id = None;
    let row = volume_row(&v);
    assert!(row.id.is_empty());
}

#[test]
fn volume_row_no_service_uses_empty_string() {
    let mut v = sample_volume();
    v.fk_service = None;
    let row = volume_row(&v);
    assert!(row.fk_service.is_empty());
}

#[test]
fn volume_json_includes_key_fields() {
    let j = value(&volume_json(&sample_volume()));
    assert_eq!(j["id"], "vol-1");
    assert_eq!(j["size"], 5);
    assert_eq!(j["status"], "attached");
    assert_eq!(j["fk_service"], "svc-1");
}

#[test]
fn volumes_are_listed() {
    let text = Ctx { json: false, yes: false, no_input: false };
    assert!(matches!(run_list(&live(5), text), Listing::Rows(rows) if rows.len() == 1));
    assert!(matches!(run_list(&Vec::new(), text), Listing::Message(_)));
    let json = Ctx { json: true, yes: false, no_input: false };
    assert!(matches!(run_list(&live(5), json), Listing::Rows(rows) if rows[0].id == "vol-1"));
    match run_list(&Vec::new(), json) {
        Listing::Data(d) => assert_eq!(value(&d).to_string(), "{\"data\":[]}"),
        _ => panic!("expected data"),
    }
}

// ─── Checks ────────────────────────────────────────────────────────────────

#[test]
fn validate_disk_accepts_a_normal_block() {
    assert!(validate_disk(&disk("/app/data", 5)).is_ok());
}

#[test]
fn validate_disk_rejects_size_below_min() {
    assert!(validate_disk(&disk("/app/data", DISK_SIZE_MIN - 1)).is_err());
}

#[test]
fn validate_disk_rejects_size_above_max() {
    assert!(validate_disk(&disk("/app/data", DISK_SIZE_MAX + 1)).is_err());
}

#[test]
fn validate_disk_accepts_size_bounds() {
    assert!(validate_disk(&disk("/app/data", DISK_SIZE_MIN)).is_ok());
    assert!(validate_disk(&disk("/app/data", DISK_SIZE_MAX)).is_ok());
}

#[test]
fn validate_disk_rejects_relative_mount_path() {
    assert!(validate_disk(&disk("app/data", 5)).is_err());
}

#[test]
fn validate_disk_rejects_root_mount_path() {
    assert!(validate_disk(&disk("/", 5)).is_err());
}

#[test]
fn validate_disk_rejects_reserved_mount_path() {
    for p in ["/etc", "/usr", "/var", "/bin/", "/tmp"] {
        assert!(
            validate_disk(&disk(p, 5)).is_err(),
            "expected '{p}' to be rejected"
        );
    }
    for p in RESERVED_MOUNT_PATHS {
        assert!(validate_disk(&disk(p, 5)).is_err(), "expected '{p}' to be rejected");
    }
}

#[test]
fn validate_disk_rejects_leading_or_trailing_whitespace() {
    for p in [" /app/data", "/app/data ", "\t/app/data", "/app/data\n"] {
        let err = validate_disk(&disk(p, 5)).unwrap_err().to_text();
        assert!(
            err.contains("whitespace"),
            "expected '{p}' to be rejected for whitespace: {err}"
        );
    }
}

#[test]
fn validate_disk_allows_nested_path_under_reserved_prefix() {
    assert!(validate_disk(&disk("/var/lib/app", 5)).is_ok());
}

// ─── Volumes ───────────────────────────────────────────────────────────────

#[test]
fn build_volume_derives_name_and_binds_service() {
    let cfg = config_for_build();
    let vol = build_volume(&cfg, "svc-1", cfg.service.disk.as_ref().unwrap());
    assert_eq!(vol.name, "my-service-disk");
    assert_eq!(vol.fk_service.as_deref(), Some("svc-1"));
    assert_eq!(vol.fk_project, "proj-1");
    assert_eq!(vol.fk_workspace, "ws-1");
    assert_eq!(vol.fk_region, "reg-1");
    assert_eq!(vol.mount_path, "/app/data");
    assert_eq!(vol.size, 3);
    assert_eq!(vol.status, "pending");
    assert!(vol.id.is_none(), "id must be omitted so the API assigns it");
}

#[test]
fn find_service_volume_returns_live_match() {
    let vols = vec![sample_volume()];
    assert!(find_service_volume(&vols, "svc-1").is_some());
}

#[test]
fn find_service_volume_skips_terminal_states() {
    for status in ["deleting", "failed"] {
        let mut v = sample_volume();
        v.status = status.to_string();
        assert!(
            find_service_volume(&[v], "svc-1").is_none(),
            "status '{status}' should be skipped"
        );
    }
}

#[test]
fn find_service_volume_ignores_other_services() {
    let mut v = sample_volume();
    v.fk_service = Some("other".to_string());
    assert!(find_service_volume(&[v], "svc-1").is_none());
}

#[test]
fn disk_from_volume_copies_mount_and_size() {
    let d = disk_from_volume(&sample_volume());
    assert_eq!(d.mount_path, "/app/data");
    assert_eq!(d.size, 5);
}

#[test]
fn diff_volume_empty_when_unchanged() {
    let vol = sample_volume();
    let changes = diff_volume(&vol, &disk("/app/data", 5));
    assert!(changes.is_empty());
}

#[test]
fn diff_volume_carries_only_changed_size() {
    let vol = sample_volume();
    let changes = diff_volume(&vol, &disk("/app/data", 8));
    assert_eq!(changes.size, Some(8));
    assert!(changes.mount_path.is_none());
}

#[test]
fn diff_volume_carries_only_changed_mount_path() {
    let vol = sample_volume();
    let changes = diff_volume(&vol, &disk("/app/storage", 5));
    assert_eq!(changes.mount_path.as_deref(), Some("/app/storage"));
    assert!(changes.size.is_none());
}

#[test]
fn diff_volume_carries_both_when_both_change() {
    let vol = sample_volume();
    let changes = diff_volume(&vol, &disk("/app/storage", 9));
    assert_eq!(changes.size, Some(9));
    assert_eq!(changes.mount_path.as_deref(), Some("/app/storage"));
}

#[test]
fn canonical_mount_path_strips_trailing_slashes() {
    assert_eq!(canonical_mount_path("/app/data/"), "/app/data");
    assert_eq!(canonical_mount_path("/app/data///"), "/app/data");
    assert_eq!(canonical_mount_path("/app/data"), "/app/data");
    assert_eq!(canonical_mount_path("/"), "/");
    assert_eq!(canonical_mount_path("///"), "/");
}

#[test]
fn build_volume_canonicalizes_mount_path() {
    let mut cfg = config_for_build();
    cfg.service.disk = Some(disk("/app/data/", 3));
    let vol = build_volume(&cfg, "svc-1", cfg.service.disk.as_ref().unwrap());
    assert_eq!(vol.mount_path, "/app/data");
}

#[test]
fn diff_volume_ignores_trailing_slash_difference() {
    let vol = sample_volume();
    let changes = diff_volume(&vol, &disk("/app/data/", 5));
    assert!(
        changes.is_empty(),
        "trailing slash should not register as a diff: {changes:?}"
    );
}

/// A disk that was pulled, and a volume that was built, are without difference.
#[test]
fn pulled_and_built_disks_match() {
    let vol = sample_volume();
    assert!(diff_volume(&vol, &disk_from_volume(&vol)).is_empty());
    let cfg = config_disk(4, "/srv//");
    let d = cfg.service.disk.as_ref().unwrap();
    assert!(diff_volume(&build_volume(&cfg, "svc-1", d), d).is_empty());
}

// ─── Creating and updating ─────────────────────────────────────────────────

#[test]
fn run_create_errors_when_volume_already_exists() {
    let cfg = config_disk(3, "/app/data");
    assert_eq!(list_request(&cfg, &none()).unwrap().path, "/storage/volumes");
    let err = run_create(&cfg, &none(), &live(5)).unwrap_err().to_text();
    assert!(err.contains("already has a volume"), "{err}");
}

#[test]
fn run_create_posts_when_no_volume_exists() {
    let vol = run_create(&config_disk(3, "/app/data"), &none(), &Vec::new()).unwrap();
    let req = ApiClient::create_volume(&vol);
    let expected: serde_json::Value = serde_json::from_str(
        r#"{
            "name": "my-service-disk",
            "fk_project": "proj-1",
            "fk_workspace": "ws-1",
            "fk_region": "reg-1",
            "fk_service": "svc-1",
            "mount_path": "/app/data",
            "size": 3,
            "status": "pending"
        }"#,
    )
    .unwrap();
    assert_eq!(value(req.body.as_ref().unwrap()), expected);
}

#[test]
fn run_create_errors_without_disk_block() {
    let mut cfg = config_for_build();
    cfg.service.disk = None;
    let err = run_create(&cfg, &none(), &Vec::new()).unwrap_err().to_text();
    assert!(err.contains("service.disk"), "{err}");
    assert!(disk_or_err(&cfg, &none()).is_err());
    assert!(list_request(&cfg, &none()).is_err());
}

#[test]
fn run_update_errors_on_shrink() {
    let err = run_update(&config_disk(5, "/app/data"), &none(), &live(8)).unwrap_err().to_text();
    assert!(err.contains("shrink"), "{err}");
}

#[test]
fn run_update_noops_when_already_matching() {
    let plan = run_update(&config_disk(5, "/app/data"), &none(), &live(5)).unwrap();
    assert!(matches!(plan, UpdatePlan::Nothing(_)));
}

fn patch(cfg: &PartiriConfig) -> serde_json::Value {
    match run_update(cfg, &none(), &live(5)).unwrap() {
        UpdatePlan::Patch(id, changes) => {
            let req = ApiClient::update_volume(&id, &changes);
            assert_eq!(req.path, "/storage/volumes/vol-1");
            value(req.body.as_ref().unwrap())
        }
        UpdatePlan::Nothing(why) => panic!("expected a patch: {why}"),
    }
}

#[test]
fn run_update_patches_a_grow() {
    let sent = patch(&config_disk(8, "/app/data"));
    assert_eq!(sent, serde_json::from_str::<serde_json::Value>(r#"{ "size": 8 }"#).unwrap());
}

#[test]
fn run_update_patches_only_mount_path_on_a_remount() {
    let sent = patch(&config_disk(5, "/app/storage"));
    assert_eq!(
        sent,
        serde_json::from_str::<serde_json::Value>(r#"{ "mount_path": "/app/storage" }"#).unwrap()
    );
}

#[test]
fn run_update_errors_when_no_volume_to_update() {
    let err =
        run_update(&config_disk(5, "/app/data"), &none(), &Vec::new()).unwrap_err().to_text();
    assert!(err.contains("no volume to update"), "{err}");
}

#[test]
fn reports_name_the_volume() {
    let vol = sample_volume();
    assert!(created_report(&vol, "svc-1").message.contains("vol-1"));
    assert!(updated_report("vol-1", &vol).message.contains("vol-1"));
    assert!(detached_report("vol-1", &vol).message.contains("vol-1"));
    assert!(deleted_report("vol-1").message.contains("vol-1"));
}
