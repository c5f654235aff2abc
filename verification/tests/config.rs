//! The configuration file: its checks, its text, and where it is.
use partiri::client::service_json;
use partiri::config::{
    config_display, config_flag_suffix, init_config_path, resolve_config_path, validate_config,
    ConfigOverride, ConfigRead, DiskConfig, EnvVar, PartiriConfig, ServiceConfig,
    ValidationResult, CONFIG_FILE,
};
use partiri::json::Json;
use partiri::mcp::write_config;

fn valid_webservice() -> PartiriConfig {
    PartiriConfig {
        id: None,
        deploy_tag: None,
        fk_workspace: "ws-uuid".to_string(),
        fk_project: "proj-uuid".to_string(),
        service: ServiceConfig {
            name: "my-service".to_string(),
            deploy_type: "webservice".to_string(),
            runtime: "node".to_string(),
            root_path: ".".to_string(),
            repository_url: Some("https://github.com/org/repo".to_string()),
            repository_branch: Some("main".to_string()),
            registry_url: None,
            fk_service_secret: None,
            build_path: None,
            build_command: Some("npm run build".to_string()),
            pre_deploy_command: None,
            run_command: Some("npm start".to_string()),
            fk_region: "region-uuid".to_string(),
            fk_pod: "pod-uuid".to_string(),
            health_check_path: None,
            disk: None,
            maintenance_mode: false,
            active: true,
            env: None,
        },
    }
}

fn find<'a>(results: &'a [ValidationResult], field: &str) -> &'a ValidationResult {
    results.iter().find(|r| r.field == field).unwrap()
}

fn parsed(jsonc: &str) -> serde_json::Value {
    json5::from_str(jsonc).unwrap()
}

fn text(json: &Json) -> String {
    write_config(json).unwrap()
}

// ─── Valid configurations ──────────────────────────────────────────────────

#[test]
fn valid_webservice_passes_all_checks() {
    let config = valid_webservice();
    let results = validate_config(&config);
    assert!(results.iter().all(|r| r.ok), "unexpected failures: {:?}", results);
}

#[test]
fn a_static_site_needs_no_build_command() {
    let mut c = valid_webservice();
    c.service.deploy_type = "static".to_string();
    c.service.runtime = "static".to_string();
    c.service.build_command = None;
    c.service.run_command = None;
    let results = validate_config(&c);
    assert!(results.iter().all(|r| r.ok), "{results:?}");
    assert!(!results.iter().any(|r| r.field == "build_command"));
    // A runtime that builds the site still has to be told how.
    c.service.runtime = "node".to_string();
    assert!(!find(&validate_config(&c), "build_command").ok);
    c.service.deploy_type = "webservice".to_string();
    assert!(!find(&validate_config(&c), "build_command").ok);
}

#[test]
fn a_repository_needs_a_branch() {
    for branch in [None, Some(String::new())] {
        let mut c = valid_webservice();
        c.service.repository_branch = branch;
        let results = validate_config(&c);
        let failed: Vec<&str> =
            results.iter().filter(|r| !r.ok).map(|r| r.field.as_str()).collect();
        assert_eq!(failed, vec!["repository_branch"]);
        c.service.repository_url = None;
        c.service.registry_url = Some("ghcr.io/o/r:latest".to_string());
        assert!(validate_config(&c).iter().all(|r| r.ok));
    }
}

#[test]
fn valid_static_service_passes() {
    let mut c = valid_webservice();
    c.service.deploy_type = "static".to_string();
    c.service.runtime = "static".to_string();
    let results = validate_config(&c);
    assert!(results.iter().all(|r| r.ok), "{:?}", results);
}

#[test]
fn valid_private_service_passes() {
    let mut c = valid_webservice();
    c.service.deploy_type = "private-service".to_string();
    let results = validate_config(&c);
    assert!(results.iter().all(|r| r.ok), "{:?}", results);
}

#[test]
fn valid_worker_passes() {
    let mut c = valid_webservice();
    c.service.deploy_type = "worker".to_string();
    let results = validate_config(&c);
    assert!(results.iter().all(|r| r.ok), "{:?}", results);
}

#[test]
fn all_valid_runtimes_pass() {
    for runtime in &[
        "node", "deno", "rust", "python", "go", "ruby", "elixir", "php", "jvm", "dotnet", "cpp",
        "static", "registry",
    ] {
        let mut c = valid_webservice();
        c.service.runtime = runtime.to_string();
        let r = validate_config(&c);
        assert!(find(&r, "runtime").ok, "runtime '{}' should be valid", runtime);
    }
}

// ─── Required fields ───────────────────────────────────────────────────────

#[test]
fn empty_name_fails() {
    let mut c = valid_webservice();
    c.service.name = "".to_string();
    let r = validate_config(&c);
    assert!(!find(&r, "name").ok);
}

#[test]
fn empty_fk_region_fails() {
    let mut c = valid_webservice();
    c.service.fk_region = "".to_string();
    let r = validate_config(&c);
    assert!(!find(&r, "fk_region").ok);
}

#[test]
fn empty_fk_pod_fails() {
    let mut c = valid_webservice();
    c.service.fk_pod = "".to_string();
    let r = validate_config(&c);
    assert!(!find(&r, "fk_pod").ok);
}

#[test]
fn empty_root_path_fails() {
    let mut c = valid_webservice();
    c.service.root_path = "".to_string();
    let r = validate_config(&c);
    let check = find(&r, "root_path");
    assert!(!check.ok);
    assert_eq!(check.message, "root_path is required");
}

#[test]
fn invalid_deploy_type_fails() {
    let mut c = valid_webservice();
    c.service.deploy_type = "cronjob".to_string();
    let r = validate_config(&c);
    assert!(!find(&r, "deploy_type").ok);
    assert_eq!(
        find(&r, "deploy_type").message,
        "Must be: webservice | static | private-service | worker"
    );
}

#[test]
fn worker_deploy_type_is_valid() {
    let mut c = valid_webservice();
    c.service.deploy_type = "worker".to_string();
    let r = validate_config(&c);
    assert!(find(&r, "deploy_type").ok);
}

#[test]
fn source_build_worker_without_run_command_fails() {
    let mut c = valid_webservice();
    c.service.deploy_type = "worker".to_string();
    c.service.run_command = None;
    let r = validate_config(&c);
    assert!(!find(&r, "run_command").ok);
}

#[test]
fn source_build_worker_with_run_command_passes() {
    let mut c = valid_webservice();
    c.service.deploy_type = "worker".to_string();
    c.service.run_command = Some("node worker.js".to_string());
    let r = validate_config(&c);
    assert!(r.iter().all(|r| r.ok), "{:?}", r);
}

#[test]
fn registry_worker_without_run_command_passes() {
    let mut c = valid_webservice();
    c.service.deploy_type = "worker".to_string();
    c.service.repository_url = None;
    c.service.repository_branch = None;
    c.service.run_command = None;
    c.service.build_command = None;
    c.service.registry_url = Some("ghcr.io/org/worker:latest".to_string());
    let r = validate_config(&c);
    assert!(r.iter().all(|r| r.ok), "{:?}", r);
}

#[test]
fn invalid_runtime_fails() {
    let mut c = valid_webservice();
    c.service.runtime = "cobol".to_string();
    let r = validate_config(&c);
    assert!(!find(&r, "runtime").ok);
}

#[test]
fn name_length_counts_characters() {
    let mut c = valid_webservice();
    c.service.name = "abcdefghijklmnop".to_string();
    assert!(find(&validate_config(&c), "name_length").ok);
    c.service.name = "abcdefghijklmnopq".to_string();
    assert!(!find(&validate_config(&c), "name_length").ok);
    c.service.name = "éééééééééééééééé".to_string();
    assert!(find(&validate_config(&c), "name_length").ok);
}

#[test]
fn blank_commands_fail() {
    let mut c = valid_webservice();
    c.service.build_command = Some(" \t".to_string());
    c.service.run_command = Some("\u{2003}".to_string());
    let r = validate_config(&c);
    assert!(!find(&r, "build_command").ok);
    assert!(!find(&r, "run_command").ok);
}

// ─── Sources ───────────────────────────────────────────────────────────────

#[test]
fn both_repo_and_registry_fails() {
    let mut c = valid_webservice();
    c.service.registry_url = Some("registry.example.com".to_string());
    let r = validate_config(&c);
    let check = find(&r, "source");
    assert!(!check.ok);
    assert!(check.message.contains("both"));
}

#[test]
fn neither_repo_nor_registry_fails() {
    let mut c = valid_webservice();
    c.service.repository_url = None;
    let r = validate_config(&c);
    assert!(!find(&r, "source").ok);
}

#[test]
fn static_with_registry_fails() {
    let mut c = valid_webservice();
    c.service.deploy_type = "static".to_string();
    c.service.repository_url = None;
    c.service.registry_url = Some("registry.example.com".to_string());
    let r = validate_config(&c);
    assert!(r.iter().any(|r| r.field == "deploy_type/static" && !r.ok));
}

// ─── The id ────────────────────────────────────────────────────────────────

#[test]
fn id_or_err_returns_id_when_set() {
    let mut c = valid_webservice();
    c.id = Some("svc-abc-123".to_string());
    assert_eq!(c.id_or_err().unwrap(), "svc-abc-123");
}

#[test]
fn id_or_err_returns_err_when_none() {
    let c = valid_webservice();
    assert!(c.id_or_err().is_err());
    assert_eq!(
        c.id_or_err().unwrap_err().to_text(),
        "Service not yet created. Run 'partiri service create' first."
    );
}

// ─── The text of the file ──────────────────────────────────────────────────

#[test]
fn env_is_never_written_to_jsonc() {
    let mut config = valid_webservice();
    config.service.env = Some(vec![EnvVar {
        key: "DATABASE_URL".to_string(),
        value: "postgres://localhost/db".to_string(),
    }]);
    let jsonc = config.to_jsonc_string().unwrap();
    assert!(
        !jsonc.contains("\"env\""),
        "env block must not appear in .partiri.jsonc output, got:\n{jsonc}"
    );
    assert!(
        !jsonc.contains("DATABASE_URL"),
        "env values must not leak into .partiri.jsonc output"
    );
}

#[test]
fn env_is_serialized_via_serde_when_set() {
    let mut config = valid_webservice();
    config.service.env = Some(vec![
        EnvVar {
            key: "DATABASE_URL".to_string(),
            value: "postgres://localhost/db".to_string(),
        },
        EnvVar {
            key: "PORT".to_string(),
            value: "3000".to_string(),
        },
    ]);
    let json = text(&service_json(&config.service));
    assert!(json.contains("\"env\""));
    let parsed: serde_json::Value = serde_json::from_str(&json).unwrap();
    let env = parsed["env"].as_array().expect("env should round-trip when Some");
    assert_eq!(env.len(), 2);
    assert_eq!(env[0]["key"], "DATABASE_URL");
    assert_eq!(env[1]["value"], "3000");
}

#[test]
fn env_field_omitted_from_payload_when_none() {
    let config = valid_webservice();
    let json = text(&service_json(&config.service));
    assert!(
        !json.contains("\"env\""),
        "env must be skipped on serde output when None, got: {json}"
    );
}

#[test]
fn optional_fields_omitted_when_none() {
    let mut config = valid_webservice();
    config.service.build_command = None;
    let json = text(&service_json(&config.service));
    assert!(!json.contains("registry_url"));
    assert!(!json.contains("build_command"));
    assert!(!json.contains("fk_service_secret"));
}

#[test]
fn to_jsonc_string_roundtrip() {
    let config = valid_webservice();
    let jsonc = config.to_jsonc_string().unwrap();
    let loaded = parsed(&jsonc);
    assert_eq!(loaded["service"]["name"], config.service.name.as_str());
    assert_eq!(loaded["service"]["deploy_type"], config.service.deploy_type.as_str());
    assert_eq!(loaded["service"]["fk_region"], config.service.fk_region.as_str());
    assert_eq!(
        loaded["service"]["repository_url"].as_str(),
        config.service.repository_url.as_deref()
    );
}

#[test]
fn to_jsonc_string_preserves_comments_and_roundtrips() {
    let config = valid_webservice();
    let data = config.to_jsonc_string().unwrap();
    assert!(data.contains("//"), "JSONC output should contain comments");
    let loaded = parsed(&data);
    assert_eq!(loaded["service"]["name"], config.service.name.as_str());
    assert_eq!(loaded["id"].as_str(), config.id.as_deref());
}

#[test]
fn to_jsonc_string_with_deploy_tag_set_roundtrips() {
    let mut config = valid_webservice();
    config.deploy_tag = Some("ab12c".to_string());
    let jsonc = config.to_jsonc_string().unwrap();
    assert!(jsonc.contains("ab12c"));
    assert!(jsonc.contains("deploy_tag"));
    let loaded = parsed(&jsonc);
    assert_eq!(loaded["deploy_tag"].as_str(), Some("ab12c"));
}

#[test]
fn to_jsonc_string_with_id_set_roundtrips() {
    let mut config = valid_webservice();
    config.id = Some("svc-new-id-123".to_string());
    let jsonc = config.to_jsonc_string().unwrap();
    assert!(jsonc.contains("svc-new-id-123"));
    assert!(jsonc.contains("//"));
    let loaded = parsed(&jsonc);
    assert_eq!(loaded["id"].as_str(), Some("svc-new-id-123"));
}

/// Every field comes back as it was, whatever characters it holds.
#[test]
fn every_field_survives_the_file() {
    let mut config = valid_webservice();
    let odd = "a\"b\\c\n\t\u{1}é//x";
    config.id = Some(odd.to_string());
    config.fk_workspace = odd.to_string();
    config.service.name = odd.to_string();
    config.service.fk_service_secret = Some("sec".to_string());
    config.service.build_path = Some("dist".to_string());
    config.service.pre_deploy_command = Some("migrate".to_string());
    config.service.health_check_path = Some("/up".to_string());
    config.service.maintenance_mode = true;
    config.service.active = false;
    let v = parsed(&config.to_jsonc_string().unwrap());
    assert_eq!(v["id"], odd);
    assert_eq!(v["fk_workspace"], odd);
    assert_eq!(v["fk_project"], "proj-uuid");
    let s = &v["service"];
    assert_eq!(s["name"], odd);
    assert_eq!(s["runtime"], "node");
    assert_eq!(s["root_path"], ".");
    assert_eq!(s["repository_branch"], "main");
    assert_eq!(s["fk_service_secret"], "sec");
    assert_eq!(s["build_path"], "dist");
    assert_eq!(s["build_command"], "npm run build");
    assert_eq!(s["pre_deploy_command"], "migrate");
    assert_eq!(s["run_command"], "npm start");
    assert_eq!(s["fk_pod"], "pod-uuid");
    assert_eq!(s["health_check_path"], "/up");
    assert_eq!(s["maintenance_mode"], true);
    assert_eq!(s["active"], false);
    assert!(s.get("disk").is_none());
    assert!(s.get("registry_url").is_none());
}

#[test]
fn registry_source_is_written_in_place_of_the_repository() {
    let mut config = valid_webservice();
    config.service.repository_url = None;
    config.service.registry_url = Some("ghcr.io/o/i:1".to_string());
    let v = parsed(&config.to_jsonc_string().unwrap());
    assert_eq!(v["service"]["registry_url"], "ghcr.io/o/i:1");
    assert!(v["service"].get("repository_url").is_none());
}

// ─── The disk ──────────────────────────────────────────────────────────────

#[test]
fn disk_is_omitted_from_api_service_body() {
    let mut config = valid_webservice();
    config.service.disk = Some(DiskConfig {
        mount_path: "/app/data".to_string(),
        size: 5,
    });
    let json = text(&service_json(&config.service));
    assert!(
        !json.contains("\"disk\""),
        "disk must NOT be sent to the services endpoint: {json}"
    );
}

#[test]
fn disk_none_is_omitted_from_serialization() {
    let config = valid_webservice();
    let json = text(&service_json(&config.service));
    assert!(
        !json.contains("\"disk\""),
        "disk should be absent when None: {json}"
    );
}

#[test]
fn to_jsonc_string_with_disk_block_roundtrips() {
    let mut config = valid_webservice();
    config.service.disk = Some(DiskConfig {
        mount_path: "/app/data".to_string(),
        size: 2,
    });
    let jsonc = config.to_jsonc_string().unwrap();
    assert!(
        jsonc.contains("/app/data"),
        "mount_path should appear: {jsonc}"
    );
    assert!(
        jsonc.contains("\"size\""),
        "size key should appear: {jsonc}"
    );
    let loaded = parsed(&jsonc);
    let disk = &loaded["service"]["disk"];
    assert_eq!(disk["mount_path"], "/app/data");
    assert_eq!(disk["size"], 2);
}

#[test]
fn to_jsonc_string_without_disk_contains_disk_comment() {
    let config = valid_webservice();
    let jsonc = config.to_jsonc_string().unwrap();
    assert!(
        jsonc.contains("disk"),
        "disk comment should appear: {jsonc}"
    );
}

// ─── Where the file is ─────────────────────────────────────────────────────

#[test]
fn resolve_config_path_existing_dir_joins_config_file() {
    let resolved = resolve_config_path("/tmp/project", true, '/');
    assert_eq!(resolved, format!("/tmp/project/{CONFIG_FILE}"));
}

#[test]
fn resolve_config_path_nonexistent_plain_path_is_itself() {
    let p = "/tmp/project/does-not-exist.jsonc";
    assert_eq!(resolve_config_path(p, false, '/'), p);
}

#[test]
fn resolve_config_path_existing_file_is_itself() {
    let p = "/tmp/project/custom.jsonc";
    assert_eq!(resolve_config_path(p, false, '/'), p);
}

#[test]
fn resolve_config_path_trailing_separator_is_treated_as_dir() {
    let resolved = resolve_config_path("/tmp/project/does-not-exist-yet/", false, '/');
    assert_eq!(resolved, format!("/tmp/project/does-not-exist-yet/{CONFIG_FILE}"));
}

#[test]
fn save_to_names_the_path_and_holds_the_text() {
    let config = valid_webservice();
    let write = config.save_to("/tmp/a/b/custom.jsonc");
    assert_eq!(write.path, "/tmp/a/b/custom.jsonc");
    assert_eq!(write.contents, config.to_jsonc_string().unwrap());
    assert!(write.outcome(Ok(())).is_ok());
    assert_eq!(
        write.outcome(Err("disk full".to_string())).unwrap_err().to_text(),
        "Failed to write /tmp/a/b/custom.jsonc: disk full"
    );
    let read = ConfigRead::Parsed(config.clone());
    let loaded = PartiriConfig::load_from(&write.path, &ConfigOverride::none(), read).unwrap();
    assert_eq!(loaded.service.name, config.service.name);
    assert_eq!(loaded.fk_workspace, config.fk_workspace);
    assert_eq!(loaded.service.fk_region, config.service.fk_region);
}

#[test]
fn load_from_missing_path_error_contains_full_path() {
    let missing = "/tmp/project/nope.jsonc";
    let over = ConfigOverride::none();
    let err = PartiriConfig::load_from(missing, &over, ConfigRead::Missing).unwrap_err();
    assert!(
        err.to_text().contains(missing),
        "error should name the full path, got: {}",
        err.to_text()
    );
}

#[test]
fn load_reports_what_is_wrong_with_the_file() {
    let over = ConfigOverride::none();
    assert!(PartiriConfig::load(&over, ConfigRead::Missing).is_err());
    let unreadable = ConfigRead::Unreadable("denied".to_string());
    let err = PartiriConfig::load(&over, unreadable).unwrap_err();
    assert!(err.to_text().contains("denied"), "{}", err.to_text());
    let broken = ConfigRead::Unparseable("expected a comma".to_string());
    let err = PartiriConfig::load(&over, broken).unwrap_err();
    assert!(err.to_text().contains("expected a comma"), "{}", err.to_text());
    let loaded = PartiriConfig::load(&over, ConfigRead::Parsed(valid_webservice())).unwrap();
    assert_eq!(loaded.service.name, "my-service");
}

#[test]
fn config_path_with_no_override_defaults_to_config_file() {
    assert_eq!(PartiriConfig::config_path(&ConfigOverride::none()), CONFIG_FILE);
}

#[test]
fn override_is_shown_and_passed_on() {
    let mut over = ConfigOverride::none();
    assert_eq!(config_display(&over), CONFIG_FILE);
    assert_eq!(config_flag_suffix(&over), "");
    init_config_path(&mut over, Some("/srv/app".to_string()), true, '/');
    assert_eq!(config_display(&over), "/srv/app/.partiri.jsonc");
    assert!(config_flag_suffix(&over).contains("/srv/app/.partiri.jsonc"));
    assert_eq!(valid_webservice().save(&over).path, "/srv/app/.partiri.jsonc");
}

/// Whatever the texts, the checks come back, and nothing is decided twice.
#[test]
fn validate_config_accepts_any_text() {
    let samples = ["", " ", "\u{0}", "🦀🦀", "static", "webservice\n", "\"", "a\u{301}"];
    for a in samples {
        for b in samples {
            let mut c = valid_webservice();
            c.service.name = a.to_string();
            c.service.deploy_type = b.to_string();
            c.service.runtime = a.to_string();
            c.service.root_path = b.to_string();
            let r = validate_config(&c);
            assert!(r.len() >= 8);
            assert_eq!(find(&r, "name").ok, !a.is_empty());
            assert_eq!(find(&r, "deploy_type").ok, b == "static");
            assert_eq!(find(&r, "runtime").ok, a == "static");
            assert_eq!(find(&r, "root_path").ok, !b.is_empty());
        }
    }
}
