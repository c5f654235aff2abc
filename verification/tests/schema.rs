//! The schema of the configuration file and its index.
use partiri::config::{DEPLOY_TYPES, DISK_SIZE_MAX, DISK_SIZE_MIN, MAX_NAME_LEN, RUNTIMES};
use partiri::mcp::write_config;
use partiri::schema::{config_schema, SchemaIndex};

fn schema() -> serde_json::Value {
    serde_json::from_str(&write_config(&config_schema()).unwrap()).unwrap()
}

#[test]
fn schema_top_level_properties_match_partiri_config_fields() {
    let schema = schema();
    let props = schema["properties"]
        .as_object()
        .expect("schema must have a properties object");

    let mut actual: Vec<&str> = props.keys().map(|s| s.as_str()).collect();
    actual.sort_unstable();

    let mut expected = vec!["id", "deploy_tag", "fk_workspace", "fk_project", "service"];
    expected.sort_unstable();

    assert_eq!(
        actual, expected,
        "top-level schema properties must match PartiriConfig serde field names"
    );
}

#[test]
fn schema_service_properties_match_service_config_fields_minus_env() {
    let schema = schema();
    let svc_props = schema
        .pointer("/properties/service/properties")
        .and_then(|v| v.as_object())
        .expect("schema must have service.properties object");

    let mut actual: Vec<&str> = svc_props.keys().map(|s| s.as_str()).collect();
    actual.sort_unstable();

    let mut expected = vec![
        "name",
        "deploy_type",
        "runtime",
        "root_path",
        "repository_url",
        "repository_branch",
        "registry_url",
        "fk_service_secret",
        "build_path",
        "build_command",
        "pre_deploy_command",
        "run_command",
        "fk_region",
        "fk_pod",
        "health_check_path",
        "maintenance_mode",
        "active",
        "disk",
    ];
    expected.sort_unstable();

    assert_eq!(
        actual, expected,
        "service.properties must match ServiceConfig serde field names (env excluded)"
    );
}

#[test]
fn schema_has_required_top_level_keys() {
    let schema = schema();
    assert_eq!(schema["title"], ".partiri.jsonc");
    assert_eq!(
        schema["description"],
        "Per-service config file consumed by the partiri CLI."
    );
    assert_eq!(schema["type"], "object");
    assert!(schema["required"].is_array());
    assert!(schema["properties"].is_object());
    assert!(schema["rules"].is_array());
}

fn listed<'a>(schema: &'a serde_json::Value, pointer: &str) -> Vec<&'a str> {
    schema
        .pointer(pointer)
        .and_then(|v| v.as_array())
        .expect("an enum array")
        .iter()
        .filter_map(|v| v.as_str())
        .collect()
}

#[test]
fn schema_deploy_type_has_enum() {
    let schema = schema();
    let values = listed(&schema, "/properties/service/properties/deploy_type/enum");
    assert_eq!(values, DEPLOY_TYPES);
}

#[test]
fn schema_runtime_has_enum() {
    let schema = schema();
    let values = listed(&schema, "/properties/service/properties/runtime/enum");
    assert_eq!(values, RUNTIMES);
}

#[test]
fn schema_name_has_max_length() {
    let schema = schema();
    let max = schema
        .pointer("/properties/service/properties/name/maxLength")
        .and_then(|v| v.as_u64())
        .expect("name must have maxLength");
    assert_eq!(max, MAX_NAME_LEN as u64);
}

#[test]
fn schema_disk_size_has_min_max() {
    let schema = schema();
    let min = schema
        .pointer("/properties/service/properties/disk/properties/size/minimum")
        .and_then(|v| v.as_u64())
        .expect("disk.size must have minimum");
    let max = schema
        .pointer("/properties/service/properties/disk/properties/size/maximum")
        .and_then(|v| v.as_u64())
        .expect("disk.size must have maximum");
    assert_eq!(min, DISK_SIZE_MIN as u64);
    assert_eq!(max, DISK_SIZE_MAX as u64);
}

#[test]
fn schema_env_is_absent() {
    let schema = schema();
    let svc_props = schema
        .pointer("/properties/service/properties")
        .and_then(|v| v.as_object())
        .expect("service.properties must exist");
    assert!(
        !svc_props.contains_key("env"),
        "env must not appear in the schema"
    );
}

#[test]
fn schema_disk_has_no_write_only() {
    let schema = schema();
    let disk = schema
        .pointer("/properties/service/properties/disk")
        .expect("disk must exist in schema");
    assert!(
        disk.get("writeOnly").is_none(),
        "disk must not carry writeOnly:true in the config schema"
    );
}

#[test]
fn schema_publishes_field_defaults() {
    let schema = schema();
    assert_eq!(
        schema
            .pointer("/properties/service/properties/root_path/default")
            .and_then(|v| v.as_str()),
        Some("."),
        "root_path default should be published"
    );
    assert_eq!(
        schema
            .pointer("/properties/service/properties/maintenance_mode/default")
            .and_then(|v| v.as_bool()),
        Some(false),
        "maintenance_mode default should be published"
    );
    assert_eq!(
        schema
            .pointer("/properties/service/properties/active/default")
            .and_then(|v| v.as_bool()),
        Some(true),
        "active default should be published"
    );
}

// ─── The index ─────────────────────────────────────────────────────────────

#[test]
fn index_covers_all_three_levels() {
    let idx = SchemaIndex::build();
    assert!(idx.root.contains_key("fk_workspace"));
    assert!(idx.service.contains_key("runtime"));
    assert!(idx.disk.contains_key("mount_path"));
}

#[test]
fn runtime_enum_matches_config_constants() {
    let idx = SchemaIndex::build();
    let rt = idx.service.get("runtime").unwrap();
    assert_eq!(rt.enum_values, RUNTIMES);
    let dt = idx.service.get("deploy_type").unwrap();
    assert_eq!(dt.enum_values, DEPLOY_TYPES);
}

#[test]
fn env_is_not_a_known_service_key() {
    let idx = SchemaIndex::build();
    assert!(!idx.service.contains_key("env"));
}

#[test]
fn level_resolves_paths() {
    let idx = SchemaIndex::build();
    assert!(idx.level(&[]).is_some());
    assert!(idx.level(&["service".into()]).is_some());
    assert!(idx.level(&["service".into(), "disk".into()]).is_some());
    assert!(idx.level(&["nope".into()]).is_none());
}

/// The index describes every property as the schema does.
#[test]
fn index_and_schema_describe_alike() {
    let idx = SchemaIndex::build();
    let schema = schema();
    let levels = [
        (Vec::new(), "/properties"),
        (vec!["service".to_string()], "/properties/service/properties"),
        (
            vec!["service".to_string(), "disk".to_string()],
            "/properties/service/properties/disk/properties",
        ),
    ];
    for (path, pointer) in levels {
        let props = schema.pointer(pointer).and_then(|v| v.as_object()).unwrap();
        for (key, prop) in props {
            let info = idx.describe(&path, key).unwrap();
            assert_eq!(prop["description"].as_str(), Some(info.description.as_str()), "{key}");
        }
        assert_eq!(idx.level(&path).unwrap().entries.len(), props.len());
    }
    assert!(idx.describe(&[], "env").is_none());
}
