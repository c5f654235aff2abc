//! The language server.
use partiri::client::{
    Pod, PodPrice, Project, Region, RegionPricing, Service, Workspace, WorkspaceSecret,
};
use partiri::config::{
    validate_config, DiskConfig, EnvVar, PartiriConfig, ServiceConfig, DEPLOY_TYPES, MAX_NAME_LEN,
    RUNTIMES,
};
use partiri::error::text_error;
use partiri::llm::{
    add_services, pricing_region, service_requests, ContextData, PriceText, ProjectService,
    WorkspaceData,
};
use partiri::lsp::actions::{
    self, code_actions, end_of_line, quickfixes, truncated_name, whole_line_range, CodeAction, TextEdit,
    CMD_DEPLOY, CMD_PULL, CMD_REFRESH_CONTEXT, CMD_VALIDATE_REMOTE,
};
use partiri::lsp::completion::{complete, completions, CompletionItem, ItemKind};
use partiri::lsp::context_cache::{ContextCache, ContextView, TTL_MILLIS};
use partiri::lsp::diagnostics::{
    anchor_range, diagnose, diagnose_remote, field_paths, local_diagnostics, remote_diagnostics,
    Diagnostic, Severity,
};
use partiri::lsp::documents::{LineIndex, Position};
use partiri::lsp::hover::{hover, hover_at, Hover};
use partiri::lsp::locate::{
    cursor_context, heuristic_context, keys_at_path, name_range_of_path, parse_ast, range_of_path,
    CursorCtx, Node, Parsed, Prop, Span, SyntaxError,
};
use partiri::lsp::server::{
    deploy_notice, load_config_for, note_kind, on_execute_command, pull_notice, remote_notice,
    request_kind, server_capabilities, CommandPlan, CommandStep, InitOptions, Level, NoteKind,
    PendingAction, RemoteValidation, RequestKind, Server, THROTTLE_MILLIS,
};
use partiri::schema::SchemaIndex;
use partiri::validate::CheckRow;

fn schema() -> SchemaIndex {
    SchemaIndex::build()
}

// ─── Reading a configuration ───────────────────────────────────────────────

fn text_at(v: &serde_json::Value, key: &str) -> Result<String, String> {
    match v.get(key).and_then(|x| x.as_str()) {
        Some(s) => Ok(s.to_string()),
        None => Err(format!("missing field `{key}`")),
    }
}

fn opt_at(v: &serde_json::Value, key: &str) -> Option<String> {
    v.get(key).and_then(|x| x.as_str()).map(str::to_string)
}

fn parse_str(text: &str) -> Result<PartiriConfig, String> {
    let v: serde_json::Value = json5::from_str(text).map_err(|e| e.to_string())?;
    let s = v.get("service").cloned().unwrap_or_default();
    Ok(PartiriConfig {
        id: opt_at(&v, "id"),
        deploy_tag: opt_at(&v, "deploy_tag"),
        fk_workspace: text_at(&v, "fk_workspace")?,
        fk_project: text_at(&v, "fk_project")?,
        service: ServiceConfig {
            name: text_at(&s, "name")?,
            deploy_type: text_at(&s, "deploy_type")?,
            runtime: text_at(&s, "runtime")?,
            root_path: text_at(&s, "root_path")?,
            repository_url: opt_at(&s, "repository_url"),
            repository_branch: opt_at(&s, "repository_branch"),
            registry_url: opt_at(&s, "registry_url"),
            fk_service_secret: opt_at(&s, "fk_service_secret"),
            build_path: opt_at(&s, "build_path"),
            build_command: opt_at(&s, "build_command"),
            pre_deploy_command: opt_at(&s, "pre_deploy_command"),
            run_command: opt_at(&s, "run_command"),
            fk_region: text_at(&s, "fk_region")?,
            fk_pod: text_at(&s, "fk_pod")?,
            health_check_path: opt_at(&s, "health_check_path"),
            maintenance_mode: s.get("maintenance_mode").and_then(|x| x.as_bool()).unwrap_or(false),
            active: s.get("active").and_then(|x| x.as_bool()).unwrap_or(true),
            disk: s.get("disk").map(|d| DiskConfig {
                mount_path: opt_at(d, "mount_path").unwrap_or_default(),
                size: d.get("size").and_then(|x| x.as_u64()).unwrap_or(0) as u32,
            }),
            env: s.get("env").and_then(|e| e.as_array()).map(|e| {
                e.iter()
                    .map(|x| EnvVar {
                        key: opt_at(x, "key").unwrap_or_default(),
                        value: opt_at(x, "value").unwrap_or_default(),
                    })
                    .collect()
            }),
        },
    })
}

// ─── Positions ─────────────────────────────────────────────────────────────

fn at(line: u32, character: u32) -> Position {
    Position { line, character }
}

#[test]
fn position_ascii() {
    let text = "ab\ncd";
    let idx = LineIndex::new(text);
    assert_eq!(idx.position(text, 0), at(0, 0));
    assert_eq!(idx.position(text, 2), at(0, 2));
    assert_eq!(idx.position(text, 3), at(1, 0));
    assert_eq!(idx.position(text, 5), at(1, 2));
}

#[test]
fn position_clamps_past_eof() {
    let text = "ab";
    let idx = LineIndex::new(text);
    assert_eq!(idx.position(text, 99), at(0, 2));
}

#[test]
fn position_utf16_for_multibyte() {
    let text = "€x";
    let idx = LineIndex::new(text);
    assert_eq!(idx.position(text, 3), at(0, 1));
    assert_eq!(idx.position(text, 4), at(0, 2));
}

#[test]
fn offset_roundtrip() {
    let text = "{\n  \"name\": \"café\"\n}";
    let idx = LineIndex::new(text);
    for off in [0, 1, 4, 10, text.len()] {
        let pos = idx.position(text, off);
        assert_eq!(idx.offset(text, pos), off, "offset {off} must round-trip");
    }
}

#[test]
fn offset_clamps_past_line_end() {
    let text = "ab\ncd";
    let idx = LineIndex::new(text);
    assert_eq!(idx.offset(text, at(0, 99)), 2);
    assert_eq!(idx.offset(text, at(9, 0)), 5);
}

/// Every boundary between two characters comes back, surrogate pairs included.
#[test]
fn every_boundary_round_trips() {
    let text = "a🦀\né\r\n\n€𝄞x";
    let idx = LineIndex::new(text);
    for (off, _) in text.char_indices() {
        assert_eq!(idx.offset(text, idx.position(text, off)), off);
    }
    assert_eq!(idx.position(text, 5), at(0, 3));
}

// ─── The tree ──────────────────────────────────────────────────────────────

const TREE_DOC: &str = r#"{
  // a comment
  "id": null,
  "fk_workspace": "ws-1",
  "service": {
    "name": "svc",
    "runtime": "node",
    "disk": { "mount_path": "/data", "size": 2 },
  },
}"#;

fn ast(text: &str) -> Node {
    match parse_ast(text) {
        Parsed::Value(n) => n,
        other => panic!("expected a value, got {other:?}"),
    }
}

#[test]
fn parses_comments_and_trailing_commas() {
    assert!(matches!(parse_ast(TREE_DOC), Parsed::Value(_)));
    assert!(matches!(parse_ast(" // nothing\n"), Parsed::Empty));
    assert!(matches!(parse_ast("{ \"id\": }"), Parsed::Error(_)));
}

#[test]
fn range_of_nested_path_covers_value() {
    let root = ast(TREE_DOC);
    let span = range_of_path(&root, &["service", "name"]).unwrap();
    assert_eq!(&TREE_DOC[span.start..span.end], "\"svc\"");
}

#[test]
fn name_range_of_path_covers_key() {
    let root = ast(TREE_DOC);
    let span = name_range_of_path(&root, &["service", "runtime"]).unwrap();
    assert_eq!(&TREE_DOC[span.start..span.end], "\"runtime\"");
}

#[test]
fn missing_path_is_none() {
    let root = ast(TREE_DOC);
    assert!(range_of_path(&root, &["service", "nope"]).is_none());
}

#[test]
fn keys_at_path_lists_object_keys() {
    let root = ast(TREE_DOC);
    let keys = keys_at_path(&root, &["service"]);
    assert!(keys.contains(&"name".to_string()));
    assert!(keys.contains(&"disk".to_string()));
    assert_eq!(keys, ["name", "runtime", "disk"]);
}

#[test]
fn cursor_in_value_string() {
    let root = ast(TREE_DOC);
    let offset = TREE_DOC.find("node").unwrap() + 1;
    match cursor_context(&root, offset) {
        CursorCtx::Value { path, key, text, .. } => {
            assert_eq!(path, vec!["service".to_string()]);
            assert_eq!(key, "runtime");
            assert_eq!(text.as_deref(), Some("node"));
        }
        other => panic!("expected Value, got {other:?}"),
    }
}

#[test]
fn cursor_on_property_name() {
    let root = ast(TREE_DOC);
    let offset = TREE_DOC.find("\"runtime\"").unwrap() + 3;
    match cursor_context(&root, offset) {
        CursorCtx::Name { path, key, .. } => {
            assert_eq!(path, vec!["service".to_string()]);
            assert_eq!(key.as_deref(), Some("runtime"));
        }
        other => panic!("expected Name, got {other:?}"),
    }
}

#[test]
fn cursor_in_disk_object() {
    let root = ast(TREE_DOC);
    let offset = TREE_DOC.find("/data").unwrap();
    match cursor_context(&root, offset) {
        CursorCtx::Value { path, key, .. } => {
            assert_eq!(path, vec!["service".to_string(), "disk".to_string()]);
            assert_eq!(key, "mount_path");
        }
        other => panic!("expected Value, got {other:?}"),
    }
}

#[test]
fn heuristic_value_context_in_broken_doc() {
    let text = "{\n  \"service\": {\n    \"runtime\": \"no";
    match heuristic_context(text, text.len()) {
        CursorCtx::Value { path, key, .. } => {
            assert_eq!(path, vec!["service".to_string()]);
            assert_eq!(key, "runtime");
        }
        other => panic!("expected Value, got {other:?}"),
    }
}

#[test]
fn a_colon_in_a_value_is_not_the_keys() {
    let key_at_end = |text: &str| match heuristic_context(text, text.len()) {
        CursorCtx::Value { path, key, .. } => {
            assert_eq!(path, vec!["service".to_string()]);
            key
        }
        other => panic!("expected Value, got {other:?}"),
    };
    let text = "{\n  \"service\": {\n    \"repository_url\": \"https://";
    assert_eq!(key_at_end(text), "repository_url");
    // A finished value does not count either, and the nearest key decides.
    let text = "{\n  \"service\": {\n    \"registry_url\": \"r:5000/i:1\", \"name\" : ";
    assert_eq!(key_at_end(text), "name");
    let text = "{ \"service\": { \"a\": \"\\\":x\", \"b\": \"c:";
    assert_eq!(key_at_end(text), "b");
}

#[test]
fn heuristic_name_context_at_root() {
    let text = "{\n  \"id\": null,\n  ";
    match heuristic_context(text, text.len()) {
        CursorCtx::Name { path, .. } => assert!(path.is_empty()),
        other => panic!("expected Name, got {other:?}"),
    }
}

// ─── Diagnostics ───────────────────────────────────────────────────────────

const VALID: &str = r#"{
  // comment
  "id": null,
  "deploy_tag": null,
  "fk_workspace": "ws-1",
  "fk_project": "proj-1",
  "service": {
    "name": "my-service",
    "deploy_type": "webservice",
    "runtime": "node",
    "root_path": ".",
    "repository_url": "https://github.com/o/r",
    "repository_branch": "main",
    "build_command": "npm run build",
    "run_command": "npm start",
    "fk_region": "region-1",
    "fk_pod": "pod-1",
    "maintenance_mode": false,
    "active": true,
  },
}"#;

fn diagnosed(text: &str) -> Vec<Diagnostic> {
    local_diagnostics(text, &parse_str(text), &schema())
}

#[test]
fn valid_config_has_no_diagnostics() {
    let diags = diagnosed(VALID);
    assert!(diags.is_empty(), "unexpected: {diags:?}");
}

#[test]
fn syntax_error_yields_one_error() {
    let diags = diagnosed("{ \"id\": }");
    assert_eq!(diags.len(), 1);
    assert_eq!(diags[0].severity, Severity::Error);
    assert!(diags[0].message.starts_with("Syntax error"));
    assert_ne!(diags[0].start, diags[0].end);
}

#[test]
fn bad_runtime_anchors_on_runtime_value() {
    let text = VALID.replace("\"node\"", "\"cobol\"");
    let diags = diagnosed(&text);
    let d = diags
        .iter()
        .find(|d| d.message.contains("Must be:"))
        .expect("runtime diagnostic");
    let line_text: Vec<&str> = text.lines().collect();
    assert!(line_text[d.start.line as usize].contains("cobol"));
}

#[test]
fn missing_source_reports_on_service() {
    let text = VALID
        .replace("    \"repository_url\": \"https://github.com/o/r\",\n", "")
        .replace("    \"repository_branch\": \"main\",\n", "");
    let diags = diagnosed(&text);
    let d = diags
        .iter()
        .find(|d| d.message.contains("repository_url or registry_url"))
        .expect("source diagnostic");
    let line_text: Vec<&str> = text.lines().collect();
    assert!(line_text[d.start.line as usize].contains("\"service\""));
}

#[test]
fn unknown_key_warns() {
    let text = VALID.replace(
        "\"root_path\": \".\",",
        "\"root_path\": \".\",\n    \"prot\": 1,",
    );
    let diags = diagnosed(&text);
    let d = diags
        .iter()
        .find(|d| d.message.contains("Unknown field 'prot'"))
        .expect("unknown-key diagnostic");
    assert_eq!(d.severity, Severity::Warning);
}

#[test]
fn env_block_gets_dedicated_warning() {
    let text = VALID.replace(
        "\"active\": true,",
        "\"active\": true,\n    \"env\": [{\"key\": \"A\", \"value\": \"b\"}],",
    );
    let diags = diagnosed(&text);
    assert!(diags
        .iter()
        .any(|d| d.message.contains("partiri service env")));
}

#[test]
fn a_config_of_the_wrong_shape_is_one_error() {
    let diags = diagnosed("{ \"service\": {} }");
    assert_eq!(diags.len(), 1);
    assert!(diags[0].message.starts_with("Invalid .partiri.jsonc: missing field"), "{diags:?}");
    assert_eq!(diags[0].start, at(0, 2));
    assert!(diagnosed("").is_empty());
}

#[test]
fn remote_rows_map_to_ranges() {
    let rows = vec![
        CheckRow::ok("remote.fk_workspace", "fine"),
        CheckRow::fail("remote.fk_region", "region UUID not available"),
        CheckRow::warn("remote.balance", "balance low"),
    ];
    let diags = remote_diagnostics(&rows, VALID);
    assert_eq!(diags.len(), 2);
    assert_eq!(diags[0].severity, Severity::Error);
    assert_eq!(diags[0].source, "partiri-remote");
    assert_eq!(diags[1].severity, Severity::Warning);
    let line_text: Vec<&str> = VALID.lines().collect();
    assert!(line_text[diags[0].start.line as usize].contains("fk_region"));
}

#[test]
fn field_path_table_is_total_over_validate_config() {
    let broken = r#"{
  "id": null,
  "fk_workspace": "",
  "fk_project": "",
  "service": {
    "name": "",
    "deploy_type": "bad",
    "runtime": "bad",
    "root_path": "",
    "repository_url": "x",
    "registry_url": "y",
    "fk_region": "",
    "fk_pod": "",
    "maintenance_mode": false,
    "active": true
  }
}"#;
    let cfg = parse_str(broken).unwrap();
    for result in validate_config(&cfg) {
        if !result.ok {
            assert!(
                !field_paths(&result.field).is_empty(),
                "no anchor mapping for validate_config field '{}'",
                result.field
            );
        }
    }
}

#[test]
fn anchors_fall_back_to_the_start() {
    let span = anchor_range("name", None);
    assert_eq!((span.start, span.end), (0, 0));
    let root = ast("{}");
    let span = anchor_range("name", Some(&root));
    assert_eq!((span.start, span.end), (0, 0));
}

// ─── Context ───────────────────────────────────────────────────────────────

fn service(id: &str, name: &str, deploy_type: &str, runtime: &str) -> Service {
    Service {
        id: id.to_string(),
        name: name.to_string(),
        deploy_type: deploy_type.to_string(),
        runtime: runtime.to_string(),
        external_sd_url: None,
        internal_sd_url: None,
        repository_url: None,
        repository_branch: None,
        registry_url: None,
        fk_service_secret: None,
        root_path: None,
        build_path: None,
        build_command: None,
        pre_deploy_command: None,
        run_command: None,
        fk_pod: None,
        fk_project: None,
        fk_workspace: None,
        replicas: None,
        health_check_path: None,
        maintenance_mode: None,
        active: None,
        env: None,
        deploy_tag: None,
        created_at: None,
        updated_at: None,
        db_type: None,
        db_version: None,
        db_name: None,
        db_user: None,
    }
}

fn secret(id: &str, name: &str) -> WorkspaceSecret {
    WorkspaceSecret {
        id: id.to_string(),
        name: Some(name.to_string()),
        provider: Some("github".to_string()),
    }
}

fn price(number: &str, shown: &str) -> PriceText {
    PriceText { number: number.to_string(), shown: shown.to_string() }
}

fn fixture_payload() -> ContextData {
    ContextData {
        user_email: Some("dev@example.com".to_string()),
        workspaces: vec![WorkspaceData {
            workspace: Workspace {
                id: "ws-1".to_string(),
                name: "Acme".to_string(),
                email: Some("dev@example.com".to_string()),
            },
            projects: vec![Project {
                id: "proj-1".to_string(),
                name: "web".to_string(),
                environment: "prod".to_string(),
                fk_workspace: None,
            }],
            regions: vec![Region {
                id: "region-1".to_string(),
                name: "eu-nl-1".to_string(),
                label: Some("Amsterdam".to_string()),
                country_code: Some("NL".to_string()),
            }],
            pods: vec![Pod {
                id: "pod-1".to_string(),
                name: "s".to_string(),
                label: Some("Small".to_string()),
                cpu: Some("1".to_string()),
                ram: Some("2".to_string()),
            }],
            registry_secrets: vec![secret("sec-reg-1", "ghcr")],
            repository_secrets: vec![secret("sec-repo-1", "gh-token")],
            pricing: Some(RegionPricing {
                pods: vec![PodPrice {
                    fk_pod: "pod-1".to_string(),
                    price: price("4.5", "4.50"),
                    per_minute: price("0.0", "0.00"),
                }],
                volume_price_per_gb: price("0.5", "0.50"),
            }),
            balance: None,
            services: vec![ProjectService {
                fk_project: "proj-1".to_string(),
                service: service("svc-1", "api", "webservice", "node"),
            }],
        }],
    }
}

#[test]
fn every_project_is_asked_for_its_services() {
    let project = |id: &str| Project {
        id: id.to_string(),
        name: id.to_string(),
        environment: "dev".to_string(),
        fk_workspace: None,
    };
    let projects = vec![project("p1"), project("p2"), project("p3")];
    let requests = service_requests(&projects);
    assert_eq!(requests.len(), 3);
    assert_eq!(requests[1].path, "/services");
    assert_eq!(
        requests[1].query,
        vec![
            ("project".to_string(), "p2".to_string()),
            ("limit".to_string(), "50".to_string()),
        ]
    );
    let mut out = Vec::new();
    add_services(&mut out, &projects[0], Ok(vec![service("s1", "a", "worker", "go")]));
    add_services(&mut out, &projects[1], Err(text_error("offline")));
    add_services(&mut out, &projects[2], Ok(vec![service("s2", "b", "worker", "go")]));
    let seen: Vec<(&str, &str)> =
        out.iter().map(|x| (x.fk_project.as_str(), x.service.id.as_str())).collect();
    assert_eq!(seen, vec![("p1", "s1"), ("p3", "s2")]);
    let region = |id: &str| Region {
        id: id.to_string(),
        name: id.to_string(),
        label: None,
        country_code: None,
    };
    assert_eq!(pricing_region(&vec![region("r1"), region("r2")]), Some("r1"));
    assert_eq!(pricing_region(&Vec::new()), None);
}

#[test]
fn entries_for_each_fk_key() {
    let payload = fixture_payload();
    let view = ContextView::new(&payload);
    assert_eq!(view.entries_for("fk_workspace", None).len(), 1);
    assert_eq!(view.entries_for("fk_project", Some("ws-1")).len(), 1);
    assert_eq!(view.entries_for("fk_region", Some("ws-1")).len(), 1);
    assert_eq!(view.entries_for("fk_pod", Some("ws-1")).len(), 1);
    assert_eq!(view.entries_for("fk_service_secret", None).len(), 2);
    assert!(view.entries_for("name", None).is_empty());
}

#[test]
fn pod_entry_carries_price() {
    let payload = fixture_payload();
    let view = ContextView::new(&payload);
    let pods = view.entries_for("fk_pod", None);
    assert!(pods[0].detail.contains("€4.50/mo"), "{}", pods[0].detail);
}

#[test]
fn unknown_workspace_scope_falls_back_to_all() {
    let payload = fixture_payload();
    let view = ContextView::new(&payload);
    assert_eq!(view.entries_for("fk_region", Some("ws-nope")).len(), 1);
}

#[test]
fn resolve_uuid_finds_resources_and_services() {
    let payload = fixture_payload();
    let view = ContextView::new(&payload);
    assert!(view.resolve_uuid("region-1").unwrap().contains("Amsterdam"));
    assert!(view.resolve_uuid("svc-1").unwrap().contains("api"));
    assert!(view.resolve_uuid("nope").is_none());
}

#[test]
fn entries_say_what_they_are() {
    let payload = fixture_payload();
    let view = ContextView::new(&payload);
    assert_eq!(view.entries_for("fk_workspace", None)[0].detail, "workspace — dev@example.com");
    assert_eq!(view.entries_for("fk_project", None)[0].detail, "project [prod] in Acme");
    assert_eq!(view.entries_for("fk_region", None)[0].detail, "region eu-nl-1 (NL)");
    assert_eq!(
        view.entries_for("fk_pod", None)[0].detail,
        "pod — \"1\" CPU, \"2\" RAM, €4.50/mo"
    );
    assert_eq!(
        view.entries_for("fk_service_secret", None)[1].detail,
        "repository secret (github)"
    );
    assert_eq!(
        view.resolve_uuid("svc-1").unwrap(),
        "**api** — webservice service (node)"
    );
}

#[test]
fn offered_ids_are_known_on_hover() {
    let payload = fixture_payload();
    let view = ContextView::new(&payload);
    for key in ["fk_workspace", "fk_project", "fk_region", "fk_pod", "fk_service_secret"] {
        for e in view.entries_for(key, Some("ws-1")) {
            assert!(view.resolve_uuid(&e.id).is_some());
        }
    }
}

#[test]
fn a_failed_refresh_keeps_what_is_cached() {
    let mut cache = ContextCache::new();
    assert!(matches!(cache.snapshot(0), (None, true)));
    assert!(cache.begin_refresh());
    assert!(!cache.begin_refresh());
    cache.end_refresh(Some(fixture_payload()), 1_000);
    assert!(matches!(cache.snapshot(1_000 + TTL_MILLIS), (Some(_), false)));
    assert!(matches!(cache.snapshot(1_001 + TTL_MILLIS), (Some(_), true)));
    assert!(cache.begin_refresh());
    cache.end_refresh(None, 999_999);
    assert_eq!(cache.fetched, Some(1_000));
    assert!(cache.data.is_some());
    assert!(cache.begin_refresh());
}

// ─── Completion ────────────────────────────────────────────────────────────

const DOC: &str = r#"{
  "id": null,
  "fk_workspace": "ws-1",
  "fk_project": "proj-1",
  "service": {
    "name": "svc",
    "deploy_type": "webservice",
    "runtime": "node",
    "root_path": ".",
    "fk_region": "",
    "fk_pod": "pod-1",
    "maintenance_mode": false,
    "active": true
  }
}"#;

fn completed(text: &str, offset: usize, context: Option<&ContextData>) -> Vec<CompletionItem> {
    let config = parse_str(text).ok();
    completions(text, offset, &schema(), config.as_ref(), context)
}

#[test]
fn runtime_value_offers_all_runtimes() {
    let offset = DOC.find("node").unwrap() + 1;
    let items = completed(DOC, offset, None);
    assert_eq!(items.len(), RUNTIMES.len());
    assert!(items.iter().any(|i| i.label == "rust"));
}

#[test]
fn deploy_type_value_offers_enum() {
    let offset = DOC.find("webservice").unwrap() + 1;
    let items = completed(DOC, offset, None);
    let labels: Vec<&str> = items.iter().map(|i| i.label.as_str()).collect();
    assert_eq!(labels, DEPLOY_TYPES);
    assert!(items.iter().all(|i| i.kind == ItemKind::EnumMember));
}

fn region_offset() -> usize {
    DOC.find("\"fk_region\": \"").unwrap() + "\"fk_region\": \"".len()
}

#[test]
fn fk_region_value_offers_cached_uuids() {
    let payload = fixture_payload();
    let items = completed(DOC, region_offset(), Some(&payload));
    assert_eq!(items.len(), 1);
    assert_eq!(items[0].label, "Amsterdam");
    assert_eq!(items[0].insert_text.as_deref(), Some("region-1"));
    assert_eq!(items[0].sort_text.as_deref(), Some("0000"));
    assert_eq!(items[0].filter_text.as_deref(), Some("Amsterdam region-1"));
    assert_eq!(items[0].kind, ItemKind::Value);
}

#[test]
fn fk_values_empty_without_context() {
    let items = completed(DOC, region_offset(), None);
    assert!(items.is_empty());
}

#[test]
fn property_names_filter_present_keys() {
    let offset = DOC.find("\"active\": true").unwrap() + "\"active\": true".len() + 1;
    let items = completed(DOC, offset, None);
    let labels: Vec<&str> = items.iter().map(|i| i.label.as_str()).collect();
    assert!(labels.contains(&"repository_url"), "{labels:?}");
    assert!(labels.contains(&"build_command"));
    assert!(!labels.contains(&"name"), "present keys must be filtered");
    assert!(!labels.contains(&"env"), "env is not completable");
}

#[test]
fn broken_buffer_falls_back_to_heuristic() {
    let text = "{\n  \"service\": {\n    \"runtime\": \"";
    let items = completed(text, text.len(), None);
    assert!(
        items.iter().any(|i| i.label == "node"),
        "heuristic value completion"
    );
}

#[test]
fn many_entries_keep_their_order() {
    let mut payload = fixture_payload();
    let secrets = &mut payload.workspaces[0].registry_secrets;
    for i in 0..1200 {
        secrets.push(secret(&format!("s{i}"), "x"));
    }
    let doc = DOC.replace("\"fk_region\": \"\"", "\"fk_service_secret\": \"\"");
    let offset = doc.find("\"fk_service_secret\": \"").unwrap() + "\"fk_service_secret\": \"".len();
    let items = completions(&doc, offset, &schema(), None, Some(&payload));
    assert_eq!(items.len(), 1202);
    assert_eq!(items[7].sort_text.as_deref(), Some("0007"));
    assert_eq!(items[42].sort_text.as_deref(), Some("0042"));
    assert_eq!(items[999].sort_text.as_deref(), Some("0999"));
    assert_eq!(items[1201].sort_text.as_deref(), Some("1201"));
}

// ─── Hover ─────────────────────────────────────────────────────────────────

const HOVER_DOC: &str = r#"{
  "id": null,
  "fk_workspace": "ws-1",
  "fk_project": "proj-1",
  "service": {
    "name": "svc",
    "deploy_type": "webservice",
    "runtime": "node",
    "root_path": ".",
    "fk_region": "region-1",
    "fk_pod": "pod-1",
    "maintenance_mode": false,
    "active": true
  }
}"#;

fn markdown(h: &Hover) -> &str {
    h.markdown.as_str()
}

#[test]
fn runtime_name_hover_shows_description_and_allowed_values() {
    let offset = HOVER_DOC.find("\"runtime\"").unwrap() + 3;
    let result = hover(HOVER_DOC, offset, &schema(), None).expect("hover on runtime name");
    let md = markdown(&result);
    assert!(md.contains("Allowed:"), "{md}");
    assert!(md.contains("`rust`"), "{md}");
}

#[test]
fn fk_region_value_hover_resolves_via_context_cache() {
    let payload = fixture_payload();
    let offset = HOVER_DOC.find("region-1").unwrap() + 1;
    let result =
        hover(HOVER_DOC, offset, &schema(), Some(&payload)).expect("hover on fk_region value");
    let md = markdown(&result);
    assert!(md.contains("Amsterdam"), "{md}");
}

#[test]
fn hover_on_unlocatable_offset_is_none() {
    let offset = HOVER_DOC.find('{').unwrap() + 1;
    assert!(hover(HOVER_DOC, offset, &schema(), None).is_none());
}

#[test]
fn hover_covers_the_name_and_tells_of_completions() {
    let offset = HOVER_DOC.find("\"fk_pod\"").unwrap() + 1;
    let result = hover(HOVER_DOC, offset, &schema(), None).unwrap();
    assert!(markdown(&result).contains("partiri llm context"));
    assert_eq!(result.end.character - result.start.character, "\"fk_pod\"".len() as u32);
    assert!(hover("{ broken", 3, &schema(), None).is_none());
}

// ─── Actions ───────────────────────────────────────────────────────────────

const ACTION_DOC: &str = r#"{
  "id": null,
  "fk_workspace": "ws-1",
  "fk_project": "proj-1",
  "service": {
    "name": "my-service",
    "deploy_type": "webservice",
    "runtime": "node",
    "root_path": ".",
    "repository_url": "https://github.com/o/r",
    "repository_branch": "main",
    "build_command": "npm run build",
    "run_command": "npm start",
    "fk_region": "region-1",
    "fk_pod": "pod-1",
    "maintenance_mode": false,
    "active": true
  }
}"#;

fn apply(text: &str, edit: &TextEdit) -> String {
    let idx = LineIndex::new(text);
    let start = idx.offset(text, edit.start);
    let end = idx.offset(text, edit.end);
    format!("{}{}{}", &text[..start], edit.new_text, &text[end..])
}

fn fixes(text: &str) -> Vec<(&'static str, TextEdit)> {
    quickfixes(text, parse_str(text).ok().as_ref())
        .into_iter()
        .map(|a| match a {
            CodeAction::Fix { title, edit } => (title, edit),
            CodeAction::Run { title, .. } => panic!("{title} is no quickfix"),
        })
        .collect()
}

fn fix_named(text: &str, title: &str) -> TextEdit {
    match fixes(text).into_iter().find(|(t, _)| *t == title) {
        Some((_, edit)) => edit,
        None => panic!("no action '{title}'"),
    }
}

#[test]
fn both_sources_set_offers_two_removal_quickfixes() {
    let text = ACTION_DOC.replace(
        "\"repository_branch\": \"main\",",
        "\"repository_branch\": \"main\",\n    \"registry_url\": \"ghcr.io/o/r:latest\",",
    );
    assert_eq!(fixes(&text).len(), 2);

    let result = apply(&text, &fix_named(&text, "Remove registry_url (keep repository source)"));
    assert!(!result.contains("registry_url"), "{result}");
    let cfg = parse_str(&result).expect("result must still parse");
    assert!(cfg.service.repository_url.is_some());

    let result = apply(&text, &fix_named(&text, "Remove repository_url (keep repository source)"));
    assert!(!result.contains("\"repository_url\""), "{result}");
    let cfg = parse_str(&result).expect("result must still parse");
    assert!(cfg.service.registry_url.is_some());
}

#[test]
fn long_name_offers_truncate_quickfix() {
    let text = ACTION_DOC.replace(
        "\"my-service\"",
        "\"this-name-is-way-too-long-for-partiri\"",
    );
    let result = apply(&text, &fix_named(&text, "Truncate name to 16 characters"));
    let cfg = parse_str(&result).expect("result must still parse");
    assert!(
        cfg.service.name.len() <= MAX_NAME_LEN,
        "name still too long: {:?}",
        cfg.service.name
    );
    assert_eq!(cfg.service.name, "this-name-is-way");
}

#[test]
fn missing_build_command_offers_add_quickfix() {
    let text = ACTION_DOC.replace("\"build_command\": \"npm run build\",\n    ", "");
    assert!(!text.contains("build_command"));
    let result = apply(&text, &fix_named(&text, "Add \"build_command\""));
    assert!(result.contains("\"build_command\": \"\""), "{result}");
    assert!(parse_str(&result).is_ok(), "result must still parse");
}

#[test]
fn valid_config_has_no_quickfixes_but_always_has_commands() {
    assert!(fixes(ACTION_DOC).is_empty());
    let all = code_actions(ACTION_DOC, parse_str(ACTION_DOC).ok().as_ref());
    assert_eq!(all.len(), 4);
    for action in &all {
        match action {
            CodeAction::Run { title, command } => {
                assert!(title.starts_with("Partiri: "));
                assert!(command.starts_with("partiri."));
            }
            CodeAction::Fix { title, .. } => panic!("expected a command, got {title}"),
        }
    }
}

#[test]
fn lines_are_cut_at_their_newlines() {
    let text = "ab\ncdé\nf";
    assert_eq!(whole_line_range(text, 4), (3, 8));
    assert_eq!(whole_line_range(text, 0), (0, 3));
    assert_eq!(whole_line_range(text, 8), (8, 9));
    assert_eq!(end_of_line(text, 4), 7);
    assert_eq!(end_of_line(text, 8), 9);
    assert_eq!(truncated_name("éééééééééééééééééé"), "é".repeat(16));
    assert_eq!(truncated_name("short"), "short");
}

// ─── The server ────────────────────────────────────────────────────────────

#[test]
fn code_action_provider_gated_by_flag() {
    let off = server_capabilities(&InitOptions {
        enable_code_actions: false,
        remote_validation: RemoteValidation::OnSave,
    });
    assert!(!off.code_actions);

    let on = server_capabilities(&InitOptions {
        enable_code_actions: true,
        remote_validation: RemoteValidation::OnSave,
    });
    assert!(on.code_actions);
}

#[test]
fn server_capabilities_advertise_all_four_commands() {
    let caps = server_capabilities(&InitOptions::default());
    assert_eq!(caps.commands.len(), 4);
    assert!(caps.commands.contains(&CMD_DEPLOY));
    assert_eq!(caps.trigger_characters, [":", "\""]);
}

#[test]
fn options_default_to_validation_on_save() {
    let opts = InitOptions::default();
    assert!(!opts.enable_code_actions);
    assert_eq!(opts.remote_validation, RemoteValidation::OnSave);
}

#[test]
fn methods_are_told_apart() {
    assert!(matches!(request_kind("textDocument/completion"), RequestKind::Completion));
    assert!(matches!(request_kind("textDocument/hover"), RequestKind::Hover));
    assert!(matches!(request_kind("textDocument/codeAction"), RequestKind::CodeAction));
    assert!(matches!(request_kind("workspace/executeCommand"), RequestKind::ExecuteCommand));
    match request_kind("x/y") {
        RequestKind::Unknown(m) => assert_eq!(m, "method not found: x/y"),
        other => panic!("expected an unknown method, got {other:?}"),
    }
    assert_eq!(note_kind("textDocument/didOpen"), NoteKind::DidOpen);
    assert_eq!(note_kind("textDocument/didChange"), NoteKind::DidChange);
    assert_eq!(note_kind("textDocument/didSave"), NoteKind::DidSave);
    assert_eq!(note_kind("textDocument/didClose"), NoteKind::DidClose);
    assert_eq!(note_kind("$/cancelRequest"), NoteKind::Other);
}

#[test]
fn commands_need_their_document() {
    let uri = || Some("file:///a".to_string());
    assert!(matches!(on_execute_command(CMD_REFRESH_CONTEXT, None), CommandPlan::RefreshContext));
    assert!(matches!(on_execute_command(CMD_DEPLOY, uri()), CommandPlan::Deploy(u) if u == "file:///a"));
    assert!(matches!(on_execute_command(CMD_PULL, uri()), CommandPlan::Pull(_)));
    assert!(matches!(on_execute_command(CMD_VALIDATE_REMOTE, uri()), CommandPlan::ValidateRemote(_)));
    assert!(matches!(on_execute_command(CMD_DEPLOY, None), CommandPlan::Nothing));
    assert!(matches!(on_execute_command("other", uri()), CommandPlan::Nothing));
}

fn open(server: &mut Server, uri: &str, text: &str) -> Vec<Diagnostic> {
    server.update_doc_text(uri, text.to_string(), &parse_str(text))
}

#[test]
fn documents_are_kept_apart() {
    let mut s = Server::new(InitOptions::default());
    assert!(open(&mut s, "a", VALID).is_empty());
    assert_eq!(open(&mut s, "b", "{ \"id\": }").len(), 1);
    assert_eq!(s.doc_text("a").as_deref(), Some(VALID));
    open(&mut s, "a", "{}");
    assert_eq!(s.doc_text("a").as_deref(), Some("{}"));
    assert_eq!(s.docs.len(), 2);
    s.close_doc("a");
    assert!(s.doc_text("a").is_none());
    assert_eq!(s.doc_text("b").as_deref(), Some("{ \"id\": }"));
}

#[test]
fn stale_remote_results_are_dropped() {
    let mut s = Server::new(InitOptions::default());
    let rows = vec![CheckRow::fail("remote.fk_region", "gone")];
    let broken = VALID.replace("\"node\"", "\"cobol\"");
    open(&mut s, "a", &broken);
    let merged = s.apply_remote("a", &broken, &rows).unwrap();
    assert_eq!(merged.len(), 2);
    assert_eq!(merged[0].source, "partiri");
    assert_eq!(merged[1].source, "partiri-remote");
    assert_eq!(s.docs[0].doc.merged_diags().len(), 2);
    open(&mut s, "a", VALID);
    assert!(s.docs[0].doc.remote_diags.is_empty());
    assert!(s.apply_remote("a", &broken, &rows).is_none());
    assert!(s.apply_remote("b", VALID, &rows).is_none());
    assert!(s.docs[0].doc.remote_diags.is_empty());
}

#[test]
fn saves_are_throttled_and_requests_are_not() {
    let mut s = Server::new(InitOptions::default());
    open(&mut s, "a", VALID);
    assert!(s.maybe_remote_validate("a", 10_000).is_some());
    assert!(s.maybe_remote_validate("a", 10_000 + THROTTLE_MILLIS - 1).is_none());
    assert!(s.maybe_remote_validate("a", 10_000 + THROTTLE_MILLIS).is_some());
    assert!(s.trigger_remote_validation("a", true, 15_001).is_some());
    assert!(s.trigger_remote_validation("b", true, 15_002).is_none());
    assert_eq!(s.last_remote_run, Some(15_002));
    s.opts.remote_validation = RemoteValidation::Off;
    assert!(s.maybe_remote_validate("a", 99_000).is_none());
}

#[test]
fn requests_answer_for_open_documents() {
    let mut s = Server::new(InitOptions {
        enable_code_actions: true,
        remote_validation: RemoteValidation::OnSave,
    });
    assert!(matches!(s.on_completion("a", at(0, 0), None, 0), (v, false) if v.is_empty()));
    assert!(matches!(s.on_hover("a", at(0, 0), 0), (None, false)));
    assert!(s.on_code_action("a", None).is_empty());
    open(&mut s, "a", HOVER_DOC);
    let config = parse_str(HOVER_DOC).ok();
    let (items, stale) = s.on_completion("a", at(7, 17), config.as_ref(), 0);
    assert_eq!(items.len(), RUNTIMES.len());
    assert!(stale);
    assert!(s.on_hover("a", at(7, 7), 0).0.is_some());
    assert_eq!(s.on_code_action("a", config.as_ref()).len(), 4);
    s.opts.enable_code_actions = false;
    assert!(s.on_code_action("a", config.as_ref()).is_empty());
}

#[test]
fn actions_run_only_when_confirmed() {
    let mut s = Server::new(InitOptions::default());
    let mut config = parse_str(VALID).unwrap();
    assert!(matches!(s.cmd_deploy(None), CommandStep::Say(n) if n.level == Level::Error));
    match s.cmd_deploy(Some(config.clone())) {
        CommandStep::Say(n) => assert!(n.text.starts_with("Service not created yet")),
        CommandStep::Ask(_) => panic!("nothing to deploy yet"),
    }
    config.id = Some("svc-1".to_string());
    let first = match s.cmd_deploy(Some(config.clone())) {
        CommandStep::Ask(q) => {
            assert_eq!(q.message, "Deploy service 'my-service'? This restarts the service.");
            assert_eq!(q.choices, ["Deploy", "Cancel"]);
            q.id
        }
        CommandStep::Say(n) => panic!("{}", n.text),
    };
    let second = match s.cmd_pull(Some(config.clone()), Some("/p/.partiri.jsonc".to_string())) {
        CommandStep::Ask(q) => {
            assert_eq!(q.message, "Overwrite /p/.partiri.jsonc with the deployed configuration?");
            assert_eq!(q.choices, ["Pull", "Cancel"]);
            q.id
        }
        CommandStep::Say(n) => panic!("{}", n.text),
    };
    assert_eq!((first, second), (-1, -2));
    assert!(matches!(s.cmd_pull(Some(config), None), CommandStep::Say(n) if n.text == "Invalid document URI."));
    assert!(s.handle_response(7, Some("Deploy")).is_none());
    assert!(s.handle_response(first, Some("Cancel")).is_none());
    assert!(s.handle_response(first, Some("Deploy")).is_none());
    match s.handle_response(second, Some("Pull")) {
        Some(PendingAction::Pull { service_id, path, fk_workspace, fk_project }) => {
            assert_eq!(service_id, "svc-1");
            assert_eq!(path, "/p/.partiri.jsonc");
            assert_eq!(fk_workspace, "ws-1");
            assert_eq!(fk_project, "proj-1");
        }
        other => panic!("expected a pull, got {other:?}"),
    }
    assert!(s.handle_response(second, Some("Pull")).is_none());
}

#[test]
fn the_editor_comes_before_the_file() {
    let open_config = parse_str(VALID).unwrap();
    let mut file = parse_str(VALID).unwrap();
    file.service.name = "on-disk".to_string();
    let chosen = load_config_for(Some(Ok(open_config)), Some(file.clone())).unwrap();
    assert_eq!(chosen.service.name, "my-service");
    let broken = Some(Err("expected a comma".to_string()));
    assert_eq!(load_config_for(broken, Some(file.clone())).unwrap().service.name, "on-disk");
    assert_eq!(load_config_for(None, Some(file)).unwrap().service.name, "on-disk");
    assert!(load_config_for(None, None).is_none());
}

#[test]
fn outcomes_are_told() {
    assert_eq!(deploy_notice("web", &Ok(())).text, "Deploy job created for 'web'.");
    let failed = deploy_notice("web", &Err(text_error("offline")));
    assert_eq!(failed.text, "Deploy failed: offline");
    assert_eq!(failed.level, Level::Error);
    assert_eq!(pull_notice("/p", &Ok(())).text, "/p pulled from Partiri.");
    assert_eq!(pull_notice("/p", &Err(text_error("x"))).text, "Pull failed: x");
    let rows = vec![CheckRow::ok("a", ""), CheckRow::warn("b", ""), CheckRow::fail("c", "")];
    assert_eq!(remote_notice(&rows).text, "Remote validation: 2 problem(s)");
    assert_eq!(
        remote_notice(&vec![CheckRow::ok("a", "")]).text,
        "Remote validation: all checks passed"
    );
}

// ─── Given trees ───────────────────────────────────────────────────────────

fn span(start: usize, end: usize) -> Span {
    Span { start, end }
}

fn prop(name: &str, name_span: Span, value: Node) -> Prop {
    Prop { name: name.to_string(), name_span, value }
}

const SMALL: &str = "{ \"service\": { \"runtime\": \"x\", \"odd\": 1 } }";

/// The tree of [`SMALL`], written out.
fn small_tree() -> Node {
    Node::Object(
        span(0, 43),
        vec![prop(
            "service",
            span(2, 11),
            Node::Object(
                span(13, 41),
                vec![
                    prop("runtime", span(15, 24), Node::Text(span(26, 29), "x".to_string())),
                    prop("odd", span(31, 36), Node::Scalar(span(38, 39))),
                ],
            ),
        )],
    )
}

#[test]
fn the_parser_gives_the_tree_of_a_text() {
    match parse_ast(SMALL) {
        Parsed::Value(Node::Object(whole, props)) => {
            assert_eq!(whole, span(0, SMALL.len()));
            assert_eq!(props.len(), 1);
            assert_eq!(props[0].name_span, span(2, 11));
            match &props[0].value {
                Node::Object(_, inner) => {
                    assert_eq!(inner[0].name, "runtime");
                    assert!(matches!(&inner[0].value, Node::Text(s, t) if t == "x" && *s == span(26, 29)));
                    assert!(matches!(&inner[1].value, Node::Scalar(_)));
                }
                other => panic!("expected an object, got {other:?}"),
            }
        }
        other => panic!("expected an object, got {other:?}"),
    }
    assert!(matches!(parse_ast("[1]"), Parsed::Value(Node::Array(_))));
    assert!(matches!(parse_ast("{ bare: true }"), Parsed::Value(Node::Object(_, p)) if p[0].name == "bare"));
}

#[test]
fn diagnostics_follow_a_given_tree() {
    let tree = Parsed::Value(small_tree());
    let config = parse_str(VALID);
    let diags = diagnose(SMALL, &tree, &config, &schema());
    assert_eq!(diags.len(), 1);
    assert_eq!(diags[0].start, at(0, 31));
    assert_eq!(diags[0].end, at(0, 36));
    assert_eq!(
        diags[0].message,
        "Unknown field 'odd' — not part of the .partiri.jsonc schema."
    );
    let broken = Parsed::Error(SyntaxError { span: span(3, 3), kind: "Unexpected token".to_string() });
    let diags = diagnose(SMALL, &broken, &config, &schema());
    assert_eq!(diags.len(), 1);
    assert_eq!((diags[0].start, diags[0].end), (at(0, 3), at(0, 4)));
    assert_eq!(diags[0].message, "Syntax error: Unexpected token");
    let rows = vec![CheckRow::warn("runtime", "hm")];
    let diags = diagnose_remote(&rows, SMALL, &tree);
    assert_eq!((diags[0].start, diags[0].end), (at(0, 26), at(0, 29)));
}

#[test]
fn completion_hover_and_fixes_follow_a_given_tree() {
    let tree = Parsed::Value(small_tree());
    let items = complete(SMALL, &tree, 27, &schema(), None, None);
    assert_eq!(items.len(), RUNTIMES.len());
    let names = complete(SMALL, &tree, 40, &schema(), None, None);
    assert!(names.iter().all(|i| i.label != "runtime"));
    assert!(names.iter().any(|i| i.label == "name"));
    let shown = hover_at(SMALL, &tree, 16, &schema(), None).unwrap();
    assert_eq!((shown.start, shown.end), (at(0, 15), at(0, 24)));
    assert!(hover_at(SMALL, &Parsed::Empty, 16, &schema(), None).is_none());
    let mut config = parse_str(VALID).unwrap();
    config.service.build_command = None;
    assert!(actions::fixes(SMALL, &tree, Some(&config)).is_empty());
    assert!(actions::fixes(SMALL, &tree, None).is_empty());
}
