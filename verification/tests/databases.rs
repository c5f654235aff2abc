//! Managed databases.
use partiri::client::{database_body, ApiClient, CreateDatabaseBody, Job, Method, Service, Volume};
use partiri::config::{ConfigOverride, DISK_SIZE_MAX, DISK_SIZE_MIN};
use partiri::databases::{
    build_create_body, connection_string, created_payload, database_json, database_row,
    delete_warning, deleted_report, disk_of, explain_deploy_error, extend_password,
    filter_databases, generate_password, is_database, next_draw, non_empty, password_box, queued_report,
    read_database, read_password_from_stdin, report_created, report_password_after_failure,
    require_input, run_create, run_jobs, run_list, take_block, validate_disk_size, validate_password,
    validate_pg_identifier, validate_service_name, validate_version, CreateArgs, DbJob, Draw, Need,
    MAX_BLOCKS,
    GENERATED_PASSWORD_LEN, PASSWORD_ALPHABET, PASSWORD_MAX_LEN, PASSWORD_MIN_LEN,
    RESERVED_DB_NAMES,
};
use partiri::error::{CliError, Failure};
use partiri::json::Json;
use partiri::mcp::write_config;
use partiri::output::{Ctx, Listing};
use partiri::secret::StdinLine;

const TEXT: Ctx = Ctx { json: false, yes: false, no_input: false };
const JSON: Ctx = Ctx { json: true, yes: false, no_input: false };
const NO_INPUT: Ctx = Ctx { json: false, yes: false, no_input: true };

fn value(json: &Json) -> serde_json::Value {
    serde_json::from_str(&write_config(json).unwrap()).unwrap()
}

fn service_of_type(id: &str, deploy_type: &str) -> Service {
    Service {
        id: id.to_string(),
        name: id.to_string(),
        deploy_type: deploy_type.to_string(),
        runtime: "node".to_string(),
        external_sd_url: None,
        internal_sd_url: None,
        repository_url: None,
        repository_branch: None,
        registry_url: None,
        fk_service_secret: None,
        root_path: None,
        build_path: None,
        build_command: None,
        pre_deploy_command: None,
        run_command: None,
        fk_pod: None,
        fk_project: None,
        fk_workspace: None,
        replicas: None,
        health_check_path: None,
        maintenance_mode: None,
        active: None,
        env: None,
        deploy_tag: None,
        created_at: None,
        updated_at: None,
        db_type: None,
        db_version: None,
        db_name: None,
        db_user: None,
    }
}

fn sample_service() -> Service {
    let mut svc = service_of_type("svc-db-1", "database");
    svc.name = "mydb".to_string();
    svc.runtime = "psql".to_string();
    svc.internal_sd_url = Some("mydb-abc123".to_string());
    svc.db_type = Some("postgresql".to_string());
    svc.db_version = Some("17".to_string());
    svc.db_name = Some("appdb".to_string());
    svc.db_user = Some("appuser".to_string());
    svc.fk_project = Some("proj-1".to_string());
    svc
}

fn web() -> Service {
    let mut svc = service_of_type("svc-web", "webservice");
    svc.name = "web".to_string();
    svc
}

// ─── Identifiers ───────────────────────────────────────────────────────────

#[test]
fn pg_identifier_accepts_valid_names() {
    for v in ["appdb", "_x", "a", "my_app_db_1", &"a".repeat(63)] {
        assert!(
            validate_pg_identifier("db-name", v).is_ok(),
            "expected '{v}' to be accepted"
        );
    }
}

#[test]
fn pg_identifier_rejects_bad_first_character() {
    for v in ["1db", "Appdb", "-db", ".db"] {
        assert!(
            validate_pg_identifier("db-name", v).is_err(),
            "expected '{v}' to be rejected"
        );
    }
}

#[test]
fn pg_identifier_rejects_bad_later_characters() {
    for v in ["app-db", "appDB", "app db", "app.db", "app$db"] {
        assert!(
            validate_pg_identifier("db-name", v).is_err(),
            "expected '{v}' to be rejected"
        );
    }
}

#[test]
fn pg_identifier_rejects_empty_and_overlong() {
    assert!(validate_pg_identifier("db-name", "").is_err());
    assert!(validate_pg_identifier("db-name", &"a".repeat(64)).is_err());
}

#[test]
fn pg_identifier_rejects_every_reserved_name() {
    for v in RESERVED_DB_NAMES {
        let err = validate_pg_identifier("db-name", v).unwrap_err().to_text();
        assert!(err.contains("reserved"), "{v}: {err}");
    }
}

// ─── Passwords ─────────────────────────────────────────────────────────────

#[test]
fn password_accepts_boundary_lengths() {
    assert!(validate_password(&"a".repeat(PASSWORD_MIN_LEN)).is_ok());
    assert!(validate_password(&"a".repeat(PASSWORD_MAX_LEN)).is_ok());
}

#[test]
fn password_rejects_out_of_range_lengths() {
    assert!(validate_password(&"a".repeat(PASSWORD_MIN_LEN - 1)).is_err());
    assert!(validate_password(&"a".repeat(PASSWORD_MAX_LEN + 1)).is_err());
}

#[test]
fn password_rejects_non_printable_ascii() {
    for pw in [
        "has a space!",
        "has\ttab12345",
        "café1234567890",
        "trailing\n1234",
    ] {
        assert!(
            validate_password(pw).is_err(),
            "expected {pw:?} to be rejected"
        );
    }
}

#[test]
fn password_rejection_never_echoes_the_password() {
    let pw = "sekrit token\u{00e9}";
    let err = validate_password(pw).unwrap_err().to_text();
    assert!(
        !err.contains("sekrit") && !err.contains('é'),
        "the error leaked password content: {err}"
    );
    assert!(err.contains("a space"), "{err}");
}

#[test]
fn generated_password_is_valid_and_uses_the_safe_alphabet() {
    let pw = generate_password().unwrap();
    assert_eq!(pw.chars().count(), GENERATED_PASSWORD_LEN);
    assert!(
        validate_password(&pw).is_ok(),
        "a generated password must satisfy the API rule"
    );
    assert!(
        pw.chars().all(|c| PASSWORD_ALPHABET.contains(c)),
        "generated password escaped the safe alphabet: {pw}"
    );
}

#[test]
fn generated_passwords_differ_between_calls() {
    let a = generate_password().unwrap();
    let b = generate_password().unwrap();
    assert_ne!(a, b, "generated passwords must not repeat");
}

#[test]
fn generated_passwords_are_uniform_over_the_alphabet() {
    let mut counts: std::collections::HashMap<char, usize> = std::collections::HashMap::new();
    let mut total = 0usize;
    for _ in 0..5000 {
        for c in generate_password().unwrap().chars() {
            *counts.entry(c).or_default() += 1;
            total += 1;
        }
    }

    let n = PASSWORD_ALPHABET.len();
    assert_eq!(
        counts.len(),
        n,
        "every symbol should appear at least once across {total} draws"
    );

    let expected = total as f64 / n as f64;
    let (min, max) = (
        *counts.values().min().unwrap() as f64,
        *counts.values().max().unwrap() as f64,
    );
    assert!(
        min > expected * 0.75 && max < expected * 1.25,
        "distribution looks biased: expected ~{expected:.1} per symbol, got min {min} / max {max}"
    );
}

/// Each byte below the limit stands for a symbol, and every symbol for as many
/// bytes.
#[test]
fn bytes_stand_for_symbols_evenly() {
    let mut counts: std::collections::HashMap<String, usize> = std::collections::HashMap::new();
    for b in 0..=255u8 {
        let mut out = String::new();
        extend_password(&mut out, &[b]);
        *counts.entry(out).or_default() += 1;
    }
    assert_eq!(counts.remove(""), Some(256 - 210));
    assert_eq!(counts.len(), 70);
    assert!(counts.values().all(|n| *n == 3));
    let mut out = "x".repeat(GENERATED_PASSWORD_LEN - 1);
    extend_password(&mut out, &[0, 1, 2]);
    assert_eq!(out, format!("{}A", "x".repeat(GENERATED_PASSWORD_LEN - 1)));
}

#[test]
fn blocks_are_drawn_until_the_password_is_long_enough() {
    let mut out = String::new();
    assert_eq!(next_draw(&out, 0), Draw::Ask(64));
    assert!(take_block(&mut out, Ok(vec![255; 64])).is_ok());
    assert_eq!(out, "");
    assert_eq!(next_draw(&out, 1), Draw::Ask(64));
    assert_eq!(next_draw(&out, MAX_BLOCKS), Draw::GiveUp);
    assert!(take_block(&mut out, Ok(vec![0, 255, 71])).is_ok());
    assert_eq!(out, "AB");
    let err = take_block(&mut out, Err("no entropy".to_string())).unwrap_err();
    assert_eq!(err.to_text(), "Failed to generate a database password: no entropy");
    assert_eq!(out, "AB");
    assert!(take_block(&mut out, Ok(vec![2; 64])).is_ok());
    assert_eq!(out, format!("AB{}", "C".repeat(GENERATED_PASSWORD_LEN - 2)));
    assert_eq!(next_draw(&out, 3), Draw::Done);
    assert_eq!(next_draw(&out, MAX_BLOCKS), Draw::Done);
    assert!(validate_password(&out).is_ok());
}

#[test]
fn password_accepts_the_printable_ascii_boundaries() {
    assert!(validate_password("!!!!!!!!!!!!").is_ok());
    assert!(validate_password("~~~~~~~~~~~~").is_ok());
    assert!(validate_password("!aA0~-_.+=^*").is_ok());
}

#[test]
fn password_is_read_from_a_line() {
    let line = StdinLine::Line("hunter2hunter2".to_string());
    assert_eq!(read_password_from_stdin(line).unwrap(), "hunter2hunter2");
    let err = read_password_from_stdin(StdinLine::Empty).unwrap_err();
    assert_eq!(err.to_text(), "stdin was empty; expected a database password");
    let err = read_password_from_stdin(StdinLine::Failed("eof".to_string())).unwrap_err();
    assert!(err.to_text().contains("eof"));
}

// ─── Connection strings ────────────────────────────────────────────────────

#[test]
fn connection_string_builds_the_rw_endpoint() {
    let conn = connection_string(&sample_service()).unwrap();
    assert_eq!(conn, "postgresql://appuser@mydb-abc123-rw:5432/appdb");
}

#[test]
fn connection_string_omits_the_password() {
    let conn = connection_string(&sample_service()).unwrap();
    let authority = conn.strip_prefix("postgresql://").expect("scheme");
    let userinfo = authority.split('@').next().expect("userinfo");
    assert_eq!(
        userinfo, "appuser",
        "userinfo must be the bare username, got '{userinfo}' in {conn}"
    );
}

fn without(field: &str, filler: Option<&str>) -> Service {
    let mut svc = sample_service();
    let filler = filler.map(str::to_string);
    match field {
        "internal_sd_url" => svc.internal_sd_url = filler,
        "db_user" => svc.db_user = filler,
        _ => svc.db_name = filler,
    }
    svc
}

#[test]
fn connection_string_is_none_when_a_part_is_missing() {
    for field in ["internal_sd_url", "db_user", "db_name"] {
        assert!(
            connection_string(&without(field, None)).is_none(),
            "missing '{field}' must yield None"
        );
    }
}

#[test]
fn connection_string_is_none_when_a_part_is_an_empty_string() {
    for field in ["internal_sd_url", "db_user", "db_name"] {
        assert!(
            connection_string(&without(field, Some(""))).is_none(),
            "empty '{field}' must yield None"
        );
    }
    assert_eq!(non_empty(&Some(String::new())), None);
    assert_eq!(non_empty(&Some("x".to_string())), Some("x"));
}

// ─── The request body ──────────────────────────────────────────────────────

#[test]
fn build_create_body_pins_the_database_discriminators() {
    let body = build_create_body(
        "mydb", "appdb", "appuser", "17", "pw", 2, "proj-1", "reg-1", "pod-1",
    );
    assert_eq!(body.deploy_type, "database");
    assert_eq!(body.runtime, "psql");
    assert_eq!(body.db_type, "postgresql");
    assert_eq!(body.db_disk_size, 2);
}

#[test]
fn build_create_body_sends_exactly_one_primary_replica() {
    let body = build_create_body(
        "mydb", "appdb", "appuser", "17", "pw", 1, "proj-1", "reg-1", "pod-1",
    );
    assert_eq!(body.replicas.len(), 1);
    assert!(body.replicas[0].is_primary);
    assert_eq!(body.replicas[0].fk_region, "reg-1");
}

#[test]
fn build_create_body_leaves_env_empty() {
    let body = build_create_body(
        "mydb", "appdb", "appuser", "16", "pw", 1, "proj-1", "reg-1", "pod-1",
    );
    assert!(body.env.is_empty());
}

#[test]
fn version_accepts_only_supported_majors() {
    assert!(validate_version("16").is_ok());
    assert!(validate_version("17").is_ok());
    for v in ["15", "18", "17.2", ""] {
        assert!(
            validate_version(v).is_err(),
            "expected '{v}' to be rejected"
        );
    }
}

#[test]
fn disk_size_respects_the_platform_bounds() {
    assert!(validate_disk_size(DISK_SIZE_MIN).is_ok());
    assert!(validate_disk_size(DISK_SIZE_MAX).is_ok());
    assert!(validate_disk_size(DISK_SIZE_MIN - 1).is_err());
    assert!(validate_disk_size(DISK_SIZE_MAX + 1).is_err());
}

#[test]
fn service_name_matches_the_api_pattern() {
    for ok in ["mydb", "orders-db", "db 1", "a"] {
        assert!(validate_service_name(ok).is_ok(), "expected '{ok}' ok");
    }
    for bad in ["", "-mydb", "mydb-", "my_db", "way-too-long-a-name"] {
        assert!(
            validate_service_name(bad).is_err(),
            "expected '{bad}' rejected"
        );
    }
}

// ─── Which services are databases ──────────────────────────────────────────

#[test]
fn is_database_matches_only_the_database_deploy_type() {
    assert!(is_database(&sample_service()));
    let mut svc = sample_service();
    svc.deploy_type = "webservice".to_string();
    assert!(!is_database(&svc));
}

#[test]
fn run_show_rejects_a_non_database_service() {
    let err = read_database(web(), "svc-web").unwrap_err().to_text();
    assert!(err.contains("not a managed database"), "{err}");
}

#[test]
fn run_delete_rejects_a_non_database_service_without_deleting() {
    let err = read_database(web(), "svc-web").unwrap_err().to_text();
    assert!(err.contains("not a managed database"), "{err}");
    let svc = read_database(sample_service(), "svc-db-1").unwrap();
    assert!(delete_warning(&svc, TEXT).unwrap().contains("mydb"));
    assert!(delete_warning(&svc, JSON).is_none());
    assert!(deleted_report("svc-db-1").message.contains("svc-db-1"));
}

#[test]
fn run_deploy_rejects_a_non_database_service_without_enqueuing() {
    let err = read_database(web(), "svc-web").unwrap_err().to_text();
    assert!(err.contains("not a managed database"), "{err}");
}

#[test]
fn lifecycle_commands_reject_a_non_database_service() {
    for label in ["pause", "unpause", "jobs"] {
        match read_database(web(), "svc-web") {
            Ok(_) => panic!("db {label} must reject a webservice"),
            Err(e) => assert!(
                e.to_text().contains("not a managed database"),
                "db {label}: {}",
                e.to_text()
            ),
        }
    }
    assert!(queued_report(DbJob::Pause, "svc-db-1").message.to_lowercase().contains("pause"));
}

// ─── What a created database is shown as ───────────────────────────────────

#[test]
fn created_payload_carries_a_generated_password() {
    let p = value(&created_payload(&sample_service(), "sup3rSecret-pw", true, 3));
    assert_eq!(p["password"], "sup3rSecret-pw");
    assert_eq!(p["password_generated"], true);
}

#[test]
fn created_payload_withholds_a_caller_supplied_password() {
    let p = value(&created_payload(&sample_service(), "sup3rSecret-pw", false, 3));
    assert!(p["password"].is_null(), "{}", p["password"]);
    assert_eq!(p["password_generated"], false);
}

#[test]
fn created_payload_reports_the_requested_disk_size() {
    let p = value(&created_payload(&sample_service(), "pw", true, 7));
    assert_eq!(p["disk_size_gb"], 7);
}

#[test]
fn created_payload_connection_string_never_contains_the_password() {
    let p = value(&created_payload(&sample_service(), "sup3rSecret-pw", true, 1));
    let conn = p["connection_string"].as_str().unwrap();
    assert!(!conn.contains("sup3rSecret-pw"), "{conn}");
    assert_eq!(conn, "postgresql://appuser@mydb-abc123-rw:5432/appdb");
}

#[test]
fn created_payload_includes_the_rest_of_the_record() {
    let p = value(&created_payload(&sample_service(), "pw", true, 1));
    assert_eq!(p["id"], "svc-db-1");
    assert_eq!(p["db_name"], "appdb");
    assert_eq!(p["db_user"], "appuser");
    assert_eq!(p["db_version"], "17");
    assert_eq!(p["host"], "mydb-abc123-rw");
    assert_eq!(p["port"], 5432);
}

#[test]
fn a_given_password_is_not_shown_again() {
    let report = report_created(&sample_service(), "sup3rSecret-pw", false, 1);
    assert!(!report.message.contains("sup3rSecret-pw"));
    assert!(report.notes.iter().all(|n| !n.contains("sup3rSecret-pw")), "{:?}", report.notes);
    let report = report_created(&sample_service(), "sup3rSecret-pw", true, 1);
    assert!(report.notes.iter().any(|n| n.contains("sup3rSecret-pw")), "{:?}", report.notes);
}

#[test]
fn a_generated_password_is_shown_after_a_failure() {
    let lines = report_password_after_failure("pw-in-danger", "orders-db", TEXT);
    assert!(lines.iter().any(|l| l.contains("pw-in-danger")));
    assert!(lines.iter().any(|l| l.contains("orders-db")));
    let lines = report_password_after_failure("pw\"x", "orders-db", JSON);
    assert_eq!(lines.len(), 1);
    let v: serde_json::Value = serde_json::from_str(&lines[0]).unwrap();
    assert_eq!(v["password"], "pw\"x");
    assert_eq!(v["password_generated"], true);
}

#[test]
fn the_password_box_is_a_rectangle() {
    let lines = password_box("pw", "SAVE", &vec!["one".to_string(), "a longer line".to_string()]);
    let boxed: Vec<&String> = lines.iter().filter(|l| !l.trim().is_empty()).collect();
    let width = boxed[0].chars().count();
    assert!(boxed.iter().all(|l| l.chars().count() == width), "{lines:?}");
}

// ─── Deploy errors ─────────────────────────────────────────────────────────

#[test]
fn explain_deploy_error_rewrites_the_unattached_volume_conflict() {
    let api_err = Failure::Cli(
        CliError::new(
            "409",
            "This database service has no attached storage volume and cannot be deployed",
        )
        .enriched(&ConfigOverride::none()),
    );
    let out = explain_deploy_error(api_err).to_text();
    assert!(out.contains("not attached yet"), "{out}");
    assert!(out.contains("Wait a few seconds and"), "{out}");
}

#[test]
fn explain_deploy_error_passes_other_errors_through_untouched() {
    let api_err = Failure::Cli(
        CliError::new("409", "Active job already exists for this service")
            .enriched(&ConfigOverride::none()),
    );
    let out = explain_deploy_error(api_err).to_text();
    assert!(out.contains("Active job already exists"), "{out}");
    assert!(!out.contains("not attached yet"), "{out}");
}

// ─── Creating ──────────────────────────────────────────────────────────────

fn full_create_args() -> CreateArgs {
    CreateArgs {
        project: Some("proj-1".to_string()),
        workspace: Some("ws-1".to_string()),
        name: Some("orders-db".to_string()),
        db_name: Some("appdb".to_string()),
        db_user: Some("appuser".to_string()),
        version: Some("17".to_string()),
        disk: Some(3),
        region: Some("reg-1".to_string()),
        pod: Some("pod-1".to_string()),
        password_stdin: false,
    }
}

/// Everything is known, so that only the password is left.
fn created(args: CreateArgs) -> Result<CreateDatabaseBody, Failure> {
    match args.next_need(NO_INPUT) {
        Ok(Need::Password) => {}
        other => panic!("something is still needed: {other:?}"),
    }
    run_create(&args, "correct-horse", NO_INPUT)
}

#[test]
fn run_create_posts_the_expected_body() {
    let req = ApiClient::create_database(&created(full_create_args()).unwrap());
    assert!(matches!(req.method, Method::Post));
    assert_eq!(req.path, "/services");
    let body = value(req.body.as_ref().unwrap());
    assert_eq!(body["name"], "orders-db");
    assert_eq!(body["deploy_type"], "database");
    assert_eq!(body["runtime"], "psql");
    assert_eq!(body["db_type"], "postgresql");
    assert_eq!(body["db_version"], "17");
    assert_eq!(body["db_name"], "appdb");
    assert_eq!(body["db_user"], "appuser");
    assert_eq!(body["db_disk_size"], 3);
    assert_eq!(body["db_password"], "correct-horse");
    assert_eq!(body["fk_project"], "proj-1");
    assert_eq!(body["fk_region"], "reg-1");
    assert_eq!(body["fk_pod"], "pod-1");
    assert_eq!(body["replicas"].as_array().unwrap().len(), 1);
    assert_eq!(body["replicas"][0]["fk_region"], "reg-1");
    assert_eq!(body["replicas"][0]["is_primary"], true);
    assert_eq!(body["maintenance_mode"], false);
    assert_eq!(body["active"], true);
}

#[test]
fn run_create_resolves_no_workspace_when_every_uuid_is_supplied() {
    let args = CreateArgs { workspace: None, ..full_create_args() };
    assert!(matches!(args.next_need(NO_INPUT), Ok(Need::Password)));
    assert!(created(args).is_ok());
}

#[test]
fn run_create_never_touches_storage_volumes() {
    let req = ApiClient::create_database(&created(full_create_args()).unwrap());
    assert!(!req.path.contains("volumes"));
}

#[test]
fn run_create_validates_locally_before_calling_the_api() {
    let expect_rejected = |field: &str, args: CreateArgs| {
        let err = match args.next_need(NO_INPUT) {
            Ok(Need::Password) => run_create(&args, "correct-horse", NO_INPUT).unwrap_err(),
            Ok(other) => panic!("unexpected need {other:?}"),
            Err(e) => e,
        };
        assert!(
            err.to_text().contains(field),
            "expected the error to name '{field}': {}",
            err.to_text()
        );
    };

    expect_rejected(
        "db-name",
        CreateArgs { db_name: Some("1bad".into()), ..full_create_args() },
    );
    expect_rejected(
        "db-user",
        CreateArgs { db_user: Some("Bad-User".into()), ..full_create_args() },
    );
    expect_rejected(
        "db-name",
        CreateArgs { db_name: Some("postgres".into()), ..full_create_args() },
    );
    expect_rejected(
        "version",
        CreateArgs { version: Some("15".into()), ..full_create_args() },
    );
    expect_rejected(
        "disk",
        CreateArgs { disk: Some(99), ..full_create_args() },
    );
    expect_rejected(
        "name",
        CreateArgs { name: Some("this-name-is-far-too-long".into()), ..full_create_args() },
    );
}

#[test]
fn missing_values_are_asked_for_in_turn() {
    let args = CreateArgs { project: None, region: None, ..full_create_args() };
    assert!(matches!(args.next_need(TEXT), Ok(Need::Project)));
    let args = CreateArgs { region: None, ..full_create_args() };
    assert!(matches!(args.next_need(TEXT), Ok(Need::Region)));
    let args = CreateArgs { name: None, ..full_create_args() };
    assert!(matches!(args.next_need(TEXT), Ok(Need::Name)));
    assert!(args.next_need(NO_INPUT).is_err());
    assert!(require_input("version", "--version <VER>", TEXT).is_ok());
    let err = require_input("version", "--version <VER>", NO_INPUT).unwrap_err();
    assert!(err.to_text().contains("No version specified"), "{}", err.to_text());
    assert_eq!(CreateArgs { disk: None, ..full_create_args() }.disk_size(), 1);
}

// ─── Lists ─────────────────────────────────────────────────────────────────

#[test]
fn run_list_renders_a_mixed_project_without_erroring() {
    match run_list(vec![sample_service(), web()], TEXT) {
        Listing::Rows(rows) => {
            assert_eq!(rows.len(), 1);
            assert_eq!(rows[0].id, "svc-db-1");
            assert_eq!(rows[0].db_name, "appdb");
        }
        _ => panic!("expected rows"),
    }
    assert!(matches!(run_list(vec![web()], TEXT), Listing::Message(_)));
    assert!(matches!(run_list(vec![web()], JSON), Listing::Data(_)));
}

#[test]
fn filter_databases_keeps_only_databases() {
    let input = vec![
        service_of_type("web", "webservice"),
        sample_service(),
        service_of_type("worker", "worker"),
        service_of_type("static", "static"),
    ];
    let out = filter_databases(input);
    assert_eq!(out.len(), 1, "only the database should survive");
    assert_eq!(out[0].id, "svc-db-1");
}

#[test]
fn filter_databases_returns_empty_when_none_match() {
    let out = filter_databases(vec![
        service_of_type("web", "webservice"),
        service_of_type("worker", "worker"),
    ]);
    assert!(out.is_empty());
}

#[test]
fn a_database_is_shown_with_its_disk() {
    let svc = sample_service();
    let vol = Volume {
        id: Some("v".to_string()),
        name: "d".to_string(),
        fk_project: "proj-1".to_string(),
        fk_workspace: "ws-1".to_string(),
        fk_region: "r".to_string(),
        fk_service: Some("svc-db-1".to_string()),
        mount_path: "/var".to_string(),
        size: 4,
        status: "attached".to_string(),
        created_at: None,
    };
    assert_eq!(disk_of(&svc, &Some(vec![vol])), Some(4));
    assert_eq!(disk_of(&svc, &None), None);
    let shown = value(&database_json(&svc, Some(4)));
    assert_eq!(shown["disk_size_gb"], 4);
    assert!(value(&database_json(&svc, None))["disk_size_gb"].is_null());
    assert_eq!(database_row(&svc).name, "mydb");
    let body = build_create_body("n", "d", "u", "17", "p", 1, "pr", "r", "po");
    assert_eq!(value(&database_body(&body))["db_user"], "u");
}

#[test]
fn jobs_of_a_database_are_listed_newest_first() {
    let job = |id: &str, at: &str| Job {
        id: id.to_string(),
        fk_service: "svc-db-1".to_string(),
        job_type: "deploy".to_string(),
        status: id.to_string(),
        deploy_ref: None,
        created_at: Some(at.to_string()),
        updated_at: None,
    };
    match run_jobs(vec![job("a", "2024-01-01"), job("b", "2024-02-01")], TEXT) {
        Listing::Rows(rows) => assert_eq!(rows[0].status, "b"),
        _ => panic!("expected rows"),
    }
}
