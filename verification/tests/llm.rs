//! Helpers for agents.
use partiri::client::{Job, Workspace};
use partiri::config::{
    validate_config, ConfigOverride, PartiriConfig, ServiceConfig, DEPLOY_TYPES, RUNTIMES,
};
use partiri::json::Json;
use partiri::llm::{
    advice_json, build_template, deduce_state, default_commands, doctor_json, doctor_lines,
    find_subcommand, needs_jobs, pitfalls_for, run_capabilities, run_context, run_doctor,
    run_errors, run_examples, run_explain, run_next, run_template, run_whoami, scoped_workspaces,
    user_email, words, ApiProbe, ArgInfo, CommandTree, ConfigProbe, ContextData, Credentials,
    Health, NextConfig, TemplateArgs,
};
use partiri::mcp::write_config;

fn value(json: &Json) -> serde_json::Value {
    serde_json::from_str(&write_config(json).unwrap()).unwrap()
}

fn none() -> ConfigOverride {
    ConfigOverride::none()
}

// ─── Templates ─────────────────────────────────────────────────────────────

#[test]
fn templates_are_configurations_to_fill_in() {
    for deploy_type in DEPLOY_TYPES {
        for runtime in RUNTIMES {
            for source in ["repo", "registry"] {
                let text = build_template(deploy_type, runtime, source);
                let v: serde_json::Value = json5::from_str(&text).unwrap();
                assert_eq!(v["service"]["deploy_type"], deploy_type);
                assert_eq!(v["service"]["runtime"], runtime);
                let key = if source == "registry" { "registry_url" } else { "repository_url" };
                assert!(v["service"].get(key).is_some(), "{text}");
                let s = |key: &str| v["service"][key].as_str().map(str::to_string);
                let config = PartiriConfig {
                    id: None,
                    deploy_tag: None,
                    fk_workspace: v["fk_workspace"].as_str().unwrap().to_string(),
                    fk_project: v["fk_project"].as_str().unwrap().to_string(),
                    service: ServiceConfig {
                        name: s("name").unwrap(),
                        deploy_type: s("deploy_type").unwrap(),
                        runtime: s("runtime").unwrap(),
                        root_path: s("root_path").unwrap(),
                        repository_url: s("repository_url"),
                        repository_branch: s("repository_branch"),
                        registry_url: s("registry_url"),
                        build_command: s("build_command"),
                        run_command: s("run_command"),
                        fk_region: s("fk_region").unwrap(),
                        fk_pod: s("fk_pod").unwrap(),
                        ..ServiceConfig::default()
                    },
                };
                let fits = if source == "registry" {
                    deploy_type != "static"
                } else {
                    runtime != "registry" && (runtime != "static" || deploy_type == "static")
                };
                assert_eq!(validate_config(&config).iter().all(|r| r.ok), fits, "{text}");
            }
        }
    }
    assert_eq!(default_commands("rust").0, "cargo build --release");
    let args = TemplateArgs { deploy_type: None, runtime: None, source: None };
    let (text, json) = run_template(&args);
    assert!(value(&json).to_string().contains("webservice") || text.contains("webservice"));
}

#[test]
fn examples_hold_commands() {
    let shown = value(&run_examples());
    assert!(shown.to_string().contains("partiri"));
}

// ─── The command tree ──────────────────────────────────────────────────────

fn arg(name: &str, help: Option<&str>) -> ArgInfo {
    ArgInfo {
        name: name.to_string(),
        short: None,
        long: Some(name.to_string()),
        required: false,
        takes_value: true,
        positional: false,
        help: help.map(str::to_string),
        possible_values: Vec::new(),
    }
}

fn leaf(name: &str) -> CommandTree {
    CommandTree {
        name: name.to_string(),
        about: Some(format!("about {name}")),
        args: vec![arg("path", Some("a path"))],
        subcommands: Vec::new(),
    }
}

fn tree() -> CommandTree {
    let mut service = leaf("service");
    service.subcommands = vec![leaf("create"), leaf("deploy")];
    let mut root = leaf("partiri");
    root.subcommands = vec![service, leaf("validate")];
    root
}

#[test]
fn commands_are_found_by_their_words() {
    assert_eq!(words("  service   deploy "), ["service", "deploy"]);
    let root = tree();
    assert_eq!(find_subcommand(&root, "service deploy").unwrap().name, "deploy");
    assert_eq!(find_subcommand(&root, "validate").unwrap().name, "validate");
    assert!(find_subcommand(&root, "service nope").is_none());
}

#[test]
fn commands_are_described() {
    let root = tree();
    let all = value(&run_capabilities(&root));
    assert!(all.to_string().contains("about deploy"));
    let one = value(&run_explain(&root, "service deploy").unwrap());
    assert_eq!(one["command"], "service deploy");
    assert!(!pitfalls_for("service deploy").is_empty());
    assert!(run_explain(&root, "nope").is_err());
    assert!(value(&run_errors()).to_string().contains("401"));
}

// ─── Who, and how it stands ────────────────────────────────────────────────

fn workspace(id: &str, email: Option<&str>) -> Workspace {
    Workspace {
        id: id.to_string(),
        name: id.to_string(),
        email: email.map(str::to_string),
    }
}

#[test]
fn the_user_is_known_by_the_first_workspace() {
    let all = vec![workspace("a", Some("u@x")), workspace("b", None)];
    assert_eq!(user_email(&all).as_deref(), Some("u@x"));
    assert_eq!(user_email(&vec![workspace("a", None), workspace("b", Some("u@x"))]), None);
    assert_eq!(user_email(&Vec::new()), None);
    let shown = value(&run_whoami(&Some("/k".to_string()), true, &None, &all));
    assert!(shown.to_string().contains("u@x"));
    let scoped = scoped_workspaces(all, Some("a"));
    assert_eq!(scoped.len(), 1);
    assert_eq!(scoped[0].id, "a");
}

#[test]
fn the_doctor_fails_only_on_failures() {
    let found = Credentials::Found("/k".to_string());
    let (checks, outcome) =
        run_doctor(&found, true, &ApiProbe::Workspaces(2), &ConfigProbe::Missing, &none());
    assert!(outcome.is_ok());
    assert!(checks.iter().any(|c| matches!(c.status, Health::Warn)));
    let missing = Credentials::Missing("/k".to_string());
    let (checks, outcome) = run_doctor(
        &missing,
        false,
        &ApiProbe::NoClient("no key".to_string()),
        &ConfigProbe::Parses,
        &none(),
    );
    assert!(outcome.is_err());
    assert!(checks.iter().any(|c| matches!(c.status, Health::Fail)));
    assert!(!doctor_lines(&checks[0]).is_empty());
    assert!(value(&doctor_json(&checks)).to_string().contains("fail"));
}

#[test]
fn an_empty_context_lists_nothing() {
    let c = ContextData { user_email: None, workspaces: Vec::new() };
    let shown = value(&run_context(&c));
    assert_eq!(shown["workspaces"].as_array().unwrap().len(), 0);
}

// ─── What to do next ───────────────────────────────────────────────────────

fn config() -> PartiriConfig {
    PartiriConfig {
        id: Some("svc".to_string()),
        deploy_tag: None,
        fk_workspace: "w".to_string(),
        fk_project: "p".to_string(),
        service: ServiceConfig {
            fk_region: "r".to_string(),
            fk_pod: "pod".to_string(),
            ..ServiceConfig::default()
        },
    }
}

fn deploy(status: &str, at: &str) -> Job {
    Job {
        id: "j".to_string(),
        fk_service: "svc".to_string(),
        job_type: "deploy".to_string(),
        status: status.to_string(),
        deploy_ref: None,
        created_at: Some(at.to_string()),
        updated_at: None,
    }
}

fn state(c: &PartiriConfig, jobs: Option<Vec<Job>>) -> String {
    deduce_state(c, jobs, &none()).state
}

#[test]
fn the_state_follows_the_configuration_and_the_last_deploy() {
    let mut c = config();
    assert!(needs_jobs(&c));
    assert_eq!(state(&c, None), "needs_deploy");
    assert_eq!(state(&c, Some(vec![deploy("succeeded", "1")])), "deployed");
    let later = vec![deploy("failed", "1"), deploy("open", "2")];
    assert_eq!(state(&c, Some(later)), "deploying");
    assert_eq!(state(&c, Some(vec![deploy("timed_out", "1")])), "deploy_failed");
    c.deploy_tag = Some("t".to_string());
    assert!(!needs_jobs(&c));
    assert_eq!(state(&c, None), "deployed");
    c.id = None;
    assert_eq!(state(&c, None), "needs_create");
    c.fk_project = String::new();
    assert_eq!(state(&c, None), "needs_uuids");
}

#[test]
fn the_next_step_starts_with_signing_in() {
    assert_eq!(run_next(false, NextConfig::Missing, &none()).state, "needs_auth");
    assert_ne!(run_next(true, NextConfig::Missing, &none()).state, "needs_auth");
    let broken = run_next(true, NextConfig::Broken("bad".to_string()), &none());
    assert!(!broken.next_command.is_empty());
    let next = run_next(true, NextConfig::Loaded(config(), None), &none());
    assert_eq!(next.next_command, "partiri -j -y service deploy");
    assert_eq!(value(&advice_json(&next))["state"], "needs_deploy");
}
