//! Secrets of a workspace.
use partiri::client::{ApiRequest, CreatedSecret, Method, WorkspaceSecret};
use partiri::config::ConfigOverride;
use partiri::output::{Ctx, Listing};
use partiri::secret::{
    created_report, read_secret_arg, require_arg, run_create_registry, run_create_repository,
    run_list, secret_json, to_row, CreateRegistryArgs, CreateRepositoryArgs, SecretKind,
    StdinLine, NO_SECRETS,
};

fn secret(id: &str, name: Option<&str>, provider: Option<&str>) -> WorkspaceSecret {
    WorkspaceSecret {
        id: id.to_string(),
        name: name.map(str::to_string),
        provider: provider.map(str::to_string),
    }
}

fn body_text(req: &ApiRequest, key: &str) -> Option<String> {
    req.body.as_ref().and_then(|b| b.get_str(key)).map(str::to_string)
}

#[test]
fn to_row_uses_defaults_for_missing_fields() {
    let s = secret("sec-1", None, None);
    let row = to_row(&s, "registry");
    assert_eq!(row.id, "sec-1");
    assert_eq!(row.kind, "registry");
    assert!(row.name.is_empty());
    assert!(row.provider.is_empty());
}

#[test]
fn to_row_uses_name_and_provider_when_set() {
    let s = secret("sec-2", Some("ghcr"), Some("github"));
    let row = to_row(&s, "registry");
    assert_eq!(row.name, "ghcr");
    assert_eq!(row.provider, "github");
}

#[test]
fn secret_json_includes_all_fields() {
    let s = secret("sec-3", Some("my-token"), Some("bitbucket"));
    let v = secret_json(&s);
    assert_eq!(v.get_str("id"), Some("sec-3"));
    assert_eq!(v.get_str("name"), Some("my-token"));
    assert_eq!(v.get_str("provider"), Some("bitbucket"));
}

#[test]
fn read_secret_arg_returns_flag_value_when_provided() {
    let result =
        read_secret_arg(Some("mypassword".to_string()), false, "password", StdinLine::Empty)
            .unwrap();
    assert_eq!(result, "mypassword");
}

#[test]
fn read_secret_arg_errors_when_neither_flag_nor_stdin() {
    let err = read_secret_arg(None, false, "password", StdinLine::Empty).unwrap_err();
    assert!(err.to_text().contains("password"));
}

#[test]
fn read_secret_arg_takes_a_line_of_stdin() {
    let line = StdinLine::Line("s3cret".to_string());
    assert_eq!(read_secret_arg(None, true, "token", line).unwrap(), "s3cret");
    assert!(read_secret_arg(None, true, "token", StdinLine::Empty).is_err());
    let failed = StdinLine::Failed("closed".to_string());
    let err = read_secret_arg(None, true, "token", failed).unwrap_err();
    assert!(err.to_text().contains("closed"), "{}", err.to_text());
}

#[test]
fn require_arg_returns_value_when_some() {
    let result = require_arg(Some("myval".to_string()), "name", "--name", "cmd").unwrap();
    assert_eq!(result, "myval");
}

#[test]
fn require_arg_errors_when_none() {
    let err = require_arg(None, "name", "--name", "cmd").unwrap_err();
    assert!(err.to_text().contains("name"));
}

fn registry_args(provider: Option<&str>) -> CreateRegistryArgs {
    CreateRegistryArgs {
        workspace: None,
        name: Some("ghcr".to_string()),
        provider: provider.map(str::to_string),
        username: Some("octo".to_string()),
        password: Some("pw".to_string()),
        password_stdin: false,
    }
}

#[test]
fn registry_secret_is_posted() {
    let req = run_create_registry(registry_args(Some("github")), "ws-1", StdinLine::Empty).unwrap();
    assert!(matches!(req.method, Method::Post));
    assert_eq!(body_text(&req, "name").as_deref(), Some("ghcr"));
    assert_eq!(body_text(&req, "provider").as_deref(), Some("github"));
    assert!(run_create_registry(registry_args(None), "ws-1", StdinLine::Empty).is_err());
}

#[test]
fn repository_secret_is_posted() {
    let args = CreateRepositoryArgs {
        workspace: None,
        name: Some("gh".to_string()),
        provider: Some("github".to_string()),
        token: None,
        token_stdin: true,
        username: None,
    };
    let line = StdinLine::Line("tok".to_string());
    let req = run_create_repository(args, "ws-1", line).unwrap();
    assert!(matches!(req.method, Method::Post));
    assert_eq!(body_text(&req, "name").as_deref(), Some("gh"));
}

#[test]
fn only_bitbucket_takes_a_user() {
    let key = |provider: &str| {
        let args = CreateRepositoryArgs {
            workspace: None,
            name: Some("git".to_string()),
            provider: Some(provider.to_string()),
            token: Some("tok".to_string()),
            token_stdin: false,
            username: Some("octo".to_string()),
        };
        let req = run_create_repository(args, "ws-1", StdinLine::Empty).unwrap();
        let body = req.body.unwrap();
        body.get("data").unwrap().get_str("key").unwrap().to_string()
    };
    assert_eq!(key("bitbucket"), "octo");
    assert_eq!(key("github"), "");
}

#[test]
fn created_secret_is_reported() {
    let made = CreatedSecret {
        id: "sec-9".to_string(),
        name: Some("ghcr".to_string()),
        provider: Some("github".to_string()),
        secret_type: None,
    };
    let over = ConfigOverride::none();
    let report = created_report(&made, "ghcr", SecretKind::Registry, &over);
    assert!(report.message.contains("ghcr"), "{}", report.message);
    let data = report.data.unwrap();
    assert_eq!(data.get_str("id"), Some("sec-9"));
}

#[test]
fn both_kinds_are_listed() {
    let text = Ctx { json: false, yes: false, no_input: false };
    let json = Ctx { json: true, yes: false, no_input: false };
    let registry = vec![secret("a", Some("r"), None)];
    let repository = vec![secret("b", None, None), secret("c", None, None)];
    match run_list(&registry, &repository, text) {
        Listing::Rows(rows) => {
            let ids: Vec<&str> = rows.iter().map(|r| r.id.as_str()).collect();
            assert_eq!(ids, ["a", "b", "c"]);
            let kinds: Vec<&str> = rows.iter().map(|r| r.kind.as_str()).collect();
            assert_eq!(kinds, ["registry", "repository", "repository"]);
        }
        _ => panic!("expected rows"),
    }
    assert!(matches!(run_list(&registry, &repository, json), Listing::Data(_)));
    match run_list(&Vec::new(), &Vec::new(), text) {
        Listing::Message(m) => assert_eq!(m, NO_SECRETS),
        _ => panic!("expected a message"),
    }
}
