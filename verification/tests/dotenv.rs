//! Environment variables of a service.
use partiri::client::ApiEnvVar;
use partiri::config::{PartiriConfig, ServiceConfig};
use partiri::service::env::{
    dotenv_quote, env_rows, format_dotenv, lines, parse_dotenv, replaced_report, replacement, run,
    saved_report, strip_quotes, with_env, EnvAction, EnvFile,
};

#[test]
fn parses_basic_key_value() {
    let env = parse_dotenv("FOO=bar\nBAZ=qux").unwrap();
    assert_eq!(env.len(), 2);
    assert_eq!(env[0].key, "FOO");
    assert_eq!(env[0].value, "bar");
    assert_eq!(env[1].key, "BAZ");
    assert_eq!(env[1].value, "qux");
}

#[test]
fn skips_blank_lines_and_comments() {
    let env = parse_dotenv("\n# comment\n\nFOO=bar\n  # leading-whitespace comment\nBAZ=qux\n")
        .unwrap();
    assert_eq!(env.len(), 2);
}

#[test]
fn strips_double_quotes() {
    let env = parse_dotenv(r#"FOO="hello world""#).unwrap();
    assert_eq!(env[0].value, "hello world");
}

#[test]
fn strips_single_quotes() {
    let env = parse_dotenv("FOO='hello world'").unwrap();
    assert_eq!(env[0].value, "hello world");
}

#[test]
fn does_not_strip_mismatched_quotes() {
    let env = parse_dotenv(r#"FOO="value'"#).unwrap();
    assert_eq!(env[0].value, "\"value'");
}

#[test]
fn preserves_equals_in_value() {
    let env = parse_dotenv("URL=https://example.com/?a=1").unwrap();
    assert_eq!(env[0].value, "https://example.com/?a=1");
}

#[test]
fn rejects_line_without_equals() {
    let err = parse_dotenv("BAD_LINE_WITHOUT_EQUALS").unwrap_err();
    assert!(err.to_text().contains("Line 1"));
}

#[test]
fn rejects_empty_key() {
    let err = parse_dotenv("=value").unwrap_err();
    assert!(err.to_text().contains("empty key"));
}

#[test]
fn empty_file_produces_empty_vec() {
    let env = parse_dotenv("").unwrap();
    assert!(env.is_empty());
}

#[test]
fn whitespace_around_key_is_trimmed() {
    let env = parse_dotenv("  FOO  =bar").unwrap();
    assert_eq!(env[0].key, "FOO");
}

#[test]
fn the_line_number_counts_every_line() {
    let err = parse_dotenv("A=1\r\n\r\n# x\r\noops\r\n").unwrap_err();
    assert!(err.to_text().contains("Line 4"), "{}", err.to_text());
}

fn api_env(pairs: &[(&str, &str)]) -> Vec<ApiEnvVar> {
    pairs
        .iter()
        .map(|(k, v)| ApiEnvVar {
            key: k.to_string(),
            value: v.to_string(),
        })
        .collect()
}

#[test]
fn format_dotenv_plain_values_are_not_quoted() {
    let out = format_dotenv(&api_env(&[("FOO", "bar"), ("PORT", "3000")]));
    assert_eq!(out, "FOO=bar\nPORT=3000\n");
}

#[test]
fn format_dotenv_quotes_values_with_spaces() {
    let out = format_dotenv(&api_env(&[("MSG", "hello world")]));
    assert_eq!(out, "MSG=\"hello world\"\n");
}

#[test]
fn format_dotenv_quotes_empty_value() {
    let out = format_dotenv(&api_env(&[("EMPTY", "")]));
    assert_eq!(out, "EMPTY=\"\"\n");
}

#[test]
fn format_dotenv_quotes_values_with_hash() {
    let out = format_dotenv(&api_env(&[("URL", "x#fragment")]));
    assert_eq!(out, "URL=\"x#fragment\"\n");
}

#[test]
fn format_dotenv_escapes_internal_quotes_and_backslashes() {
    let out = format_dotenv(&api_env(&[("WEIRD", "a\"b\\c")]));
    assert_eq!(out, "WEIRD=\"a\\\"b\\\\c\"\n");
}

#[test]
fn format_dotenv_escapes_newlines() {
    let out = format_dotenv(&api_env(&[("MULTI", "a\nb")]));
    assert_eq!(out, "MULTI=\"a\\nb\"\n");
}

#[test]
fn format_dotenv_roundtrips_plain_values_through_parser() {
    let written = format_dotenv(&api_env(&[("A", "1"), ("B", "two words")]));
    let parsed = parse_dotenv(&written).unwrap();
    assert_eq!(parsed.len(), 2);
    assert_eq!(parsed[0].key, "A");
    assert_eq!(parsed[0].value, "1");
    assert_eq!(parsed[1].key, "B");
    assert_eq!(parsed[1].value, "two words");
}

#[test]
fn lines_are_those_of_the_standard_library() {
    for s in ["", "a", "a\n", "a\nb", "a\r\nb\r\n", "\n\n", "a\rb", "a\r", "\r\n"] {
        let expected: Vec<&str> = s.lines().collect();
        assert_eq!(lines(s), expected, "{s:?}");
    }
}

#[test]
fn quotes_are_only_stripped_in_pairs() {
    assert_eq!(strip_quotes("\"a\""), "a");
    assert_eq!(strip_quotes("''"), "");
    assert_eq!(strip_quotes("\""), "\"");
    assert_eq!(strip_quotes("\"a'"), "\"a'");
    assert_eq!(strip_quotes("a"), "a");
}

#[test]
fn only_plain_values_stay_unquoted() {
    assert_eq!(dotenv_quote("plain-1.2/x"), "plain-1.2/x");
    assert_eq!(dotenv_quote("a b"), "\"a b\"");
    assert_eq!(dotenv_quote(""), "\"\"");
    assert_eq!(dotenv_quote("a\tb"), "\"a\tb\"");
}

fn config(id: Option<&str>) -> PartiriConfig {
    PartiriConfig {
        id: id.map(str::to_string),
        deploy_tag: None,
        fk_workspace: "w".to_string(),
        fk_project: "p".to_string(),
        service: ServiceConfig::default(),
    }
}

#[test]
fn the_flags_choose_what_happens() {
    let c = config(Some("svc-1"));
    assert!(matches!(run(&c, None, true), Ok(EnvAction::Save)));
    assert!(matches!(run(&c, Some(".env".to_string()), false), Ok(EnvAction::Replace(p)) if p == ".env"));
    assert!(matches!(run(&c, None, false), Ok(EnvAction::Show)));
    assert!(run(&config(None), None, false).is_err());
}

#[test]
fn a_file_replaces_the_variables() {
    let env = replacement(".env", EnvFile::Text("A=1\nB=2\n".to_string())).unwrap();
    assert_eq!(env.len(), 2);
    let c = with_env(config(Some("svc-1")), env);
    let held = c.service.env.unwrap();
    assert_eq!(held[1].key, "B");
    assert_eq!(held[1].value, "2");
    assert_eq!(c.id.as_deref(), Some("svc-1"));
    let missing = replacement(".env", EnvFile::Missing).unwrap_err();
    assert!(missing.to_text().contains("File not found: .env"), "{}", missing.to_text());
    let unreadable = replacement(".env", EnvFile::Unreadable("denied".to_string())).unwrap_err();
    assert_eq!(unreadable.to_text(), "Failed to read .env: denied");
}

#[test]
fn reports_count_the_variables() {
    assert_eq!(saved_report(1).message, "Saved 1 variable to .env.partiri.");
    assert_eq!(saved_report(2).message, "Saved 2 variables to .env.partiri.");
    assert_eq!(
        replaced_report("svc-1", 3).message,
        "Replaced env on service svc-1 (3 variables)."
    );
}

#[test]
fn rows_show_every_variable() {
    let rows = env_rows(&Some(api_env(&[("A", "1"), ("B", "")])));
    assert_eq!(rows.len(), 2);
    assert_eq!(rows[1].key, "B");
    assert_eq!(rows[1].value, "");
    assert!(env_rows(&None).is_empty());
}
