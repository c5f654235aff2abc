//! Keys and the browser sign-in.
use partiri::auth::{
    constant_time_eq, generate_state, handle_callback, judge_callback, key_written, login_url,
    mask_key, read_key, read_request, response, run, run_login, timeout_error, to_hex,
    too_long_error, url_decode, write_validated_key, Answer, AuthArgs, KeySource, KeyWrite,
    ReadStep, LOGIN_TIMEOUT_SECS, REQUEST_BYTE_CAP,
};
use partiri::error::Failure;
use partiri::output::Ctx;

fn terminal() -> Ctx {
    Ctx { json: false, yes: false, no_input: false }
}

fn no_terminal() -> Ctx {
    Ctx { json: false, yes: false, no_input: true }
}

// ─── mask_key ──────────────────────────────────────────────────────────────

#[test]
fn mask_key_empty_returns_stars() {
    assert_eq!(mask_key(""), "****");
}

#[test]
fn mask_key_three_chars_returns_stars() {
    assert_eq!(mask_key("abc"), "****");
}

#[test]
fn mask_key_exactly_four_returns_stars() {
    assert_eq!(mask_key("abcd"), "****");
}

#[test]
fn mask_key_five_chars_shows_overlap() {
    let result = mask_key("abcde");
    assert!(result.starts_with("abcd"), "should start with first 4 chars");
    assert!(result.ends_with("bcde"), "should end with last 4 chars");
}

#[test]
fn mask_key_long_shows_first_and_last_four() {
    let result = mask_key("abcdefghij");
    assert!(result.starts_with("abcd"), "should start with first 4");
    assert!(result.ends_with("ghij"), "should end with last 4");
    assert!(!result.contains("efgh"));
}

#[test]
fn mask_key_contains_ellipsis_separator() {
    let result = mask_key("abcdefghij");
    assert!(
        result.contains('\u{2026}'),
        "should use ellipsis separator: {}",
        result
    );
}

// ─── The key file ──────────────────────────────────────────────────────────

#[test]
fn stored_key_is_trimmed() {
    assert_eq!(read_key(Some(" k \n".to_string())), Some("k".to_string()));
    assert_eq!(read_key(Some(" \n".to_string())), None);
    assert_eq!(read_key(None), None);
}

#[test]
fn key_comes_from_its_flag_then_stdin_then_the_prompt() {
    let args = |key: Option<&str>, key_stdin: bool| AuthArgs {
        key: key.map(str::to_string),
        key_stdin,
        force: false,
    };
    assert!(matches!(run(args(Some("k"), true), true, terminal()), Ok(KeySource::Flag(k)) if k == "k"));
    assert!(matches!(run(args(None, true), true, terminal()), Ok(KeySource::Stdin)));
    assert!(matches!(run(args(None, false), true, terminal()), Ok(KeySource::Prompt)));
    let err = run(args(None, false), true, no_terminal()).unwrap_err();
    assert!(err.to_text().contains("--key-stdin"));
    let err = run(args(Some("k"), false), false, terminal()).unwrap_err();
    assert!(err.to_text().contains("config directory"));
}

#[test]
fn keys_are_checked_before_they_are_written() {
    let key = "k".repeat(64);
    let raw = format!("  {key}\n");
    assert_eq!(write_validated_key(&raw, false, false).unwrap(), key);
    let empty = write_validated_key(" \n", false, false).unwrap_err();
    assert_eq!(empty.to_text(), "API key cannot be empty.");
    let short = write_validated_key(&"é".repeat(63), false, false).unwrap_err();
    assert!(short.to_text().starts_with("Api Key does not look right."));
    let control = format!("{}\u{7}{}", "k".repeat(40), "k".repeat(40));
    let control = write_validated_key(&control, false, false).unwrap_err();
    assert!(control.to_text().contains("control characters"));
    let there = write_validated_key(&key, false, true).unwrap_err();
    assert!(there.to_text().contains("--force"));
    assert_eq!(write_validated_key(&key, true, true).unwrap(), key);
}

#[test]
fn a_written_key_has_to_read_back() {
    let saved = key_written("k", "/c/key", KeyWrite::Written("k\n".to_string())).unwrap();
    assert_eq!(saved.message, "Key saved to /c/key.");
    let other = key_written("k", "/c/key", KeyWrite::Written("x".to_string())).unwrap_err();
    assert!(other.to_text().contains("does not match"));
    let failed = key_written("k", "/c/key", KeyWrite::Failed("denied".to_string())).unwrap_err();
    assert_eq!(failed.to_text(), "Failed to write credentials to /c/key: denied");
}

// ─── Sign-in ───────────────────────────────────────────────────────────────

#[test]
fn login_needs_a_terminal() {
    assert!(run_login(terminal()).is_ok());
    assert!(run_login(no_terminal()).unwrap_err().to_text().contains("TTY"));
    let json = Ctx { json: true, yes: false, no_input: true };
    assert!(run_login(json).unwrap_err().to_text().contains("--json"));
}

#[test]
fn login_url_names_the_state_and_the_port() {
    assert_eq!(
        login_url(None, "st", 8080),
        "https://partiri.cloud/cli-auth?state=st&port=8080"
    );
    assert_eq!(
        login_url(Some("http://localhost:3000//".to_string()), "st", 1),
        "http://localhost:3000/cli-auth?state=st&port=1"
    );
}

#[test]
fn timeout_names_the_seconds() {
    let text = timeout_error(LOGIN_TIMEOUT_SECS).to_text();
    assert!(text.starts_with("Timed out after 60 seconds"), "{text}");
}

#[test]
fn generate_state_produces_64_hex_chars() {
    let s = generate_state().unwrap();
    assert_eq!(s.len(), 64);
    assert!(s.chars().all(|c| c.is_ascii_hexdigit()));
}

#[test]
fn generate_state_is_not_constant() {
    let a = generate_state().unwrap();
    let b = generate_state().unwrap();
    assert_ne!(a, b, "two state tokens collided — RNG is broken");
}

#[test]
fn constant_time_eq_matches_when_equal() {
    assert!(constant_time_eq(b"abc", b"abc"));
    assert!(constant_time_eq(b"", b""));
}

#[test]
fn constant_time_eq_rejects_different_lengths() {
    assert!(!constant_time_eq(b"abc", b"abcd"));
    assert!(!constant_time_eq(b"", b"a"));
}

#[test]
fn constant_time_eq_rejects_differing_content() {
    assert!(!constant_time_eq(b"abc", b"abd"));
    assert!(!constant_time_eq(b"xxxxxxxxxxxxxxxx", b"yxxxxxxxxxxxxxxx"));
}

#[test]
fn url_decode_passes_through_plain_chars() {
    assert_eq!(url_decode("abc123"), "abc123");
}

#[test]
fn url_decode_handles_plus_and_percent() {
    assert_eq!(url_decode("a+b"), "a b");
    assert_eq!(url_decode("a%20b"), "a b");
    assert_eq!(url_decode("%2F"), "/");
}

#[test]
fn url_decode_keeps_malformed_percent_literal() {
    assert_eq!(url_decode("%ZZ"), "%ZZ");
    assert_eq!(url_decode("%2"), "%2");
    assert_eq!(url_decode("%"), "%");
}

#[test]
fn url_decode_gives_one_character_per_byte() {
    assert_eq!(url_decode("%C3%A9"), "\u{c3}\u{a9}");
    assert_eq!(url_decode("é"), "\u{c3}\u{a9}");
    assert_eq!(url_decode("%fF"), "\u{ff}");
}

#[test]
fn to_hex_pads_each_byte() {
    assert_eq!(to_hex(&[0x00, 0x0f, 0xff]), "000fff");
}

#[test]
fn to_hex_tells_bytes_apart() {
    let mut seen: Vec<String> = Vec::new();
    for b in 0..=255u8 {
        let h = to_hex(&[b]);
        assert_eq!(h, format!("{b:02x}"));
        assert!(!seen.contains(&h));
        seen.push(h);
    }
}

// ─── The callback ──────────────────────────────────────────────────────────

const PORT: u16 = 45123;

/// What a request leads to, and what the browser is answered.
fn drive_callback(req: &str, expected_state: &str) -> (Result<String, Failure>, String) {
    let request = req.replace("{PORT}", &PORT.to_string());
    let (answer, result) = handle_callback(request.as_bytes(), expected_state, PORT);
    let shown = match answer {
        Some(a) => response(a),
        None => String::new(),
    };
    (result, shown)
}

#[test]
fn callback_happy_path_returns_key_and_serves_200() {
    let state = "a".repeat(64);
    let req = format!(
        "GET /callback?state={state}&key=secret-api-key HTTP/1.1\r\nHost: 127.0.0.1:{{PORT}}\r\n\r\n"
    );
    let (result, response) = drive_callback(&req, &state);
    assert_eq!(result.unwrap(), "secret-api-key");
    assert!(
        response.starts_with("HTTP/1.1 200 OK"),
        "expected 200 OK, got: {response}"
    );
}

#[test]
fn callback_localhost_host_header_is_accepted() {
    let state = "b".repeat(64);
    let req = format!(
        "GET /callback?state={state}&key=k HTTP/1.1\r\nHost: localhost:{{PORT}}\r\n\r\n"
    );
    let (result, response) = drive_callback(&req, &state);
    assert_eq!(result.unwrap(), "k");
    assert!(response.starts_with("HTTP/1.1 200 OK"));
}

#[test]
fn callback_bad_state_returns_400_and_err() {
    let expected = "c".repeat(64);
    let req =
        "GET /callback?state=evil&key=k HTTP/1.1\r\nHost: 127.0.0.1:{PORT}\r\n\r\n".to_string();
    let (result, response) = drive_callback(&req, &expected);
    assert!(result.is_err(), "expected Err on state mismatch");
    assert!(
        response.starts_with("HTTP/1.1 400 Bad Request"),
        "expected 400, got: {response}"
    );
}

#[test]
fn callback_bad_host_header_returns_400_and_err() {
    let state = "d".repeat(64);
    let req =
        format!("GET /callback?state={state}&key=k HTTP/1.1\r\nHost: evil.example.com\r\n\r\n");
    let (result, response) = drive_callback(&req, &state);
    assert!(result.is_err(), "expected Err on bad Host header");
    assert!(
        response.starts_with("HTTP/1.1 400 Bad Request"),
        "expected 400, got: {response}"
    );
}

#[test]
fn callback_unknown_path_returns_404_and_err() {
    let state = "e".repeat(64);
    let req = format!(
        "GET /not-callback?state={state}&key=k HTTP/1.1\r\nHost: 127.0.0.1:{{PORT}}\r\n\r\n"
    );
    let (result, response) = drive_callback(&req, &state);
    assert!(result.is_err(), "expected Err on unknown path");
    assert!(
        response.starts_with("HTTP/1.1 404 Not Found"),
        "expected 404, got: {response}"
    );
}

#[test]
fn callback_wrong_method_returns_405_and_err() {
    let state = "f".repeat(64);
    let req = format!(
        "POST /callback?state={state}&key=k HTTP/1.1\r\nHost: 127.0.0.1:{{PORT}}\r\nContent-Length: 0\r\n\r\n"
    );
    let (result, response) = drive_callback(&req, &state);
    assert!(result.is_err(), "expected Err on wrong method");
    assert!(
        response.starts_with("HTTP/1.1 405 Method Not Allowed"),
        "expected 405, got: {response}"
    );
}

#[test]
fn callback_key_is_decoded() {
    let req = format!("GET /callback?key=a%2Fb+c&state=s HTTP/1.1\r\nHost: localhost:{PORT}\r\n\r\n");
    let (answer, result) = judge_callback(&req, "s", PORT);
    assert!(matches!(answer, Some(Answer::SignedIn)));
    assert_eq!(result.unwrap(), "a/b c");
}

#[test]
fn callback_with_bytes_that_are_no_text_is_refused() {
    let (_, result) = handle_callback(b"\xff\xfe /callback", "s", PORT);
    assert!(result.is_err());
}

#[test]
fn request_is_read_up_to_its_end_or_the_cap() {
    assert!(matches!(read_request(b"GET / HTTP/1.1\r\nHost: x\r\n"), ReadStep::More));
    assert!(matches!(read_request(b"GET / HTTP/1.1\r\nHost: x\r\n\r\n"), ReadStep::Complete));
    let long = vec![b'a'; REQUEST_BYTE_CAP + 1];
    assert!(matches!(read_request(&long), ReadStep::TooLong));
    assert!(too_long_error().to_text().contains("size limit"));
}
