//! `partiri auth`: store the API key, by flag, from standard input, by paste,
//! or through the browser sign-in with its callback on localhost.
use vstd::prelude::*;
use vstd::string::*;

use crate::error::text_error;
use crate::error::{Failure, FailureView};
use crate::output::{message_only, report, Ctx, Report};
use crate::service::create::strip_end;
use crate::random::random_bytes;
use crate::text::{
    ascii_lower, byte_len, cat2, cat3, cat4, cat5, cat6, chars_of, decimal, decimal_of, find_char,
    find_from, hex_digit, is_control, is_ctrl, is_white, is_whitespace, len_in_bytes, opt_view,
    str_eq, string_of, to_ascii_lowercase, trim, trim_start_of, trimmed,
};

verus! {

/// The flags of `auth set-apikey`.
#[derive(Debug)]
pub struct AuthArgs {
    pub key: Option<String>,
    pub key_stdin: bool,
    pub force: bool,
}

// ─── The key ───────────────────────────────────────────────────────────────

/// The key in the text of the credentials file.
pub open spec fn key_in(contents: Seq<char>) -> Option<Seq<char>> {
    if trimmed(contents).len() == 0 {
        None
    } else {
        Some(trimmed(contents))
    }
}

/// The stored key, given the text of the credentials file where it could be
/// read.
pub fn read_key(contents: Option<String>) -> (r: Option<String>)
    ensures
        opt_view(r) == match contents {
            Some(s) => key_in(s@),
            None => None,
        },
{
    match contents {
        Some(s) => {
            let t = trim(s.as_str());
            if t.is_empty() {
                None
            } else {
                Some(t.to_owned())
            }
        },
        None => None,
    }
}

/// Where the key comes from.
#[derive(Debug)]
pub enum KeySource {
    /// This key, from its flag.
    Flag(String),
    /// Standard input.
    Stdin,
    /// The user pastes it.
    Prompt,
}

/// Where `auth set-apikey` takes the key from.
pub fn run(args: AuthArgs, has_config_dir: bool, ctx: Ctx) -> (r: Result<KeySource, Failure>)
    ensures
        !has_config_dir ==> r is Err && r->Err_0@ == FailureView::Text(
            "Could not determine config directory. Set $HOME or $XDG_CONFIG_HOME."@,
        ),
        has_config_dir ==> match args.key {
            Some(k) => r == Ok::<KeySource, Failure>(KeySource::Flag(k)),
            None => if args.key_stdin {
                r is Ok && r->Ok_0 is Stdin
            } else if ctx.no_input {
                r is Err && r->Err_0@ == FailureView::Text(
                    "auth requires --key, --key-stdin, or an interactive terminal. Pass --key <KEY> or --key-stdin."@,
                )
            } else {
                r is Ok && r->Ok_0 is Prompt
            },
        },
{
    if !has_config_dir {
        return Err(
            text_error("Could not determine config directory. Set $HOME or $XDG_CONFIG_HOME."),
        );
    }
    match args.key {
        Some(k) => Ok(KeySource::Flag(k)),
        None => {
            if args.key_stdin {
                Ok(KeySource::Stdin)
            } else if ctx.no_input {
                Err(
                    text_error(
                        "auth requires --key, --key-stdin, or an interactive terminal. Pass --key <KEY> or --key-stdin.",
                    ),
                )
            } else {
                Ok(KeySource::Prompt)
            }
        },
    }
}

pub open spec fn has_control(s: Seq<char>) -> bool {
    exists|i: int| 0 <= i < s.len() && is_ctrl(#[trigger] s[i])
}

/// What keeps a key from being stored: the key itself, or a key that is there
/// already.
pub open spec fn key_problem(raw: Seq<char>, force: bool, has_key: bool) -> Option<Seq<char>> {
    let key = trimmed(raw);
    if key.len() == 0 {
        Some("API key cannot be empty."@)
    } else if key.len() < 64 {
        Some("Api Key does not look right. Check that you pasted the full key."@)
    } else if has_control(key) {
        Some("API key contains control characters; check the value you provided."@)
    } else if !force && has_key {
        Some(
            "An API key is already configured. Pass --force to overwrite, or run 'partiri auth login' for the browser flow."@,
        )
    } else {
        None
    }
}

/// The key to write: what was given, trimmed and checked. A key that is there
/// already is only replaced by force, which a confirmation at the prompt counts
/// as.
pub fn write_validated_key(raw: &str, force: bool, has_key: bool) -> (r: Result<String, Failure>)
    ensures
        r is Ok <==> key_problem(raw@, force, has_key) is None,
        r is Ok ==> r->Ok_0@ == trimmed(raw@),
        r is Err ==> r->Err_0@ == FailureView::Text(key_problem(raw@, force, has_key)->0),
{
    let key = trim(raw);
    if key.is_empty() {
        return Err(text_error("API key cannot be empty."));
    }
    if key.unicode_len() < 64 {
        return Err(
            text_error("Api Key does not look right. Check that you pasted the full key."),
        );
    }
    let cs = chars_of(key);
    for i in 0..cs.len()
        invariant
            cs@ == key@,
            key@ == trimmed(raw@),
            key@.len() > 0,
            key@.len() >= 64,
            forall|k: int| 0 <= k < i ==> !is_ctrl(#[trigger] cs@[k]),
    {
        if is_control(cs[i]) {
            assert(has_control(key@)) by {
                assert(is_ctrl(key@[i as int]));
            }
            return Err(
                text_error("API key contains control characters; check the value you provided."),
            );
        }
    }
    if !force && has_key {
        return Err(
            text_error(
                "An API key is already configured. Pass --force to overwrite, or run 'partiri auth login' for the browser flow.",
            ),
        );
    }
    Ok(key.to_owned())
}

/// How the write of the key went.
#[derive(Debug)]
pub enum KeyWrite {
    /// It failed: the reason.
    Failed(String),
    /// It went through; the text that the file holds now.
    Written(String),
}

/// The report on a key that was written to `path`, once it reads back.
pub fn key_written(key: &str, path: &str, write: KeyWrite) -> (r: Result<Report, Failure>)
    ensures
        match write {
            KeyWrite::Failed(why) => r is Err && r->Err_0@ == FailureView::Text(
                "Failed to write credentials to "@ + path@ + ": "@ + why@,
            ),
            KeyWrite::Written(now) => if trimmed(now@) == key@ {
                r is Ok && r->Ok_0@ == message_only("Key saved to "@ + path@ + "."@)
            } else {
                r is Err && r->Err_0@ == FailureView::Text(
                    "Key file was written but content does not match. Check file permissions."@,
                )
            },
        },
{
    match write {
        KeyWrite::Failed(why) => Err(
            Failure::Text(cat4("Failed to write credentials to ", path, ": ", why.as_str())),
        ),
        KeyWrite::Written(now) => {
            if str_eq(trim(now.as_str()), key) {
                Ok(report(cat3("Key saved to ", path, ".")))
            } else {
                Err(
                    text_error(
                        "Key file was written but content does not match. Check file permissions.",
                    ),
                )
            }
        },
    }
}

/// A key with its middle left out: the first and the last four characters, or
/// only stars where there are not more than four.
pub open spec fn masked(key: Seq<char>) -> Seq<char> {
    if key.len() <= 4 {
        "****"@
    } else {
        key.take(4) + "…"@ + key.skip(key.len() - 4)
    }
}

pub fn mask_key(key: &str) -> (r: String)
    ensures
        r@ == masked(key@),
{
    let cs = chars_of(key);
    let n: usize = cs.len();
    if n <= 4 {
        return "****".to_owned();
    }
    let head = string_of(&cs, 0, 4);
    let tail = string_of(&cs, n - 4, n);
    assert(head@ =~= key@.take(4));
    assert(tail@ =~= key@.skip(n - 4));
    cat3(head.as_str(), "…", tail.as_str())
}

// ─── Browser sign-in ───────────────────────────────────────────────────────

/// How long the browser may take, in seconds.
pub const LOGIN_TIMEOUT_SECS: u64 = 60;

/// How many bytes a callback request may have.
pub const REQUEST_BYTE_CAP: usize = 8192;

/// Whether `auth login` can run: it needs a terminal.
pub fn run_login(ctx: Ctx) -> (r: Result<(), Failure>)
    ensures
        r is Ok <==> !ctx.json && !ctx.no_input,
        ctx.json ==> r->Err_0@ == FailureView::Text(
            "`auth login` is interactive and cannot run with --json. Use `partiri auth set-apikey --key <KEY>` instead."@,
        ),
        !ctx.json && ctx.no_input ==> r->Err_0@ == FailureView::Text(
            "`auth login` requires a TTY. Use `partiri auth set-apikey --key <KEY>` (or --key-stdin) for non-interactive setups."@,
        ),
{
    if ctx.json {
        return Err(
            text_error(
                "`auth login` is interactive and cannot run with --json. Use `partiri auth set-apikey --key <KEY>` instead.",
            ),
        );
    }
    if ctx.no_input {
        return Err(
            text_error(
                "`auth login` requires a TTY. Use `partiri auth set-apikey --key <KEY>` (or --key-stdin) for non-interactive setups.",
            ),
        );
    }
    Ok(())
}

/// The web application used when none is configured.
pub const DEFAULT_WEB_URL: &'static str = "https://partiri.cloud";

/// The page that the browser opens.
pub open spec fn login_url_of(web: Option<String>, state: Seq<char>, port: u16) -> Seq<char> {
    let base = match web {
        Some(u) => u@,
        None => DEFAULT_WEB_URL@,
    };
    strip_end(base, '/') + "/cli-auth?state="@ + state + "&port="@ + decimal_of(port as nat)
}

pub fn login_url(web: Option<String>, state: &str, port: u16) -> (r: String)
    ensures
        r@ == login_url_of(web, state@, port),
{
    let base = match web {
        Some(u) => u,
        None => DEFAULT_WEB_URL.to_owned(),
    };
    let cs = chars_of(base.as_str());
    let mut end: usize = cs.len();
    assert(base@.subrange(0, base@.len() as int) =~= base@);
    while end > 0 && cs[end - 1] == '/'
        invariant
            cs@ == base@,
            end <= cs@.len(),
            strip_end(base@, '/') == strip_end(base@.subrange(0, end as int), '/'),
        decreases end,
    {
        assert(base@.subrange(0, end as int).drop_last() =~= base@.subrange(0, end - 1));
        end -= 1;
    }
    let kept = string_of(&cs, 0, end);
    let n = decimal(port as u64);
    cat5(kept.as_str(), "/cli-auth?state=", state, "&port=", n.as_str())
}

/// The error for a browser that did not call back.
pub fn timeout_error(secs: u64) -> (r: Failure)
    ensures
        r@ == FailureView::Text(
            "Timed out after "@ + decimal_of(secs as nat)
                + " seconds waiting for browser callback. Run `partiri auth login` again, or use `partiri auth set-apikey` to paste the key manually."@,
        ),
{
    let n = decimal(secs);
    Failure::Text(
        cat3(
            "Timed out after ",
            n.as_str(),
            " seconds waiting for browser callback. Run `partiri auth login` again, or use `partiri auth set-apikey` to paste the key manually.",
        ),
    )
}

// ─── The state token ───────────────────────────────────────────────────────

/// Two hexadecimal digits per byte.
pub open spec fn hex_of(bytes: Seq<u8>) -> Seq<char>
    decreases bytes.len(),
{
    if bytes.len() == 0 {
        seq![]
    } else {
        hex_of(bytes.drop_last()).push(hex_digit((bytes.last() / 16) as nat)).push(
            hex_digit((bytes.last() % 16) as nat),
        )
    }
}

fn hex_char(n: u8) -> (r: char)
    requires
        n < 16,
    ensures
        r == hex_digit(n as nat),
{
    if n < 10 {
        (48 + n) as char
    } else {
        (87 + n) as char
    }
}

pub fn to_hex(bytes: &[u8]) -> (r: String)
    ensures
        r@ == hex_of(bytes@),
{
    let mut out = String::new();
    assert(out@ =~= hex_of(bytes@.take(0)));
    for i in 0..bytes.len()
        invariant
            out@ == hex_of(bytes@.take(i as int)),
    {
        let b: u8 = bytes[i];
        assert(bytes@.take(i + 1).drop_last() =~= bytes@.take(i as int));
        out.push(hex_char(b / 16));
        out.push(hex_char(b % 16));
    }
    assert(bytes@.take(bytes@.len() as int) =~= bytes@);
    out
}

/// A state token: 64 hexadecimal digits of random bytes.
pub fn generate_state() -> (r: Result<String, Failure>)
    ensures
        r is Ok ==> exists|bytes: Seq<u8>| bytes.len() == 32 && r->Ok_0@ == hex_of(bytes),
        r is Err ==> exists|why: Seq<char>|
            r->Err_0@ == FailureView::Text("Failed to generate random state token: "@ + why),
{
    match random_bytes(32) {
        Ok(bytes) => {
            let token = to_hex(bytes.as_slice());
            assert(bytes@.len() == 32 && token@ == hex_of(bytes@));
            Ok(token)
        },
        Err(why) => Err(
            Failure::Text(cat2("Failed to generate random state token: ", why.as_str())),
        ),
    }
}

/// Compare two byte strings in a time that depends on their lengths alone.
pub fn constant_time_eq(a: &[u8], b: &[u8]) -> (r: bool)
    ensures
        r == (a@ == b@),
{
    if a.len() != b.len() {
        return false;
    }
    let mut diff: u8 = 0;
    assert(a@.take(0) =~= b@.take(0));
    for i in 0..a.len()
        invariant
            a@.len() == b@.len(),
            diff == 0 <==> a@.take(i as int) == b@.take(i as int),
    {
        let x: u8 = a[i];
        let y: u8 = b[i];
        assert((diff | (x ^ y)) == 0 <==> diff == 0 && x == y) by (bit_vector);
        proof {
            let p = a@.take(i as int);
            let q = b@.take(i as int);
            let p1 = a@.take(i + 1);
            let q1 = b@.take(i + 1);
            assert(p1 =~= p.push(x));
            assert(q1 =~= q.push(y));
            if p1 == q1 {
                assert(p =~= q) by {
                    assert(p =~= p1.drop_last());
                    assert(q =~= q1.drop_last());
                }
                assert(p1.last() == q1.last());
            }
        }
        diff = diff | (x ^ y);
    }
    assert(a@.take(a@.len() as int) =~= a@);
    assert(b@.take(b@.len() as int) =~= b@);
    diff == 0
}

// ─── The callback request ──────────────────────────────────────────────────

pub open spec fn hex_value(b: u8) -> Option<u8> {
    if 48 <= b <= 57 {
        Some((b - 48) as u8)
    } else if 97 <= b <= 102 {
        Some((b - 87) as u8)
    } else if 65 <= b <= 70 {
        Some((b - 55) as u8)
    } else {
        None
    }
}

fn hex_digit_value(b: u8) -> (r: Option<u8>)
    ensures
        r == hex_value(b),
        r is Some ==> r->0 < 16,
{
    if 48 <= b && b <= 57 {
        Some(b - 48)
    } else if 97 <= b && b <= 102 {
        Some(b - 87)
    } else if 65 <= b && b <= 70 {
        Some(b - 55)
    } else {
        None
    }
}

/// The text that percent-encoded bytes stand for: `+` is a space, `%XX` is the
/// character with that code, and every other byte is the character with its
/// value. A `%` without two digits behind it stays.
pub open spec fn url_decoded(s: Seq<u8>, i: int) -> Seq<char>
    decreases s.len() - i,
{
    if i < 0 || i >= s.len() {
        seq![]
    } else if s[i] == 43 {
        seq![' '] + url_decoded(s, i + 1)
    } else if s[i] == 37 && i + 2 < s.len() {
        match (hex_value(s[i + 1]), hex_value(s[i + 2])) {
            (Some(hi), Some(lo)) => seq![((hi * 16 + lo) as u8) as char] + url_decoded(s, i + 3),
            _ => seq!['%'] + url_decoded(s, i + 1),
        }
    } else {
        seq![s[i] as char] + url_decoded(s, i + 1)
    }
}

pub fn url_decode(s: &str) -> (r: String)
    ensures
        r@ == url_decoded(s.spec_bytes(), 0),
{
    let bytes = s.as_bytes();
    let ghost all = s.spec_bytes();
    let mut out = String::new();
    let n: usize = bytes.len();
    let mut i: usize = 0;
    assert(out@ + url_decoded(all, 0) =~= url_decoded(all, 0));
    while i < n
        invariant
            bytes@ == all,
            n == all.len(),
            i <= n,
            out@ + url_decoded(all, i as int) == url_decoded(all, 0),
        decreases n - i,
    {
        let b: u8 = bytes[i];
        let ghost before = out@;
        let ghost rest = url_decoded(all, i as int);
        if b == 43 {
            out.push(' ');
            i += 1;
            assert(before + rest =~= out@ + url_decoded(all, i as int));
        } else if b == 37 && n - i > 2 {
            match (hex_digit_value(bytes[i + 1]), hex_digit_value(bytes[i + 2])) {
                (Some(hi), Some(lo)) => {
                    out.push((hi * 16 + lo) as char);
                    i += 3;
                },
                _ => {
                    out.push('%');
                    i += 1;
                },
            }
            assert(before + rest =~= out@ + url_decoded(all, i as int));
        } else {
            out.push(b as char);
            i += 1;
            assert(before + rest =~= out@ + url_decoded(all, i as int));
        }
    }
    assert(out@ + url_decoded(all, n as int) =~= out@);
    out
}

/// The first place at or after `from` where a carriage return and a newline
/// stand, or the length.
pub open spec fn crlf_from(s: Seq<char>, from: int) -> int
    decreases s.len() - from,
{
    if from + 1 >= s.len() {
        s.len() as int
    } else if s[from] == '\r' && s[from + 1] == '\n' {
        from
    } else {
        crlf_from(s, from + 1)
    }
}

/// The parts of a request, which a carriage return and a newline divide.
pub open spec fn crlf_parts(s: Seq<char>, from: int) -> Seq<Seq<char>>
    decreases s.len() - from,
{
    let k = crlf_from(s, from);
    if from < 0 || from > s.len() {
        seq![]
    } else if k < from || k + 1 >= s.len() {
        seq![s.skip(from)]
    } else {
        seq![s.subrange(from, k)] + crlf_parts(s, k + 2)
    }
}

proof fn crlf_range(s: Seq<char>, from: int)
    requires
        0 <= from <= s.len(),
    ensures
        from <= crlf_from(s, from) <= s.len(),
        crlf_from(s, from) < s.len() ==> crlf_from(s, from) + 1 < s.len(),
    decreases s.len() - from,
{
    if from + 1 < s.len() && !(s[from] == '\r' && s[from + 1] == '\n') {
        crlf_range(s, from + 1);
    }
}

proof fn crlf_parts_some(s: Seq<char>, from: int)
    requires
        0 <= from <= s.len(),
    ensures
        crlf_parts(s, from).len() > 0,
{
    crlf_range(s, from);
}

fn split_crlf(text: &str) -> (r: Vec<String>)
    ensures
        crate::text::views(r@) == crlf_parts(text@, 0),
        r@.len() > 0,
{
    let cs = chars_of(text);
    let n: usize = cs.len();
    let mut out: Vec<String> = Vec::new();
    let mut from: usize = 0;
    proof {
        assert(crate::text::views(out@) + crlf_parts(text@, 0) =~= crlf_parts(text@, 0));
        crlf_parts_some(text@, 0);
    }
    loop
        invariant
            cs@ == text@,
            n == cs@.len(),
            from <= n,
            crate::text::views(out@) + crlf_parts(text@, from as int) == crlf_parts(text@, 0),
            crlf_parts(text@, 0).len() > 0,
        decreases n - from,
    {
        let mut k: usize = from;
        while n - k > 1 && !(cs[k] == '\r' && cs[k + 1] == '\n')
            invariant
                cs@ == text@,
                n == cs@.len(),
                from <= k <= n,
                crlf_from(text@, from as int) == crlf_from(text@, k as int),
            decreases n - k,
        {
            k += 1;
        }
        let ghost before = crate::text::views(out@);
        if n - k <= 1 {
            let part = string_of(&cs, from, n);
            proof {
                assert(part@ =~= text@.skip(from as int));
                crlf_range(text@, from as int);
            }
            out.push(part);
            assert(crate::text::views(out@) =~= before + seq![part@]);
            return out;
        }
        let part = string_of(&cs, from, k);
        out.push(part);
        proof {
            crlf_range(text@, from as int);
            let now = crate::text::views(out@);
            assert(now =~= before.push(part@));
            assert(now + crlf_parts(text@, k + 2) =~= before + (seq![part@] + crlf_parts(
                text@,
                k + 2,
            )));
        }
        from = k + 2;
    }
}

/// The first word of a text, which whitespace ends.
pub open spec fn first_word(s: Seq<char>) -> Seq<char> {
    let t = trim_start_of(s);
    t.take(word_end(t, 0))
}

/// What follows the first word.
pub open spec fn after_word(s: Seq<char>) -> Seq<char> {
    let t = trim_start_of(s);
    t.skip(word_end(t, 0))
}

pub open spec fn word_end(s: Seq<char>, from: int) -> int
    decreases s.len() - from,
{
    if from >= s.len() {
        s.len() as int
    } else if is_white(s[from]) {
        from
    } else {
        word_end(s, from + 1)
    }
}

/// The first word of `cs[from..]`, and where it ends.
pub fn take_word(cs: &Vec<char>, from: usize) -> (r: (String, usize))
    requires
        from <= cs@.len(),
    ensures
        r.0@ == first_word(cs@.skip(from as int)),
        from <= r.1 <= cs@.len(),
        cs@.skip(r.1 as int) == after_word(cs@.skip(from as int)),
{
    let n: usize = cs.len();
    let mut start: usize = from;
    let ghost all = cs@.skip(from as int);
    while start < n && is_whitespace(cs[start])
        invariant
            n == cs@.len(),
            from <= start <= n,
            all == cs@.skip(from as int),
            trim_start_of(all) == trim_start_of(cs@.skip(start as int)),
        decreases n - start,
    {
        assert(cs@.skip(start as int).drop_first() =~= cs@.skip(start + 1));
        start += 1;
    }
    let ghost t = cs@.skip(start as int);
    let mut end: usize = start;
    while end < n && !is_whitespace(cs[end])
        invariant
            n == cs@.len(),
            start <= end <= n,
            t == cs@.skip(start as int),
            word_end(t, 0) == word_end(t, end - start),
        decreases n - end,
    {
        assert(t[end - start] == cs@[end as int]);
        end += 1;
    }
    proof {
        assert(t == trim_start_of(all));
        if end < n {
            assert(t[end - start] == cs@[end as int]);
        }
        assert(word_end(t, 0) == end - start);
        assert(cs@.subrange(start as int, end as int) =~= t.take(end - start));
        assert(cs@.skip(end as int) =~= t.skip(end - start));
    }
    (string_of(cs, start, end), end)
}

/// Whether the first `Host` header of the request names the listener. The
/// headers end at the first empty line.
pub open spec fn host_matches(headers: Seq<Seq<char>>, i: int, port: u16) -> bool
    decreases headers.len() - i,
{
    if i < 0 || i >= headers.len() {
        false
    } else {
        let line = headers[i];
        let colon = find_from(line, ':', 0);
        if line.len() == 0 {
            false
        } else if colon < line.len() && ascii_lower(line.take(colon)) == "host"@ {
            let v = trimmed(line.skip(colon + 1));
            v == "127.0.0.1:"@ + decimal_of(port as nat) || v == "localhost:"@ + decimal_of(
                port as nat,
            )
        } else {
            host_matches(headers, i + 1, port)
        }
    }
}

fn host_ok(parts: &Vec<String>, port: u16) -> (r: bool)
    ensures
        r == host_matches(crate::text::views(parts@), 1, port),
{
    let n = decimal(port as u64);
    let by_ip = cat2("127.0.0.1:", n.as_str());
    let by_name = cat2("localhost:", n.as_str());
    let ghost headers = crate::text::views(parts@);
    let mut i: usize = 1;
    while i < parts.len()
        invariant
            1 <= i,
            headers == crate::text::views(parts@),
            by_ip@ == "127.0.0.1:"@ + decimal_of(port as nat),
            by_name@ == "localhost:"@ + decimal_of(port as nat),
            host_matches(headers, 1, port) == host_matches(headers, i as int, port),
        decreases parts@.len() - i,
    {
        let line = parts[i].as_str();
        assert(headers[i as int] == line@);
        if line.is_empty() {
            return false;
        }
        let cs = chars_of(line);
        let colon: usize = find_char(&cs, ':', 0);
        if colon < cs.len() {
            let name = string_of(&cs, 0, colon);
            assert(name@ =~= line@.take(colon as int));
            if str_eq(to_ascii_lowercase(name.as_str()).as_str(), "host") {
                let value = string_of(&cs, colon + 1, cs.len());
                assert(value@ =~= line@.skip(colon + 1));
                let v = trim(value.as_str());
                return str_eq(v, by_ip.as_str()) || str_eq(v, by_name.as_str());
            }
        }
        i += 1;
    }
    false
}

/// The parts of a text between the separators.
pub open spec fn split_at_char(s: Seq<char>, c: char) -> Seq<Seq<char>>
    decreases s.len(),
{
    let k = find_from(s, c, 0);
    if k < 0 || k >= s.len() {
        seq![s]
    } else {
        seq![s.take(k)] + split_at_char(s.skip(k + 1), c)
    }
}

/// The value of the last parameter named `key` in the first `n` pairs.
pub open spec fn last_param(pairs: Seq<Seq<char>>, key: Seq<char>, n: int) -> Option<Seq<char>>
    decreases n,
{
    if n <= 0 || n > pairs.len() {
        None
    } else {
        let pair = pairs[n - 1];
        let eq = find_from(pair, '=', 0);
        if eq < pair.len() && pair.take(eq) == key {
            Some(url_decoded(vstd::utf8::encode_utf8(pair.skip(eq + 1)), 0))
        } else {
            last_param(pairs, key, n - 1)
        }
    }
}

/// The value of a query parameter; the last where it occurs more than once.
pub open spec fn query_param(query: Seq<char>, key: Seq<char>) -> Option<Seq<char>> {
    let pairs = split_at_char(query, '&');
    last_param(pairs, key, pairs.len() as int)
}

fn split_pairs(query: &str) -> (r: Vec<String>)
    ensures
        crate::text::views(r@) == split_at_char(query@, '&'),
{
    let cs = chars_of(query);
    let n: usize = cs.len();
    let mut out: Vec<String> = Vec::new();
    let mut from: usize = 0;
    proof {
        assert(query@.skip(0) =~= query@);
        assert(crate::text::views(out@) + split_at_char(query@, '&') =~= split_at_char(
            query@,
            '&',
        ));
    }
    loop
        invariant
            cs@ == query@,
            n == cs@.len(),
            from <= n,
            crate::text::views(out@) + split_at_char(query@.skip(from as int), '&')
                == split_at_char(query@, '&'),
        decreases n - from,
    {
        let k: usize = find_char(&cs, '&', from);
        let ghost rest = query@.skip(from as int);
        let ghost before = crate::text::views(out@);
        proof {
            find_in_suffix(query@, '&', from as int, 0);
        }
        let part = string_of(&cs, from, k);
        out.push(part);
        assert(crate::text::views(out@) =~= before.push(part@));
        if k == n {
            assert(part@ =~= rest);
            assert(crate::text::views(out@) =~= before + seq![rest]);
            return out;
        }
        proof {
            assert(part@ =~= rest.take(k - from));
            assert(rest.skip(k - from + 1) =~= query@.skip(k + 1));
            assert(before.push(part@) + split_at_char(query@.skip(k + 1), '&') =~= before + (seq![
                part@,
            ] + split_at_char(query@.skip(k + 1), '&')));
        }
        from = k + 1;
    }
}

proof fn find_in_suffix(s: Seq<char>, c: char, from: int, at: int)
    requires
        0 <= from <= s.len(),
        0 <= at <= s.len() - from,
    ensures
        find_from(s.skip(from), c, at) == find_from(s, c, from + at) - from,
    decreases s.len() - from - at,
{
    if at < s.len() - from {
        if s.skip(from)[at] != c {
            find_in_suffix(s, c, from, at + 1);
        }
    }
}

fn find_param(pairs: &Vec<String>, key: &str) -> (r: Option<String>)
    ensures
        opt_view(r) == last_param(crate::text::views(pairs@), key@, pairs@.len() as int),
{
    let ghost all = crate::text::views(pairs@);
    let mut n: usize = pairs.len();
    while n > 0
        invariant
            n <= pairs@.len(),
            all == crate::text::views(pairs@),
            last_param(all, key@, pairs@.len() as int) == last_param(all, key@, n as int),
        decreases n,
    {
        let pair = pairs[n - 1].as_str();
        assert(all[n - 1] == pair@);
        let cs = chars_of(pair);
        let eq: usize = find_char(&cs, '=', 0);
        if eq < cs.len() {
            let name = string_of(&cs, 0, eq);
            assert(name@ =~= pair@.take(eq as int));
            if str_eq(name.as_str(), key) {
                let value = string_of(&cs, eq + 1, cs.len());
                assert(value@ =~= pair@.skip(eq + 1));
                return Some(url_decode(value.as_str()));
            }
        }
        n -= 1;
    }
    None
}

/// What the browser is answered.
#[derive(Debug, Clone, Copy, PartialEq, Eq, Structural)]
pub enum Answer {
    /// 405: the request is no `GET`.
    WrongMethod,
    /// 400: the request is not for the listener.
    WrongHost,
    /// 404: the request is not for the callback.
    WrongPath,
    /// 400: the state is not the one that was handed out.
    WrongState,
    /// 200.
    SignedIn,
}

/// The path of a request target: what stands before the first question mark.
pub open spec fn target_path(target: Seq<char>) -> Seq<char> {
    target.take(find_from(target, '?', 0))
}

/// The query of a request target: what stands behind the first question mark.
pub open spec fn target_query(target: Seq<char>) -> Seq<char> {
    if find_from(target, '?', 0) < target.len() {
        target.skip(find_from(target, '?', 0) + 1)
    } else {
        ""@
    }
}

/// What a callback request comes to: the answer (none where a parameter is
/// missing), and the key or the error.
pub open spec fn callback_of(text: Seq<char>, state: Seq<char>, port: u16) -> (
    Option<Answer>,
    Result<Seq<char>, Seq<char>>,
) {
    let parts = crlf_parts(text, 0);
    let method = first_word(parts[0]);
    let target = first_word(after_word(parts[0]));
    let path = target_path(target);
    let got = query_param(target_query(target), "state"@);
    let key = query_param(target_query(target), "key"@);
    if method != "GET"@ {
        (Some(Answer::WrongMethod), Err("Browser callback used the wrong HTTP method."@))
    } else if !host_matches(parts, 1, port) {
        (Some(Answer::WrongHost), Err("Browser callback had an invalid Host header."@))
    } else if path != "/callback"@ {
        (
            Some(Answer::WrongPath),
            Err("Browser callback hit unexpected path '"@ + path + "'."@),
        )
    } else if got is None {
        (None, Err("Callback missing `state` parameter."@))
    } else if key is None {
        (None, Err("Callback missing `key` parameter."@))
    } else if got->0 != state {
        (
            Some(Answer::WrongState),
            Err(
                "State mismatch on browser callback — possible CSRF attempt or stale link. Run `partiri auth login` again."@,
            ),
        )
    } else {
        (Some(Answer::SignedIn), Ok(key->0))
    }
}

/// Texts are the same exactly where their UTF-8 forms are.
proof fn same_bytes_same_text(a: Seq<char>, b: Seq<char>)
    ensures
        vstd::utf8::encode_utf8(a) == vstd::utf8::encode_utf8(b) <==> a == b,
{
    vstd::utf8::encode_utf8_decode_utf8(a);
    vstd::utf8::encode_utf8_decode_utf8(b);
}

/// Judge a callback request, given its text: who is answered what, and the key
/// that the browser brings or the error.
pub fn judge_callback(text: &str, expected_state: &str, port: u16) -> (r: (
    Option<Answer>,
    Result<String, Failure>,
))
    ensures
        r.0 == callback_of(text@, expected_state@, port).0,
        match callback_of(text@, expected_state@, port).1 {
            Ok(key) => r.1 is Ok && r.1->Ok_0@ == key,
            Err(e) => r.1 is Err && r.1->Err_0@ == FailureView::Text(e),
        },
{
    let parts = split_crlf(text);
    assert(crate::text::views(parts@)[0] == parts@[0]@);
    let first = chars_of(parts[0].as_str());
    assert(first@.skip(0) =~= first@);
    let (method, end) = take_word(&first, 0);
    let (target, _) = take_word(&first, end);
    if !str_eq(method.as_str(), "GET") {
        return (
            Some(Answer::WrongMethod),
            Err(text_error("Browser callback used the wrong HTTP method.")),
        );
    }
    if !host_ok(&parts, port) {
        return (
            Some(Answer::WrongHost),
            Err(text_error("Browser callback had an invalid Host header.")),
        );
    }
    let cs = chars_of(target.as_str());
    let mark: usize = find_char(&cs, '?', 0);
    let path = string_of(&cs, 0, mark);
    let query = if mark < cs.len() {
        string_of(&cs, mark + 1, cs.len())
    } else {
        "".to_owned()
    };
    assert(path@ =~= target_path(target@));
    assert(query@ == target_query(target@)) by {
        if mark < cs@.len() {
            assert(query@ =~= target@.skip(mark + 1));
        }
    }
    if !str_eq(path.as_str(), "/callback") {
        return (
            Some(Answer::WrongPath),
            Err(
                Failure::Text(
                    cat3("Browser callback hit unexpected path '", path.as_str(), "'."),
                ),
            ),
        );
    }
    let pairs = split_pairs(query.as_str());
    assert(crate::text::views(pairs@).len() == pairs@.len());
    let state = match find_param(&pairs, "state") {
        Some(s) => s,
        None => {
            return (None, Err(text_error("Callback missing `state` parameter.")));
        },
    };
    let key = match find_param(&pairs, "key") {
        Some(k) => k,
        None => {
            return (None, Err(text_error("Callback missing `key` parameter.")));
        },
    };
    proof {
        same_bytes_same_text(state@, expected_state@);
    }
    if !constant_time_eq(state.as_str().as_bytes(), expected_state.as_bytes()) {
        return (
            Some(Answer::WrongState),
            Err(
                text_error(
                    "State mismatch on browser callback — possible CSRF attempt or stale link. Run `partiri auth login` again.",
                ),
            ),
        );
    }
    (Some(Answer::SignedIn), Ok(key))
}

/// The text of some bytes, as `String::from_utf8_lossy` reads them.
pub uninterp spec fn lossy_text(bytes: Seq<u8>) -> Seq<char>;

/// `String::from_utf8_lossy`: the text whose UTF-8 the bytes are, and where
/// they are no UTF-8, a text in which what is invalid is replaced. The text
/// depends on the bytes alone. How much of what is invalid each replacement
/// character stands for is not said.
#[verifier::external_body]
fn from_utf8_lossy(bytes: &[u8]) -> (r: String)
    ensures
        r@ == lossy_text(bytes@),
        forall|s: Seq<char>| bytes@ == #[trigger] vstd::utf8::encode_utf8(s) ==> r@ == s,
{
    String::from_utf8_lossy(bytes).into_owned()
}

/// Judge a callback request that was read from the browser; one in UTF-8 is
/// judged by its text.
pub fn handle_callback(raw: &[u8], expected_state: &str, port: u16) -> (r: (
    Option<Answer>,
    Result<String, Failure>,
))
    ensures
        r.0 == callback_of(lossy_text(raw@), expected_state@, port).0,
        match callback_of(lossy_text(raw@), expected_state@, port).1 {
            Ok(key) => r.1 is Ok && r.1->Ok_0@ == key,
            Err(e) => r.1 is Err && r.1->Err_0@ == FailureView::Text(e),
        },
        forall|s: Seq<char>|
            raw@ == #[trigger] vstd::utf8::encode_utf8(s) ==> lossy_text(raw@) == s,
{
    let text = from_utf8_lossy(raw);
    judge_callback(text.as_str(), expected_state, port)
}

/// Whether the bytes hold the end of the headers.
pub open spec fn has_header_end(buf: Seq<u8>) -> bool {
    exists|i: int|
        0 <= i && i + 4 <= buf.len() && #[trigger] buf[i] == 13 && buf[i + 1] == 10 && buf[i + 2]
            == 13 && buf[i + 3] == 10
}

/// How the reading of a request goes on.
#[derive(Debug, Clone, Copy, PartialEq, Eq, Structural)]
pub enum ReadStep {
    /// The request is all there.
    Complete,
    /// The request is too long.
    TooLong,
    /// Read on.
    More,
}

/// What to do once `buf` was read and there may be more. The end of the
/// headers counts before the size.
pub fn read_request(buf: &[u8]) -> (r: ReadStep)
    ensures
        r == (if has_header_end(buf@) {
            ReadStep::Complete
        } else if buf@.len() >= REQUEST_BYTE_CAP {
            ReadStep::TooLong
        } else {
            ReadStep::More
        }),
{
    let n: usize = buf.len();
    let mut i: usize = 0;
    while n - i >= 4
        invariant
            n == buf@.len(),
            i <= n,
            forall|k: int|
                0 <= k < i && k + 4 <= n ==> !(#[trigger] buf@[k] == 13 && buf@[k + 1] == 10
                    && buf@[k + 2] == 13 && buf@[k + 3] == 10),
        decreases n - i,
    {
        if buf[i] == 13 && buf[i + 1] == 10 && buf[i + 2] == 13 && buf[i + 3] == 10 {
            assert(buf@[i as int] == 13);
            return ReadStep::Complete;
        }
        i += 1;
    }
    if n >= REQUEST_BYTE_CAP {
        ReadStep::TooLong
    } else {
        ReadStep::More
    }
}

/// The error for a request that is too long.
pub fn too_long_error() -> (r: Failure)
    ensures
        r@ == FailureView::Text("Browser callback request exceeded the size limit."@),
{
    text_error("Browser callback request exceeded the size limit.")
}

/// The page that a browser is shown after the sign-in.
pub const SIGNED_IN_PAGE: &'static str = "<!doctype html><html><head><meta charset=\"utf-8\"><title>Partiri CLI signed in</title></head><body style=\"font-family:system-ui,sans-serif;text-align:center;padding:4rem;color:#0f172a;\"><h1 style=\"margin-bottom:1rem;\">You're signed in.</h1><p>You can close this tab and return to your terminal.</p></body></html>";

/// The status line of an answer.
pub open spec fn answer_status(a: Answer) -> Seq<char> {
    match a {
        Answer::WrongMethod => "405 Method Not Allowed"@,
        Answer::WrongHost => "400 Bad Request"@,
        Answer::WrongPath => "404 Not Found"@,
        Answer::WrongState => "400 Bad Request"@,
        Answer::SignedIn => "200 OK"@,
    }
}

/// The body of an answer.
pub open spec fn answer_body(a: Answer) -> Seq<char> {
    match a {
        Answer::WrongMethod => "<p>Only GET is allowed.</p>"@,
        Answer::WrongHost => "<p>Invalid Host header.</p>"@,
        Answer::WrongPath => "<p>Unexpected callback path.</p>"@,
        Answer::WrongState => "<p>Invalid state parameter.</p>"@,
        Answer::SignedIn => SIGNED_IN_PAGE@,
    }
}

/// The text of an answer. The content length counts bytes.
pub open spec fn response_text(a: Answer) -> Seq<char> {
    "HTTP/1.1 "@ + answer_status(a)
        + "\r\nContent-Type: text/html; charset=utf-8\r\nContent-Length: "@ + decimal_of(
        byte_len(answer_body(a)),
    ) + "\r\nCache-Control: no-store\r\nConnection: close\r\n\r\n"@ + answer_body(a)
}

/// The text of the response that carries an answer.
pub fn response(a: Answer) -> (r: String)
    ensures
        r@ == response_text(a),
{
    let (status, body) = match a {
        Answer::WrongMethod => ("405 Method Not Allowed", "<p>Only GET is allowed.</p>"),
        Answer::WrongHost => ("400 Bad Request", "<p>Invalid Host header.</p>"),
        Answer::WrongPath => ("404 Not Found", "<p>Unexpected callback path.</p>"),
        Answer::WrongState => ("400 Bad Request", "<p>Invalid state parameter.</p>"),
        Answer::SignedIn => ("200 OK", SIGNED_IN_PAGE),
    };
    let n = decimal(len_in_bytes(body) as u64);
    cat6(
        "HTTP/1.1 ",
        status,
        "\r\nContent-Type: text/html; charset=utf-8\r\nContent-Length: ",
        n.as_str(),
        "\r\nCache-Control: no-store\r\nConnection: close\r\n\r\n",
        body,
    )
}

// ─── Laws ──────────────────────────────────────────────────────────────────

/// A key that is stored is never replaced without force, and force replaces it
/// exactly where the new key could be stored afresh.
pub proof fn stored_key_needs_force(raw: Seq<char>)
    ensures
        key_problem(raw, false, true) is Some,
        key_problem(raw, true, true) == key_problem(raw, false, false),
{
}

/// Hexadecimal text has two digits per byte, each one of `0-9a-f`.
pub proof fn hex_has_two_digits_per_byte(bytes: Seq<u8>)
    ensures
        hex_of(bytes).len() == 2 * bytes.len(),
        forall|i: int|
            0 <= i < hex_of(bytes).len() ==> {
                let c = #[trigger] hex_of(bytes)[i];
                ('0' <= c && c <= '9') || ('a' <= c && c <= 'f')
            },
    decreases bytes.len(),
{
    if bytes.len() > 0 {
        hex_has_two_digits_per_byte(bytes.drop_last());
        let front = hex_of(bytes.drop_last());
        let all = hex_of(bytes);
        assert forall|i: int| 0 <= i < all.len() implies {
            let c = #[trigger] all[i];
            ('0' <= c && c <= '9') || ('a' <= c && c <= 'f')
        } by {
            if i < front.len() {
                assert(all[i] == front[i]);
            }
        }
    }
}

/// Different bytes have different hexadecimal texts.
pub proof fn hex_is_injective(a: Seq<u8>, b: Seq<u8>)
    requires
        hex_of(a) == hex_of(b),
    ensures
        a == b,
    decreases a.len(),
{
    hex_has_two_digits_per_byte(a);
    hex_has_two_digits_per_byte(b);
    if a.len() > 0 {
        let x = hex_of(a);
        let y = hex_of(b);
        let n = x.len() as int;
        assert(x[n - 1] == y[n - 1]);
        assert(x[n - 2] == y[n - 2]);
        hex_digit_is_injective((a.last() / 16) as nat, (b.last() / 16) as nat);
        hex_digit_is_injective((a.last() % 16) as nat, (b.last() % 16) as nat);
        assert(a.last() == b.last());
        assert(hex_of(a.drop_last()) =~= x.take(n - 2));
        assert(hex_of(b.drop_last()) =~= y.take(n - 2));
        hex_is_injective(a.drop_last(), b.drop_last());
        assert(a =~= a.drop_last().push(a.last()));
        assert(b =~= b.drop_last().push(b.last()));
    } else {
        assert(a =~= b);
    }
}

proof fn hex_digit_is_injective(m: nat, n: nat)
    requires
        m < 16,
        n < 16,
        hex_digit(m) == hex_digit(n),
    ensures
        m == n,
{
}

/// A key is accepted only from a request with the state that was handed out.
pub proof fn key_needs_the_state(text: Seq<char>, state: Seq<char>, port: u16)
    requires
        callback_of(text, state, port).1 is Ok,
    ensures
        query_param(
            target_query(first_word(after_word(crlf_parts(text, 0)[0]))),
            "state"@,
        ) == Some(state),
        callback_of(text, state, port).0 == Some(Answer::SignedIn),
        host_matches(crlf_parts(text, 0), 1, port),
{
}

/// Every refused request but one without its parameters is answered, and only
/// an accepted one with success.
pub proof fn refusals_are_answered(text: Seq<char>, state: Seq<char>, port: u16)
    ensures
        callback_of(text, state, port).0 == Some(Answer::SignedIn) <==> callback_of(
            text,
            state,
            port,
        ).1 is Ok,
{
}

/// The mask of a key of eight characters or more shows the first and the last
/// four, and nothing else of it.
pub proof fn mask_hides_the_middle(key: Seq<char>)
    requires
        key.len() >= 8,
    ensures
        masked(key).len() == 9,
        masked(key).take(4) == key.take(4),
        masked(key).skip(5) == key.skip(key.len() - 4),
{
    reveal_strlit("…");
    assert("…"@.len() == 1);
    assert(masked(key).take(4) =~= key.take(4));
    assert(masked(key).skip(5) =~= key.skip(key.len() - 4));
}

} // verus!
