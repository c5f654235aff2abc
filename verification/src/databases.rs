//! `partiri db`: managed PostgreSQL databases. A database is a service whose
//! deploy type is `database`; its password is never returned by the API.
use vstd::prelude::*;
use vstd::string::*;

use crate::client::{
    primary_region_of, CreateDatabaseBody, Job, ReplicaBody, Service, Volume,
};
use crate::config::{EnvVar, DISK_SIZE_MAX, DISK_SIZE_MIN, MAX_NAME_LEN};
use crate::error::{
    error_text, list1, list2, text_error, validation_error_with_hint, validation_hint_of,
};
use crate::error::{CliErrorView, Failure, FailureView};
use crate::json::{array_view, items_view, json_view, opt_string_view, Json, JsonView};
use crate::jobs::{is_job_row, listed, newest_first, JobRow};
use crate::jsonc::{json_str, json_text};
use crate::output::{message_only, report, Ctx, Listing, Report, ReportView};
use crate::secret::StdinLine;
use crate::seqs::filter_take;
use crate::storage::{find_service_volume, service_volume};
use crate::random::random_bytes;
use crate::text::{
    cat2, cat3, cat5, cat6, chars_of, contains_str, decimal, decimal_of, has_substring,
    is_alnum_char, is_ascii_alnum, is_ascii_digit, is_ascii_lower, is_control, is_ctrl,
    is_digit_char, is_lower_char, join, join_slices, opt_str_view, opt_view, slice_contains, str_eq,
    strs, trim, trimmed, views,
};

verus! {

/// PostgreSQL major versions that can be had.
pub const SUPPORTED_PG_VERSIONS: [&'static str; 2] = ["16", "17"];

/// Database names that PostgreSQL keeps for itself.
pub const RESERVED_DB_NAMES: [&'static str; 3] = ["template0", "template1", "postgres"];

/// The port of a database.
pub const DATABASE_PORT: u16 = 5432;

pub const PASSWORD_MIN_LEN: usize = 12;

pub const PASSWORD_MAX_LEN: usize = 128;

/// Maximum length of a PostgreSQL identifier.
pub const PG_IDENTIFIER_MAX_LEN: usize = 63;

/// Length of a generated password.
pub const GENERATED_PASSWORD_LEN: usize = 24;

/// The characters of a generated password: none of them needs escaping in a
/// shell, an environment file or a URL.
pub const PASSWORD_ALPHABET: &'static str = "ABCDEFGHIJKLMNOPQRSTUVWXYZabcdefghijklmnopqrstuvwxyz0123456789-_.+=~^*";

/// The number of characters in [`PASSWORD_ALPHABET`].
pub const ALPHABET_LEN: u8 = 70;

/// The random bytes below this value are used, the others drawn again: the
/// largest multiple of [`ALPHABET_LEN`] that fits in a byte.
pub const SAMPLING_LIMIT: u8 = 210;

/// The deploy type of a database.
pub const DATABASE_DEPLOY_TYPE: &'static str = "database";

/// How many services are fetched to find the databases among them.
pub const LIST_LIMIT: usize = 200;

/// The flags of `db create`.
#[derive(Debug)]
pub struct CreateArgs {
    pub project: Option<String>,
    pub workspace: Option<String>,
    pub name: Option<String>,
    pub db_name: Option<String>,
    pub db_user: Option<String>,
    pub version: Option<String>,
    pub disk: Option<u32>,
    pub region: Option<String>,
    pub pod: Option<String>,
    pub password_stdin: bool,
}

// ─── Validation ────────────────────────────────────────────────────────────

/// A character that an identifier may start with.
pub open spec fn starts_identifier(c: char) -> bool {
    is_lower_char(c) || c == '_'
}

/// A character that an identifier may hold.
pub open spec fn in_identifier(c: char) -> bool {
    is_lower_char(c) || is_digit_char(c) || c == '_'
}

/// The first place at or after `from` with a character that no identifier may
/// hold, or the length.
pub open spec fn bad_identifier_at(s: Seq<char>, from: int) -> int
    decreases s.len() - from,
{
    if from >= s.len() {
        s.len() as int
    } else if !in_identifier(s[from]) {
        from
    } else {
        bad_identifier_at(s, from + 1)
    }
}

/// What is wrong with a database or user name.
pub open spec fn identifier_problem(field: Seq<char>, v: Seq<char>) -> Option<CliErrorView> {
    let bad = bad_identifier_at(v, 1);
    if v.len() == 0 {
        Some(
            validation_hint_of(
                "--"@ + field + " must not be empty."@,
                "Use a lowercase name like 'appdb', e.g. --"@ + field + " appdb."@,
            ),
        )
    } else if v.len() > PG_IDENTIFIER_MAX_LEN {
        Some(
            validation_hint_of(
                "--"@ + field + " must be at most 63 characters (got "@ + decimal_of(v.len())
                    + ")."@,
                "Shorten the name."@,
            ),
        )
    } else if !starts_identifier(v[0]) {
        Some(
            validation_hint_of(
                ("--"@ + field + " must start with a lowercase letter or underscore (got '"@).push(
                    v[0],
                ) + "')."@,
                "PostgreSQL folds unquoted identifiers to lowercase, so uppercase names and leading digits are rejected. Try 'appdb'."@,
            ),
        )
    } else if bad < v.len() {
        Some(
            validation_hint_of(
                ("--"@ + field
                    + " may only contain lowercase letters, digits, and underscores (got '"@).push(
                    v[bad],
                ) + "')."@,
                "Replace hyphens and other punctuation with underscores, e.g. 'my_app_db'."@,
            ),
        )
    } else if strs(RESERVED_DB_NAMES@).contains(v) {
        Some(
            validation_hint_of(
                "--"@ + field + " '"@ + v + "' is reserved by PostgreSQL."@,
                "Pick another name. Reserved: "@ + join(strs(RESERVED_DB_NAMES@), ", "@) + "."@,
            ),
        )
    } else {
        None
    }
}

/// Check a database or user name against PostgreSQL's rules for identifiers.
pub fn validate_pg_identifier(field: &str, value: &str) -> (r: Result<(), Failure>)
    ensures
        r is Ok <==> identifier_problem(field@, value@) is None,
        r is Err ==> r->Err_0@ == FailureView::Cli(identifier_problem(field@, value@)->0),
{
    let cs = chars_of(value);
    let n: usize = cs.len();
    if n == 0 {
        let message = cat3("--", field, " must not be empty.");
        let hint = cat3("Use a lowercase name like 'appdb', e.g. --", field, " appdb.");
        return Err(validation_error_with_hint(message.as_str(), hint.as_str()));
    }
    if n > PG_IDENTIFIER_MAX_LEN {
        let count = decimal(n as u64);
        let message = cat5("--", field, " must be at most 63 characters (got ", count.as_str(), ").");
        return Err(validation_error_with_hint(message.as_str(), "Shorten the name."));
    }
    if !(is_ascii_lower(cs[0]) || cs[0] == '_') {
        let mut message = cat3(
            "--",
            field,
            " must start with a lowercase letter or underscore (got '",
        );
        message.push(cs[0]);
        message.append("').");
        return Err(
            validation_error_with_hint(
                message.as_str(),
                "PostgreSQL folds unquoted identifiers to lowercase, so uppercase names and leading digits are rejected. Try 'appdb'.",
            ),
        );
    }
    let mut i: usize = 1;
    while i < n && (is_ascii_lower(cs[i]) || is_ascii_digit(cs[i]) || cs[i] == '_')
        invariant
            cs@ == value@,
            n == cs@.len(),
            1 <= i <= n,
            bad_identifier_at(value@, 1) == bad_identifier_at(value@, i as int),
        decreases n - i,
    {
        i += 1;
    }
    if i < n {
        let mut message = cat3(
            "--",
            field,
            " may only contain lowercase letters, digits, and underscores (got '",
        );
        message.push(cs[i]);
        message.append("').");
        return Err(
            validation_error_with_hint(
                message.as_str(),
                "Replace hyphens and other punctuation with underscores, e.g. 'my_app_db'.",
            ),
        );
    }
    if slice_contains(RESERVED_DB_NAMES.as_slice(), value) {
        let message = cat5("--", field, " '", value, "' is reserved by PostgreSQL.");
        let names = join_slices(RESERVED_DB_NAMES.as_slice(), ", ");
        let hint = cat3("Pick another name. Reserved: ", names.as_str(), ".");
        return Err(validation_error_with_hint(message.as_str(), hint.as_str()));
    }
    Ok(())
}

/// The printable ASCII characters, without the space.
pub open spec fn is_printable(c: char) -> bool {
    '!' <= c && c <= '~'
}

/// The first place at or after `from` with a character that no password may
/// hold, or the length.
pub open spec fn unprintable_at(s: Seq<char>, from: int) -> int
    decreases s.len() - from,
{
    if from >= s.len() {
        s.len() as int
    } else if !is_printable(s[from]) {
        from
    } else {
        unprintable_at(s, from + 1)
    }
}

/// The class of a character that no password may hold. The character itself is
/// never shown.
pub open spec fn unprintable_kind(c: char) -> Seq<char> {
    if c == ' ' {
        "a space"@
    } else if c == '\t' {
        "a tab"@
    } else if is_ctrl(c) {
        "a control character"@
    } else if c as u32 > 127 {
        "a non-ASCII character"@
    } else {
        "an unsupported character"@
    }
}

/// What is wrong with a password.
pub open spec fn password_problem(p: Seq<char>) -> Option<CliErrorView> {
    if p.len() < PASSWORD_MIN_LEN || p.len() > PASSWORD_MAX_LEN {
        Some(
            validation_hint_of(
                "The database password must be 12–128 characters (got "@ + decimal_of(p.len())
                    + ")."@,
                "Pipe a longer password in via --password-stdin, or omit the flag to have one generated."@,
            ),
        )
    } else if unprintable_at(p, 0) < p.len() {
        Some(
            validation_hint_of(
                "The database password contains "@ + unprintable_kind(p[unprintable_at(p, 0)])
                    + "."@,
                "Only printable ASCII is allowed (no spaces, tabs, control characters, or non-ASCII). Omit --password-stdin to have a valid one generated."@,
            ),
        )
    } else {
        None
    }
}

/// Check a password: 12 to 128 printable ASCII characters.
pub fn validate_password(password: &str) -> (r: Result<(), Failure>)
    ensures
        r is Ok <==> password_problem(password@) is None,
        r is Err ==> r->Err_0@ == FailureView::Cli(password_problem(password@)->0),
{
    let cs = chars_of(password);
    let n: usize = cs.len();
    if n < PASSWORD_MIN_LEN || n > PASSWORD_MAX_LEN {
        let count = decimal(n as u64);
        let message = cat3(
            "The database password must be 12–128 characters (got ",
            count.as_str(),
            ").",
        );
        return Err(
            validation_error_with_hint(
                message.as_str(),
                "Pipe a longer password in via --password-stdin, or omit the flag to have one generated.",
            ),
        );
    }
    let mut i: usize = 0;
    while i < n && '!' <= cs[i] && cs[i] <= '~'
        invariant
            cs@ == password@,
            n == cs@.len(),
            i <= n,
            unprintable_at(password@, 0) == unprintable_at(password@, i as int),
        decreases n - i,
    {
        i += 1;
    }
    if i < n {
        let c = cs[i];
        let kind = if c == ' ' {
            "a space"
        } else if c == '\t' {
            "a tab"
        } else if is_control(c) {
            "a control character"
        } else if c as u32 > 127 {
            "a non-ASCII character"
        } else {
            "an unsupported character"
        };
        let message = cat3("The database password contains ", kind, ".");
        return Err(
            validation_error_with_hint(
                message.as_str(),
                "Only printable ASCII is allowed (no spaces, tabs, control characters, or non-ASCII). Omit --password-stdin to have a valid one generated.",
            ),
        );
    }
    Ok(())
}

/// What is wrong with a version.
pub open spec fn version_problem(v: Seq<char>) -> Option<CliErrorView> {
    if strs(SUPPORTED_PG_VERSIONS@).contains(v) {
        None
    } else {
        Some(
            validation_hint_of(
                "--version must be one of: "@ + join(strs(SUPPORTED_PG_VERSIONS@), ", "@) + "."@,
                "Got '"@ + v + "'. The version cannot be changed after creation."@,
            ),
        )
    }
}

pub fn validate_version(version: &str) -> (r: Result<(), Failure>)
    ensures
        r is Ok <==> version_problem(version@) is None,
        r is Err ==> r->Err_0@ == FailureView::Cli(version_problem(version@)->0),
{
    if !slice_contains(SUPPORTED_PG_VERSIONS.as_slice(), version) {
        let list = join_slices(SUPPORTED_PG_VERSIONS.as_slice(), ", ");
        let message = cat3("--version must be one of: ", list.as_str(), ".");
        let hint = cat3("Got '", version, "'. The version cannot be changed after creation.");
        return Err(validation_error_with_hint(message.as_str(), hint.as_str()));
    }
    Ok(())
}

/// What is wrong with a disk size.
pub open spec fn disk_size_problem(size: u32) -> Option<CliErrorView> {
    if DISK_SIZE_MIN <= size <= DISK_SIZE_MAX {
        None
    } else {
        Some(
            validation_hint_of(
                "--disk must be between 1 and 10 GB (got "@ + decimal_of(size as nat) + ")."@,
                "The disk cannot be resized after creation, so pick the size you need up front."@,
            ),
        )
    }
}

pub fn validate_disk_size(size: u32) -> (r: Result<(), Failure>)
    ensures
        r is Ok <==> disk_size_problem(size) is None,
        r is Err ==> r->Err_0@ == FailureView::Cli(disk_size_problem(size)->0),
{
    if !(DISK_SIZE_MIN <= size && size <= DISK_SIZE_MAX) {
        let n = decimal(size as u64);
        let message = cat3("--disk must be between 1 and 10 GB (got ", n.as_str(), ").");
        return Err(
            validation_error_with_hint(
                message.as_str(),
                "The disk cannot be resized after creation, so pick the size you need up front.",
            ),
        );
    }
    Ok(())
}

/// A character that a service name may hold.
pub open spec fn in_service_name(c: char) -> bool {
    is_alnum_char(c) || c == ' ' || c == '-'
}

/// Letters, digits, spaces and hyphens, with a letter or a digit at both ends.
pub open spec fn is_service_name(s: Seq<char>) -> bool {
    &&& s.len() > 0
    &&& forall|i: int| 0 <= i < s.len() ==> in_service_name(#[trigger] s[i])
    &&& is_alnum_char(s[0])
    &&& is_alnum_char(s.last())
}

/// What is wrong with a service name.
pub open spec fn service_name_problem(s: Seq<char>) -> Option<CliErrorView> {
    if s.len() == 0 || s.len() > MAX_NAME_LEN {
        Some(
            validation_hint_of(
                "--name must be 1–16 characters (got "@ + decimal_of(s.len()) + ")."@,
                "This is the display name in the dashboard, e.g. 'orders-db'."@,
            ),
        )
    } else if !is_service_name(s) {
        Some(
            validation_hint_of(
                "--name '"@ + s + "' is not a valid service name."@,
                "Use letters, digits, spaces, and hyphens only, starting and ending with a letter or digit — e.g. 'orders-db'."@,
            ),
        )
    } else {
        None
    }
}

pub fn validate_service_name(name: &str) -> (r: Result<(), Failure>)
    ensures
        r is Ok <==> service_name_problem(name@) is None,
        r is Err ==> r->Err_0@ == FailureView::Cli(service_name_problem(name@)->0),
{
    let cs = chars_of(name);
    let n: usize = cs.len();
    if n == 0 || n > MAX_NAME_LEN {
        let count = decimal(n as u64);
        let message = cat3("--name must be 1–16 characters (got ", count.as_str(), ").");
        return Err(
            validation_error_with_hint(
                message.as_str(),
                "This is the display name in the dashboard, e.g. 'orders-db'.",
            ),
        );
    }
    let mut fine: bool = is_ascii_alnum(cs[0]) && is_ascii_alnum(cs[n - 1]);
    for i in 0..n
        invariant
            cs@ == name@,
            n == cs@.len(),
            n > 0,
            fine == (is_alnum_char(name@[0]) && is_alnum_char(name@.last()) && forall|k: int|
                0 <= k < i ==> in_service_name(#[trigger] name@[k])),
    {
        if !(is_ascii_alnum(cs[i]) || cs[i] == ' ' || cs[i] == '-') {
            assert(!in_service_name(name@[i as int]));
            fine = false;
        }
    }
    if !fine {
        let message = cat3("--name '", name, "' is not a valid service name.");
        return Err(
            validation_error_with_hint(
                message.as_str(),
                "Use letters, digits, spaces, and hyphens only, starting and ending with a letter or digit — e.g. 'orders-db'.",
            ),
        );
    }
    Ok(())
}

// ─── Password generation ───────────────────────────────────────────────────

/// The character for a random byte that is used.
pub open spec fn symbol(b: u8) -> char {
    PASSWORD_ALPHABET@[(b % ALPHABET_LEN) as int]
}

/// The characters for the random bytes, without those that are drawn again.
pub open spec fn symbols(bytes: Seq<u8>) -> Seq<char>
    decreases bytes.len(),
{
    if bytes.len() == 0 {
        seq![]
    } else if bytes.last() < SAMPLING_LIMIT {
        symbols(bytes.drop_last()).push(symbol(bytes.last()))
    } else {
        symbols(bytes.drop_last())
    }
}

/// At most the length of a generated password.
pub open spec fn clipped(s: Seq<char>) -> Seq<char> {
    if s.len() > GENERATED_PASSWORD_LEN {
        s.take(GENERATED_PASSWORD_LEN as int)
    } else {
        s
    }
}

/// Add the characters for some random bytes, up to the length of a password.
pub fn extend_password(out: &mut String, bytes: &[u8])
    requires
        old(out)@.len() <= GENERATED_PASSWORD_LEN,
    ensures
        final(out)@ == clipped(old(out)@ + symbols(bytes@)),
{
    let ghost start = out@;
    let mut len: usize = out.as_str().unicode_len();
    proof {
        reveal_strlit(
            "ABCDEFGHIJKLMNOPQRSTUVWXYZabcdefghijklmnopqrstuvwxyz0123456789-_.+=~^*",
        );
        assert(PASSWORD_ALPHABET@.len() == 70);
        assert(symbols(bytes@.take(0)) =~= seq![]);
        assert(start + symbols(bytes@.take(0)) =~= start);
    }
    for i in 0..bytes.len()
        invariant
            PASSWORD_ALPHABET@.len() == 70,
            len == out@.len(),
            len <= GENERATED_PASSWORD_LEN,
            out@ == clipped(start + symbols(bytes@.take(i as int))),
    {
        let b: u8 = bytes[i];
        let ghost before = symbols(bytes@.take(i as int));
        proof {
            assert(bytes@.take(i + 1).drop_last() =~= bytes@.take(i as int));
        }
        if len < GENERATED_PASSWORD_LEN && b < SAMPLING_LIMIT {
            let c = PASSWORD_ALPHABET.get_char((b % ALPHABET_LEN) as usize);
            proof {
                assert(out@ =~= start + before);
                assert(start + before.push(c) =~= (start + before).push(c));
            }
            out.push(c);
            len += 1;
        } else {
            proof {
                if b < SAMPLING_LIMIT {
                    let now = start + before.push(symbol(b));
                    assert(now =~= (start + before).push(symbol(b)));
                    assert(now.take(GENERATED_PASSWORD_LEN as int) =~= (start + before).take(
                        GENERATED_PASSWORD_LEN as int,
                    ));
                }
            }
        }
    }
    assert(bytes@.take(bytes@.len() as int) =~= bytes@);
}

/// How many random bytes are asked for at a time.
pub const BLOCK_LEN: usize = 64;

/// How many blocks of random bytes are drawn for one password before the
/// source is given up. One block is nearly always enough.
pub const MAX_BLOCKS: u32 = 4294967295;

/// What the next step towards a password is.
#[derive(Debug, Clone, Copy, PartialEq, Eq, Structural)]
pub enum Draw {
    /// The password is long enough.
    Done,
    /// Too many bytes were drawn without enough that could be used.
    GiveUp,
    /// So many random bytes are to be drawn.
    Ask(usize),
}

/// The next step, once `drawn` blocks have made a password of `len`
/// characters.
pub open spec fn draw_of(len: nat, drawn: u32) -> Draw {
    if len == GENERATED_PASSWORD_LEN {
        Draw::Done
    } else if drawn >= MAX_BLOCKS {
        Draw::GiveUp
    } else {
        Draw::Ask(BLOCK_LEN)
    }
}

/// What to do next for the password `out`, once `drawn` blocks were drawn.
pub fn next_draw(out: &String, drawn: u32) -> (r: Draw)
    ensures
        r == draw_of(out@.len(), drawn),
{
    if out.as_str().unicode_len() == GENERATED_PASSWORD_LEN {
        Draw::Done
    } else if drawn >= MAX_BLOCKS {
        Draw::GiveUp
    } else {
        Draw::Ask(BLOCK_LEN)
    }
}

/// What generating a password fails with, and why.
pub open spec fn no_password(why: Seq<char>) -> FailureView {
    FailureView::Text("Failed to generate a database password: "@ + why)
}

/// The reason where the random source is given up.
pub const GIVEN_UP: &'static str = "the random source gave no usable bytes";

/// Take what the random source gave: its bytes go into the password, its
/// failure ends the attempt.
pub fn take_block(out: &mut String, block: Result<Vec<u8>, String>) -> (r: Result<(), Failure>)
    requires
        old(out)@.len() <= GENERATED_PASSWORD_LEN,
    ensures
        r is Ok <==> block is Ok,
        r is Ok ==> final(out)@ == clipped(old(out)@ + symbols(block->Ok_0@)),
        r is Err ==> final(out)@ == old(out)@ && r->Err_0@ == no_password(block->Err_0@),
{
    match block {
        Ok(bytes) => {
            extend_password(out, bytes.as_slice());
            Ok(())
        },
        Err(why) => Err(
            Failure::Text(cat2("Failed to generate a database password: ", why.as_str())),
        ),
    }
}

/// What is known of a generated password: its length, and that it is made of
/// the characters of the alphabet.
pub open spec fn is_generated(p: Seq<char>) -> bool {
    &&& p.len() == GENERATED_PASSWORD_LEN
    &&& forall|i: int| 0 <= i < p.len() ==> PASSWORD_ALPHABET@.contains(#[trigger] p[i])
}

/// Generate a password. Every character is equally likely, as far as the
/// random bytes are. Whether there is one rests on the random source: each step
/// is [`next_draw`]'s, and [`take_block`] says what comes of each block.
pub fn generate_password() -> (r: Result<String, Failure>)
    ensures
        r is Ok ==> is_generated(r->Ok_0@),
        r is Err ==> exists|why: Seq<char>| r->Err_0@ == #[trigger] no_password(why),
{
    let mut out = String::new();
    let mut drawn: u32 = 0;
    let ghost mut all: Seq<u8> = seq![];
    assert(clipped(symbols(all)) =~= out@);
    loop
        invariant
            out@.len() <= GENERATED_PASSWORD_LEN,
            out@ == clipped(symbols(all)),
        decreases MAX_BLOCKS - drawn,
    {
        match next_draw(&out, drawn) {
            Draw::Done => {
                proof {
                    symbols_are_in_the_alphabet(all);
                    assert forall|i: int| 0 <= i < out@.len() implies PASSWORD_ALPHABET@.contains(
                        #[trigger] out@[i],
                    ) by {
                        assert(out@[i] == symbols(all)[i]);
                    }
                }
                return Ok(out);
            },
            Draw::GiveUp => {
                let r = Failure::Text(cat2("Failed to generate a database password: ", GIVEN_UP));
                assert(r@ == no_password(GIVEN_UP@));
                return Err(r);
            },
            Draw::Ask(n) => {
                drawn += 1;
                let block = random_bytes(n);
                let ghost got = block->Ok_0@;
                match take_block(&mut out, block) {
                    Ok(()) => {
                        proof {
                            blocks_add_up(all, got);
                            all = all + got;
                        }
                    },
                    Err(e) => {
                        return Err(e);
                    },
                }
            },
        }
    }
}

proof fn symbols_of_more(a: Seq<u8>, b: Seq<u8>)
    ensures
        symbols(a + b) == symbols(a) + symbols(b),
    decreases b.len(),
{
    if b.len() == 0 {
        assert(a + b =~= a);
        assert(symbols(a) + symbols(b) =~= symbols(a));
    } else {
        assert((a + b).drop_last() =~= a + b.drop_last());
        symbols_of_more(a, b.drop_last());
        assert(symbols(a + b) =~= symbols(a) + symbols(b));
    }
}

proof fn symbols_are_in_the_alphabet(bytes: Seq<u8>)
    ensures
        forall|i: int|
            0 <= i < symbols(bytes).len() ==> PASSWORD_ALPHABET@.contains(
                #[trigger] symbols(bytes)[i],
            ),
    decreases bytes.len(),
{
    reveal_strlit("ABCDEFGHIJKLMNOPQRSTUVWXYZabcdefghijklmnopqrstuvwxyz0123456789-_.+=~^*");
    assert(PASSWORD_ALPHABET@.len() == 70);
    if bytes.len() > 0 {
        let front = symbols(bytes.drop_last());
        symbols_are_in_the_alphabet(bytes.drop_last());
        assert forall|i: int| 0 <= i < symbols(bytes).len() implies PASSWORD_ALPHABET@.contains(
            #[trigger] symbols(bytes)[i],
        ) by {
            if i < front.len() {
                assert(symbols(bytes)[i] == front[i]);
            } else {
                let k = (bytes.last() % ALPHABET_LEN) as int;
                assert(PASSWORD_ALPHABET@[k] == symbols(bytes)[i]);
            }
        }
    }
}

// ─── Databases among services ──────────────────────────────────────────────

pub open spec fn is_db(s: Service) -> bool {
    s.deploy_type@ == DATABASE_DEPLOY_TYPE@
}

/// Whether a service is a database.
pub fn is_database(svc: &Service) -> (r: bool)
    ensures
        r == is_db(*svc),
{
    str_eq(svc.deploy_type.as_str(), DATABASE_DEPLOY_TYPE)
}

/// Keep the databases among the services of a project, in their order.
pub fn filter_databases(services: Vec<Service>) -> (r: Vec<Service>)
    ensures
        r@ == services@.filter(|s: Service| is_db(s)),
{
    let ghost all = services@;
    let ghost p = |s: Service| is_db(s);
    let mut rest = services;
    let mut out: Vec<Service> = Vec::new();
    assert(all.skip(0) =~= all);
    assert(all.take(0).filter(p) =~= seq![]) by {
        reveal(Seq::filter);
    }
    while rest.len() > 0
        invariant
            p == (|s: Service| is_db(s)),
            rest@.len() <= all.len(),
            rest@ == all.skip(all.len() - rest@.len()),
            out@ == all.take(all.len() - rest@.len()).filter(p),
        decreases rest@.len(),
    {
        let ghost done = all.len() - rest@.len();
        let svc = rest.remove(0);
        proof {
            assert(svc == all[done]);
            filter_take(all, done, p);
            assert(rest@ =~= all.skip(done + 1));
        }
        if is_database(&svc) {
            out.push(svc);
        }
    }
    assert(all.take(all.len() as int) =~= all);
    out
}

/// A text that is there and not empty.
pub open spec fn some_text(o: Option<String>) -> Option<Seq<char>> {
    match o {
        Some(s) => if s@.len() == 0 {
            None
        } else {
            Some(s@)
        },
        None => None,
    }
}

/// A text of the API; an empty one counts as absent.
pub fn non_empty(o: &Option<String>) -> (r: Option<&str>)
    ensures
        opt_str_view(r) == some_text(*o),
{
    match o {
        Some(s) => if s.as_str().is_empty() {
            None
        } else {
            Some(s.as_str())
        },
        None => None,
    }
}

/// The connection string of a database: the user, the read-write host and the
/// database, without the password. None until all three are known.
pub open spec fn connection_of(s: Service) -> Option<Seq<char>> {
    match (some_text(s.internal_sd_url), some_text(s.db_user), some_text(s.db_name)) {
        (Some(host), Some(user), Some(name)) => Some(
            "postgresql://"@ + user + "@"@ + host + "-rw:5432/"@ + name,
        ),
        _ => None,
    }
}

pub fn connection_string(svc: &Service) -> (r: Option<String>)
    ensures
        opt_view(r) == connection_of(*svc),
{
    match (non_empty(&svc.internal_sd_url), non_empty(&svc.db_user), non_empty(&svc.db_name)) {
        (Some(host), Some(user), Some(name)) => Some(
            cat6("postgresql://", user, "@", host, "-rw:5432/", name),
        ),
        _ => None,
    }
}

/// The body of a new database. It has exactly one replica, the primary one.
pub open spec fn is_body_of(
    b: CreateDatabaseBody,
    name: Seq<char>,
    db_name: Seq<char>,
    db_user: Seq<char>,
    version: Seq<char>,
    password: Seq<char>,
    disk: u32,
    project: Seq<char>,
    region: Seq<char>,
    pod: Seq<char>,
) -> bool {
    &&& b.name@ == name
    &&& b.deploy_type@ == DATABASE_DEPLOY_TYPE@
    &&& b.runtime@ == "psql"@
    &&& b.db_type@ == "postgresql"@
    &&& b.db_version@ == version
    &&& b.db_name@ == db_name
    &&& b.db_user@ == db_user
    &&& b.db_password@ == password
    &&& b.db_disk_size == disk
    &&& b.fk_project@ == project
    &&& b.fk_region@ == region
    &&& b.fk_pod@ == pod
    &&& b.replicas@.len() == 1
    &&& b.replicas@[0].fk_region@ == region
    &&& b.replicas@[0].is_primary
    &&& b.root_path@.len() == 0
    &&& b.env@.len() == 0
    &&& !b.maintenance_mode
    &&& b.active
}

pub fn build_create_body(
    name: &str,
    db_name: &str,
    db_user: &str,
    version: &str,
    password: &str,
    disk: u32,
    project_id: &str,
    region_id: &str,
    pod_id: &str,
) -> (r: CreateDatabaseBody)
    ensures
        is_body_of(
            r,
            name@,
            db_name@,
            db_user@,
            version@,
            password@,
            disk,
            project_id@,
            region_id@,
            pod_id@,
        ),
{
    let mut replicas: Vec<ReplicaBody> = Vec::new();
    replicas.push(ReplicaBody { fk_region: region_id.to_owned(), is_primary: true });
    let env: Vec<EnvVar> = Vec::new();
    CreateDatabaseBody {
        name: name.to_owned(),
        deploy_type: DATABASE_DEPLOY_TYPE.to_owned(),
        runtime: "psql".to_owned(),
        db_type: "postgresql".to_owned(),
        db_version: version.to_owned(),
        db_name: db_name.to_owned(),
        db_user: db_user.to_owned(),
        db_password: password.to_owned(),
        db_disk_size: disk,
        fk_project: project_id.to_owned(),
        fk_region: region_id.to_owned(),
        fk_pod: pod_id.to_owned(),
        replicas,
        root_path: String::new(),
        env,
        maintenance_mode: false,
        active: true,
    }
}

// ─── Output ────────────────────────────────────────────────────────────────

/// A row of the table of databases.
#[derive(Debug)]
pub struct DatabaseRow {
    pub name: String,
    pub engine: String,
    pub db_name: String,
    pub db_user: String,
    pub id: String,
}

/// A text, or a dash where there is none.
pub open spec fn or_dash(o: Option<Seq<char>>) -> Seq<char> {
    match o {
        Some(s) => s,
        None => "—"@,
    }
}

/// The engine of a database and its version.
pub open spec fn engine_of(s: Service) -> Seq<char> {
    match (some_text(s.db_type), some_text(s.db_version)) {
        (Some(t), Some(v)) => t + " "@ + v,
        (Some(t), None) => t,
        _ => "—"@,
    }
}

pub open spec fn is_database_row(row: DatabaseRow, s: Service) -> bool {
    &&& row.name == s.name
    &&& row.engine@ == engine_of(s)
    &&& row.db_name@ == or_dash(some_text(s.db_name))
    &&& row.db_user@ == or_dash(some_text(s.db_user))
    &&& row.id == s.id
}

fn text_or_dash(o: Option<&str>) -> (r: String)
    ensures
        r@ == or_dash(opt_str_view(o)),
{
    match o {
        Some(s) => s.to_owned(),
        None => "—".to_owned(),
    }
}

pub fn database_row(svc: &Service) -> (r: DatabaseRow)
    ensures
        is_database_row(r, *svc),
{
    let engine = match (non_empty(&svc.db_type), non_empty(&svc.db_version)) {
        (Some(t), Some(v)) => cat3(t, " ", v),
        (Some(t), None) => t.to_owned(),
        _ => "—".to_owned(),
    };
    DatabaseRow {
        name: svc.name.clone(),
        engine,
        db_name: text_or_dash(non_empty(&svc.db_name)),
        db_user: text_or_dash(non_empty(&svc.db_user)),
        id: svc.id.clone(),
    }
}

pub open spec fn opt_bool_view(o: Option<bool>) -> JsonView {
    match o {
        Some(b) => JsonView::Bool(b),
        None => JsonView::Null,
    }
}

pub open spec fn opt_num_view(o: Option<u32>) -> JsonView {
    match o {
        Some(n) => JsonView::Num(decimal_of(n as nat)),
        None => JsonView::Null,
    }
}

/// The host that takes writes.
pub open spec fn host_of(s: Service) -> Option<Seq<char>> {
    match s.internal_sd_url {
        Some(h) => Some(h@ + "-rw"@),
        None => None,
    }
}

/// The members of a database in JSON; never its password.
pub open spec fn database_fields(s: Service, disk_gb: Option<u32>) -> Seq<(Seq<char>, JsonView)> {
    seq![
        ("id"@, JsonView::Str(s.id@)),
        ("name"@, JsonView::Str(s.name@)),
        ("deploy_type"@, JsonView::Str(s.deploy_type@)),
        ("db_type"@, opt_string_view(opt_view(s.db_type))),
        ("db_version"@, opt_string_view(opt_view(s.db_version))),
        ("db_name"@, opt_string_view(opt_view(s.db_name))),
        ("db_user"@, opt_string_view(opt_view(s.db_user))),
        ("host"@, opt_string_view(host_of(s))),
        ("port"@, JsonView::Num(decimal_of(DATABASE_PORT as nat))),
        ("connection_string"@, opt_string_view(connection_of(s))),
        ("disk_size_gb"@, opt_num_view(disk_gb)),
        ("fk_project"@, opt_string_view(opt_view(s.fk_project))),
        ("fk_pod"@, opt_string_view(opt_view(s.fk_pod))),
        ("fk_region"@, opt_string_view(primary_region_of(s))),
        ("active"@, opt_bool_view(s.active)),
        ("created_at"@, opt_string_view(opt_view(s.created_at))),
    ]
}

pub fn database_json(svc: &Service, disk_gb: Option<u32>) -> (r: Json)
    ensures
        r@ == JsonView::Obj(database_fields(*svc, disk_gb)),
{
    let host = match &svc.internal_sd_url {
        Some(h) => Some(cat2(h.as_str(), "-rw")),
        None => None,
    };
    let conn = connection_string(svc);
    let disk = match disk_gb {
        Some(n) => Json::num(n as u64),
        None => Json::Null,
    };
    let region = match svc.primary_region() {
        Some(s) => Json::str(s),
        None => Json::Null,
    };
    let active = match svc.active {
        Some(b) => Json::Bool(b),
        None => Json::Null,
    };
    let r = Json::object().with("id", Json::str(svc.id.as_str())).with(
        "name",
        Json::str(svc.name.as_str()),
    ).with("deploy_type", Json::str(svc.deploy_type.as_str())).with(
        "db_type",
        Json::opt(&svc.db_type),
    ).with("db_version", Json::opt(&svc.db_version)).with("db_name", Json::opt(&svc.db_name)).with(
        "db_user",
        Json::opt(&svc.db_user),
    ).with("host", Json::opt(&host)).with("port", Json::num(DATABASE_PORT as u64)).with(
        "connection_string",
        Json::opt(&conn),
    ).with("disk_size_gb", disk).with("fk_project", Json::opt(&svc.fk_project)).with(
        "fk_pod",
        Json::opt(&svc.fk_pod),
    ).with("fk_region", region).with("active", active).with(
        "created_at",
        Json::opt(&svc.created_at),
    );
    assert(r@->Obj_0 =~= database_fields(*svc, disk_gb));
    r
}

/// The members of the result of `db create`: a generated password is among
/// them, since it exists nowhere else; one that the caller gave is not.
pub open spec fn created_fields(s: Service, password: Seq<char>, generated: bool, disk_gb: u32) -> Seq<
    (Seq<char>, JsonView),
> {
    database_fields(s, Some(disk_gb)).push(
        (
            "password"@,
            if generated {
                JsonView::Str(password)
            } else {
                JsonView::Null
            },
        ),
    ).push(("password_generated"@, JsonView::Bool(generated)))
}

pub fn created_payload(created: &Service, password: &str, generated: bool, disk_gb: u32) -> (r: Json)
    ensures
        r@ == JsonView::Obj(created_fields(*created, password@, generated, disk_gb)),
{
    let shown = if generated {
        Json::str(password)
    } else {
        Json::Null
    };
    database_json(created, Some(disk_gb)).with("password", shown).with(
        "password_generated",
        Json::Bool(generated),
    )
}

/// `db list`: the databases among the services of a project.
pub fn run_list(services: Vec<Service>, ctx: Ctx) -> (r: Listing<DatabaseRow>)
    ensures
        ({
            let dbs = services@.filter(|s: Service| is_db(s));
            if ctx.json {
                r is Data && r->Data_0@ == JsonView::Obj(
                    seq![
                        (
                            "data"@,
                            JsonView::Arr(
                                dbs.map_values(
                                    |s: Service| JsonView::Obj(database_fields(s, None)),
                                ),
                            ),
                        ),
                    ],
                )
            } else if dbs.len() == 0 {
                r is Message && r->Message_0@ == "No databases found in this project."@
            } else {
                r is Rows && r->Rows_0@.len() == dbs.len() && forall|i: int|
                    0 <= i < dbs.len() ==> is_database_row(#[trigger] r->Rows_0@[i], dbs[i])
            }
        }),
{
    let dbs = filter_databases(services);
    if ctx.json {
        let mut out: Vec<Json> = Vec::new();
        for i in 0..dbs.len()
            invariant
                out@.len() == i,
                forall|k: int|
                    0 <= k < i ==> json_view(#[trigger] out@[k]) == JsonView::Obj(
                        database_fields(dbs@[k], None),
                    ),
        {
            out.push(database_json(&dbs[i], None));
        }
        let ghost want = dbs@.map_values(|s: Service| JsonView::Obj(database_fields(s, None)));
        proof {
            array_view(out);
            assert(items_view(out@) =~= want);
        }
        let data = Json::object().with("data", Json::Arr(out));
        assert(data@->Obj_0 =~= seq![("data"@, JsonView::Arr(want))]);
        return Listing::Data(data);
    }
    if dbs.len() == 0 {
        return Listing::Message("No databases found in this project.".to_owned());
    }
    let mut rows: Vec<DatabaseRow> = Vec::new();
    for i in 0..dbs.len()
        invariant
            rows@.len() == i,
            forall|k: int| 0 <= k < i ==> is_database_row(#[trigger] rows@[k], dbs@[k]),
    {
        rows.push(database_row(&dbs[i]));
    }
    Listing::Rows(rows)
}

/// `db show`: the size of the disk, from the volumes of the project where they
/// could be listed.
pub fn disk_of(svc: &Service, volumes: &Option<Vec<Volume>>) -> (r: Option<u32>)
    ensures
        r == match volumes {
            Some(v) => match service_volume(v@, svc.id@) {
                Some(vol) => Some(vol.size),
                None => None,
            },
            None => None,
        },
{
    match volumes {
        Some(v) => match find_service_volume(v.as_slice(), svc.id.as_str()) {
            Some(vol) => Some(vol.size),
            None => None,
        },
        None => None,
    }
}

/// The listing of the jobs of a database, newest first.
pub fn run_jobs(jobs: Vec<Job>, ctx: Ctx) -> (r: Listing<JobRow>)
    ensures
        jobs@.len() == 0 && !ctx.json ==> r is Message && r->Message_0@
            == "No jobs found for this database."@,
        jobs@.len() > 0 || ctx.json ==> {
            &&& r is Rows
            &&& r->Rows_0@.len() == listed(jobs@.len(), ctx.json)
            &&& forall|i: int|
                0 <= i < r->Rows_0@.len() ==> is_job_row(
                    #[trigger] r->Rows_0@[i],
                    newest_first(jobs@)[i],
                )
        },
{
    if jobs.len() == 0 && !ctx.json {
        return Listing::Message("No jobs found for this database.".to_owned());
    }
    crate::jobs::run_list(jobs, ctx)
}

// ─── Commands ──────────────────────────────────────────────────────────────

/// The error for a service that is no database.
pub open spec fn not_a_database(id: Seq<char>, s: Service) -> CliErrorView {
    validation_hint_of(
        "Service "@ + id + " is a '"@ + s.deploy_type@ + "' service, not a managed database."@,
        "Use the 'partiri service' commands for it, or run 'partiri db list' to find a database."@,
    )
}

/// The service that a database command works on: any other service is refused
/// before anything is done to it.
pub fn read_database(svc: Service, id: &str) -> (r: Result<Service, Failure>)
    ensures
        r is Ok <==> is_db(svc),
        r is Ok ==> r->Ok_0 == svc,
        r is Err ==> r->Err_0@ == FailureView::Cli(not_a_database(id@, svc)),
{
    if !is_database(&svc) {
        let message = cat5(
            "Service ",
            id,
            " is a '",
            svc.deploy_type.as_str(),
            "' service, not a managed database.",
        );
        return Err(
            validation_error_with_hint(
                message.as_str(),
                "Use the 'partiri service' commands for it, or run 'partiri db list' to find a database.",
            ),
        );
    }
    Ok(svc)
}

/// The error for a deploy before the volume is attached.
pub open spec fn unattached_error() -> CliErrorView {
    validation_hint_of(
        "The database's storage volume is not attached yet, so it cannot be deployed."@,
        "Provisioning runs asynchronously after 'db create'. Wait a few seconds and retry; 'partiri storage list --project <UUID>' shows the volume's status."@,
    )
}

/// Explain a deploy that failed since the volume is not attached yet; any
/// other error stays.
pub fn explain_deploy_error(err: Failure) -> (r: Failure)
    ensures
        has_substring(error_text(err@), "no attached storage volume"@) ==> r@ == FailureView::Cli(
            unattached_error(),
        ),
        !has_substring(error_text(err@), "no attached storage volume"@) ==> r == err,
{
    let text = err.to_text();
    if contains_str(text.as_str(), "no attached storage volume") {
        return validation_error_with_hint(
            "The database's storage volume is not attached yet, so it cannot be deployed.",
            "Provisioning runs asynchronously after 'db create'. Wait a few seconds and retry; 'partiri storage list --project <UUID>' shows the volume's status.",
        );
    }
    err
}

/// The error for a value that is missing and cannot be asked for.
pub open spec fn no_input_error(what: Seq<char>, flag: Seq<char>) -> CliErrorView {
    validation_hint_of(
        "No "@ + what + " specified and prompting is disabled."@,
        "Pass "@ + flag + "."@,
    )
}

/// Refuse to prompt where prompting is disabled.
pub fn require_input(what: &str, flag: &str, ctx: Ctx) -> (r: Result<(), Failure>)
    ensures
        r is Ok <==> !ctx.no_input,
        r is Err ==> r->Err_0@ == FailureView::Cli(no_input_error(what@, flag@)),
{
    if ctx.no_input {
        let message = cat3("No ", what, " specified and prompting is disabled.");
        let hint = cat3("Pass ", flag, ".");
        return Err(validation_error_with_hint(message.as_str(), hint.as_str()));
    }
    Ok(())
}

/// What `db create` still has to be told.
#[derive(Debug, Clone, Copy, PartialEq, Eq, Structural)]
pub enum Need {
    /// The project; the workspace is resolved first.
    Project,
    /// The region, out of those of the workspace.
    Region,
    /// The pod, out of those of the workspace.
    Pod,
    Name,
    DbName,
    DbUser,
    Version,
    /// Nothing but the password.
    Password,
}

/// What a value that is missing comes to: a need, or the error where it cannot
/// be asked for.
pub open spec fn ask_or_refuse(
    need: Need,
    what: Seq<char>,
    flag: Seq<char>,
    no_input: bool,
) -> Result<Need, CliErrorView> {
    if no_input {
        Err(no_input_error(what, flag))
    } else {
        Ok(need)
    }
}

/// The next value that `db create` needs, or the first value that is in error.
/// The values are looked at in order, and each is checked before the next is
/// asked for.
pub open spec fn need_of(a: CreateArgs, no_input: bool) -> Result<Need, CliErrorView> {
    if a.project is None {
        Ok(Need::Project)
    } else if a.region is None {
        ask_or_refuse(Need::Region, "region"@, "--region <UUID>"@, no_input)
    } else if a.pod is None {
        ask_or_refuse(Need::Pod, "pod"@, "--pod <UUID>"@, no_input)
    } else if a.name is None {
        ask_or_refuse(Need::Name, "name"@, "--name <NAME>"@, no_input)
    } else if service_name_problem(a.name->0@) is Some {
        Err(service_name_problem(a.name->0@)->0)
    } else if a.db_name is None {
        ask_or_refuse(Need::DbName, "db-name"@, "--db-name <NAME>"@, no_input)
    } else if identifier_problem("db-name"@, a.db_name->0@) is Some {
        Err(identifier_problem("db-name"@, a.db_name->0@)->0)
    } else if a.db_user is None {
        ask_or_refuse(Need::DbUser, "db-user"@, "--db-user <USER>"@, no_input)
    } else if identifier_problem("db-user"@, a.db_user->0@) is Some {
        Err(identifier_problem("db-user"@, a.db_user->0@)->0)
    } else if a.version is None {
        ask_or_refuse(Need::Version, "version"@, "--version <VER>"@, no_input)
    } else if version_problem(a.version->0@) is Some {
        Err(version_problem(a.version->0@)->0)
    } else if disk_size_problem(disk_size_of(a)) is Some {
        Err(disk_size_problem(disk_size_of(a))->0)
    } else {
        Ok(Need::Password)
    }
}

/// The disk size: the smallest where none is given.
pub open spec fn disk_size_of(a: CreateArgs) -> u32 {
    match a.disk {
        Some(n) => n,
        None => DISK_SIZE_MIN,
    }
}

fn ask(need: Need, what: &str, flag: &str, ctx: Ctx) -> (r: Result<Need, Failure>)
    ensures
        match ask_or_refuse(need, what@, flag@, ctx.no_input) {
            Ok(n) => r == Ok::<Need, Failure>(n),
            Err(e) => r is Err && r->Err_0@ == FailureView::Cli(e),
        },
{
    match require_input(what, flag, ctx) {
        Ok(_) => Ok(need),
        Err(e) => Err(e),
    }
}

impl CreateArgs {
    /// What has to be asked for next.
    pub fn next_need(&self, ctx: Ctx) -> (r: Result<Need, Failure>)
        ensures
            match need_of(*self, ctx.no_input) {
                Ok(n) => r == Ok::<Need, Failure>(n),
                Err(e) => r is Err && r->Err_0@ == FailureView::Cli(e),
            },
    {
        if self.project.is_none() {
            return Ok(Need::Project);
        }
        if self.region.is_none() {
            return ask(Need::Region, "region", "--region <UUID>", ctx);
        }
        if self.pod.is_none() {
            return ask(Need::Pod, "pod", "--pod <UUID>", ctx);
        }
        match &self.name {
            None => {
                return ask(Need::Name, "name", "--name <NAME>", ctx);
            },
            Some(name) => match validate_service_name(name.as_str()) {
                Ok(_) => {},
                Err(e) => {
                    return Err(e);
                },
            },
        }
        match &self.db_name {
            None => {
                return ask(Need::DbName, "db-name", "--db-name <NAME>", ctx);
            },
            Some(v) => match validate_pg_identifier("db-name", v.as_str()) {
                Ok(_) => {},
                Err(e) => {
                    return Err(e);
                },
            },
        }
        match &self.db_user {
            None => {
                return ask(Need::DbUser, "db-user", "--db-user <USER>", ctx);
            },
            Some(v) => match validate_pg_identifier("db-user", v.as_str()) {
                Ok(_) => {},
                Err(e) => {
                    return Err(e);
                },
            },
        }
        match &self.version {
            None => {
                return ask(Need::Version, "version", "--version <VER>", ctx);
            },
            Some(v) => match validate_version(v.as_str()) {
                Ok(_) => {},
                Err(e) => {
                    return Err(e);
                },
            },
        }
        match validate_disk_size(self.disk_size()) {
            Ok(_) => Ok(Need::Password),
            Err(e) => Err(e),
        }
    }

    /// The size of the disk.
    pub fn disk_size(&self) -> (r: u32)
        ensures
            r == disk_size_of(*self),
    {
        match self.disk {
            Some(n) => n,
            None => DISK_SIZE_MIN,
        }
    }
}

/// `db create`, once every value is known: the body of the request, unless the
/// password is refused.
pub fn run_create(args: &CreateArgs, password: &str, ctx: Ctx) -> (r: Result<
    CreateDatabaseBody,
    Failure,
>)
    requires
        need_of(*args, ctx.no_input) == Ok::<Need, CliErrorView>(Need::Password),
    ensures
        r is Ok <==> password_problem(password@) is None,
        r is Err ==> r->Err_0@ == FailureView::Cli(password_problem(password@)->0),
        r is Ok ==> is_body_of(
            r->Ok_0,
            args.name->0@,
            args.db_name->0@,
            args.db_user->0@,
            args.version->0@,
            password@,
            disk_size_of(*args),
            args.project->0@,
            args.region->0@,
            args.pod->0@,
        ),
{
    match validate_password(password) {
        Ok(_) => {},
        Err(e) => {
            return Err(e);
        },
    }
    Ok(
        build_create_body(
            known(&args.name),
            known(&args.db_name),
            known(&args.db_user),
            known(&args.version),
            password,
            args.disk_size(),
            known(&args.project),
            known(&args.region),
            known(&args.pod),
        ),
    )
}

fn known(o: &Option<String>) -> (r: &str)
    requires
        o is Some,
    ensures
        r@ == o->0@,
{
    match o {
        Some(s) => s.as_str(),
        None => "",
    }
}

/// The password from the first line of standard input, trimmed.
pub fn read_password_from_stdin(line: StdinLine) -> (r: Result<String, Failure>)
    ensures
        match line {
            StdinLine::Empty => r is Err && r->Err_0@ == FailureView::Text(
                "stdin was empty; expected a database password"@,
            ),
            StdinLine::Failed(why) => r is Err && r->Err_0@ == FailureView::Text(
                "failed to read the database password from stdin: "@ + why@,
            ),
            StdinLine::Line(s) => r is Ok && r->Ok_0@ == trimmed(s@),
        },
{
    match line {
        StdinLine::Empty => Err(text_error("stdin was empty; expected a database password")),
        StdinLine::Failed(why) => Err(
            Failure::Text(
                cat2("failed to read the database password from stdin: ", why.as_str()),
            ),
        ),
        StdinLine::Line(s) => Ok(trim(s.as_str()).to_owned()),
    }
}

// ─── Reports ───────────────────────────────────────────────────────────────

/// A character so many times.
pub open spec fn repeated(c: char, n: nat) -> Seq<char> {
    Seq::new(n, |i: int| c)
}

/// A text with spaces behind it, up to a width.
pub open spec fn padded(s: Seq<char>, width: nat) -> Seq<char> {
    if s.len() >= width {
        s
    } else {
        s + repeated(' ', (width - s.len()) as nat)
    }
}

pub fn append_repeated(out: &mut String, c: char, n: usize)
    ensures
        final(out)@ == old(out)@ + repeated(c, n as nat),
{
    let ghost before = out@;
    assert(before + repeated(c, 0) =~= before);
    for i in 0..n
        invariant
            out@ == before + repeated(c, i as nat),
    {
        out.push(c);
        assert(out@ =~= before + repeated(c, (i + 1) as nat));
    }
}

/// A line of the box.
pub open spec fn box_line(s: Seq<char>, width: nat) -> Seq<char> {
    "│ "@ + padded(s, width) + " │"@
}

fn boxed_line(s: &str, width: usize) -> (r: String)
    ensures
        r@ == box_line(s@, width as nat),
{
    let mut inner = s.to_owned();
    let n: usize = s.unicode_len();
    if n < width {
        append_repeated(&mut inner, ' ', width - n);
    }
    cat3("│ ", inner.as_str(), " │")
}

/// The width of the box: that of the password, and at least 56.
pub open spec fn box_width(password: Seq<char>) -> nat {
    if password.len() > 56 {
        password.len()
    } else {
        56
    }
}

/// The box that shows a password, line by line.
pub open spec fn password_box_of(password: Seq<char>, heading: Seq<char>, lines: Seq<Seq<char>>) -> Seq<
    Seq<char>,
> {
    let width = box_width(password);
    let rest = if width > heading.len() + 1 {
        (width - heading.len() - 1) as nat
    } else {
        0
    };
    seq!["┌─ "@ + heading + " "@ + repeated('─', rest) + "┐"@] + lines.map_values(
        |l: Seq<char>| box_line(l, width),
    ) + seq![
        box_line(""@, width),
        box_line(password, width),
        "└"@ + repeated('─', width) + "──┘"@,
    ]
}

pub fn password_box(password: &str, heading: &str, lines: &Vec<String>) -> (r: Vec<String>)
    ensures
        views(r@) == password_box_of(password@, heading@, views(lines@)),
{
    let n: usize = password.unicode_len();
    let width: usize = if n > 56 {
        n
    } else {
        56
    };
    let h: usize = heading.unicode_len();
    let rest: usize = if width > h && width - h > 1 {
        width - h - 1
    } else {
        0
    };
    let mut out: Vec<String> = Vec::new();
    let mut top = cat3("┌─ ", heading, " ");
    append_repeated(&mut top, '─', rest);
    top.append("┐");
    out.push(top);
    for i in 0..lines.len()
        invariant
            width == box_width(password@),
            out@.len() == i + 1,
            out@[0] == top,
            forall|k: int|
                0 < k <= i ==> (#[trigger] out@[k])@ == box_line(lines@[k - 1]@, width as nat),
    {
        out.push(boxed_line(lines[i].as_str(), width));
    }
    out.push(boxed_line("", width));
    out.push(boxed_line(password, width));
    let mut bottom = "└".to_owned();
    append_repeated(&mut bottom, '─', width);
    bottom.append("──┘");
    out.push(bottom);
    assert(views(out@) =~= password_box_of(password@, heading@, views(lines@)));
    out
}

/// What a person is shown of a database that was created.
pub open spec fn created_notes(s: Service, password: Seq<char>, generated: bool) -> Seq<Seq<char>> {
    (if generated {
        password_box_of(
            password,
            "SAVE THIS PASSWORD NOW"@,
            seq!["It is never shown again and cannot be rotated or recovered."@],
        )
    } else {
        seq![]
    }) + (match connection_of(s) {
        Some(c) => seq![c],
        None => seq![],
    }) + seq!["Next: partiri db deploy "@ + s.id@]
}

/// The report on a database that was created: the one time that a generated
/// password is shown.
pub fn report_created(created: &Service, password: &str, generated: bool, disk_gb: u32) -> (r:
    Report)
    ensures
        r@ == (ReportView {
            message: "Database "@ + created.name@ + " created ("@ + created.id@ + ")."@,
            data: Some(
                JsonView::Obj(created_fields(*created, password@, generated, disk_gb)),
            ),
            notes: created_notes(*created, password@, generated),
        }),
{
    let mut notes: Vec<String> = if generated {
        let lines = list1("It is never shown again and cannot be rotated or recovered.");
        password_box(password, "SAVE THIS PASSWORD NOW", &lines)
    } else {
        Vec::new()
    };
    let ghost first = views(notes@);
    match connection_string(created) {
        Some(c) => {
            notes.push(c);
        },
        None => {},
    }
    notes.push(cat2("Next: partiri db deploy ", created.id.as_str()));
    assert(views(notes@) =~= created_notes(*created, password@, generated));
    Report {
        message: cat5(
            "Database ",
            created.name.as_str(),
            " created (",
            created.id.as_str(),
            ").",
        ),
        data: Some(created_payload(created, password, generated, disk_gb)),
        notes,
    }
}

/// What is printed of a generated password after the request failed: the
/// database may have been created all the same.
pub open spec fn lost_password_lines(password: Seq<char>, name: Seq<char>, json: bool) -> Seq<
    Seq<char>,
> {
    if json {
        seq![
            "{\"schema_version\":\"1\",\"password\":"@ + json_text(password)
                + ",\"password_generated\":true,\"note\":\"The create request failed, but the database may have been created. This password cannot be recovered.\"}"@,
        ]
    } else {
        password_box_of(
            password,
            "SAVE THIS PASSWORD"@,
            seq![
                "The create request failed, but the database may still have"@,
                "been created. Check with 'partiri db list' — if '"@ + name + "'"@,
                "exists, this is the only copy of its password."@,
            ],
        )
    }
}

pub fn report_password_after_failure(password: &str, name: &str, ctx: Ctx) -> (r: Vec<String>)
    ensures
        views(r@) == lost_password_lines(password@, name@, ctx.json),
{
    if ctx.json {
        let quoted = json_str(password);
        let line = cat3(
            "{\"schema_version\":\"1\",\"password\":",
            quoted.as_str(),
            ",\"password_generated\":true,\"note\":\"The create request failed, but the database may have been created. This password cannot be recovered.\"}",
        );
        return list1(line.as_str());
    }
    let check = cat3("been created. Check with 'partiri db list' — if '", name, "'");
    let mut lines = list2(
        "The create request failed, but the database may still have",
        check.as_str(),
    );
    let ghost two = views(lines@);
    lines.push("exists, this is the only copy of its password.".to_owned());
    assert(views(lines@) =~= seq![
        "The create request failed, but the database may still have"@,
        "been created. Check with 'partiri db list' — if '"@ + name@ + "'"@,
        "exists, this is the only copy of its password."@,
    ]) by {
        assert(views(lines@) =~= two.push("exists, this is the only copy of its password."@));
    }
    password_box(password, "SAVE THIS PASSWORD", &lines)
}

/// The jobs that can be queued for a database.
#[derive(Debug, Clone, Copy, PartialEq, Eq, Structural)]
pub enum DbJob {
    Deploy,
    Pause,
    Unpause,
}

/// The report on a job that was queued.
pub open spec fn queued_view(job: DbJob, id: Seq<char>) -> ReportView {
    match job {
        DbJob::Deploy => ReportView {
            message: "Deploy job queued for database "@ + id + "."@,
            data: None,
            notes: seq!["Track it with 'partiri db jobs "@ + id + "'."@],
        },
        DbJob::Pause => ReportView {
            message: "Pause job queued for database "@ + id + "."@,
            data: None,
            notes: seq!["The data is retained; 'partiri db unpause "@ + id + "' resumes it."@],
        },
        DbJob::Unpause => message_only("Unpause job queued for database "@ + id + "."@),
    }
}

pub fn queued_report(job: DbJob, id: &str) -> (r: Report)
    ensures
        r@ == queued_view(job, id@),
{
    match job {
        DbJob::Deploy => {
            let note = cat3("Track it with 'partiri db jobs ", id, "'.");
            Report {
                message: cat3("Deploy job queued for database ", id, "."),
                data: None,
                notes: list1(note.as_str()),
            }
        },
        DbJob::Pause => {
            let note = cat3("The data is retained; 'partiri db unpause ", id, "' resumes it.");
            Report {
                message: cat3("Pause job queued for database ", id, "."),
                data: None,
                notes: list1(note.as_str()),
            }
        },
        DbJob::Unpause => report(cat3("Unpause job queued for database ", id, ".")),
    }
}

/// The warning before a database is deleted; none where nobody reads it or the
/// answer is given already.
pub fn delete_warning(svc: &Service, ctx: Ctx) -> (r: Option<String>)
    ensures
        opt_view(r) == if ctx.json || ctx.yes {
            None
        } else {
            Some(
                "Deleting database '"@ + svc.name@
                    + "' destroys all of its data permanently. Partiri has no backup or restore — this cannot be undone."@,
            )
        },
{
    if ctx.json || ctx.yes {
        return None;
    }
    Some(
        cat3(
            "Deleting database '",
            svc.name.as_str(),
            "' destroys all of its data permanently. Partiri has no backup or restore — this cannot be undone.",
        ),
    )
}

/// The report on a database that was deleted.
pub fn deleted_report(id: &str) -> (r: Report)
    ensures
        r@ == message_only("Database "@ + id@ + " deleted."@),
{
    report(cat3("Database ", id, " deleted."))
}

// ─── Laws ──────────────────────────────────────────────────────────────────

/// The bytes that stand for a character.
pub open spec fn usable() -> spec_fn(u8) -> bool {
    |b: u8| b < SAMPLING_LIMIT
}

proof fn symbols_of_usable(bytes: Seq<u8>)
    ensures
        symbols(bytes).len() == bytes.filter(usable()).len(),
    decreases bytes.len(),
{
    reveal(Seq::filter);
    if bytes.len() > 0 {
        symbols_of_usable(bytes.drop_last());
    }
}

/// Two blocks of random bytes make what one block of both would make.
pub proof fn blocks_add_up(a: Seq<u8>, b: Seq<u8>)
    ensures
        clipped(clipped(symbols(a)) + symbols(b)) == clipped(symbols(a + b)),
{
    symbols_of_more(a, b);
    assert(clipped(clipped(symbols(a)) + symbols(b)) =~= clipped(symbols(a) + symbols(b)));
}

/// Once enough of the bytes stand for a character there is a password, whatever
/// the bytes are and however many were drawn.
pub proof fn enough_usable_bytes_make_a_password(bytes: Seq<u8>, drawn: u32)
    requires
        bytes.filter(usable()).len() >= GENERATED_PASSWORD_LEN,
    ensures
        is_generated(clipped(symbols(bytes))),
        password_problem(clipped(symbols(bytes))) is None,
        draw_of(clipped(symbols(bytes)).len(), drawn) == Draw::Done,
{
    symbols_of_usable(bytes);
    symbols_are_in_the_alphabet(bytes);
    let p = clipped(symbols(bytes));
    assert forall|i: int| 0 <= i < p.len() implies PASSWORD_ALPHABET@.contains(#[trigger] p[i]) by {
        assert(p[i] == symbols(bytes)[i]);
    }
    generated_password_is_valid(p);
}

proof fn bad_identifier_range(s: Seq<char>, from: int)
    requires
        0 <= from <= s.len(),
    ensures
        from <= bad_identifier_at(s, from) <= s.len(),
        bad_identifier_at(s, from) < s.len() ==> !in_identifier(s[bad_identifier_at(s, from)]),
        forall|k: int| from <= k < bad_identifier_at(s, from) ==> in_identifier(#[trigger] s[k]),
    decreases s.len() - from,
{
    if from < s.len() && in_identifier(s[from]) {
        bad_identifier_range(s, from + 1);
    }
}

/// The identifiers that pass are those of one to 63 characters of `a-z`, `0-9`
/// and `_` that do not start with a digit, but for the reserved names.
pub proof fn valid_identifier_meaning(field: Seq<char>, v: Seq<char>)
    ensures
        identifier_problem(field, v) is None <==> {
            &&& 0 < v.len() <= 63
            &&& starts_identifier(v[0])
            &&& forall|i: int| 0 <= i < v.len() ==> in_identifier(#[trigger] v[i])
            &&& !strs(RESERVED_DB_NAMES@).contains(v)
        },
{
    if v.len() > 0 {
        bad_identifier_range(v, 1);
        let bad = bad_identifier_at(v, 1);
        if starts_identifier(v[0]) && bad == v.len() {
            assert forall|i: int| 0 <= i < v.len() implies in_identifier(#[trigger] v[i]) by {
                if i == 0 {
                    assert(in_identifier(v[0]));
                }
            }
        }
    }
}

proof fn unprintable_range(s: Seq<char>, from: int)
    requires
        0 <= from <= s.len(),
    ensures
        from <= unprintable_at(s, from) <= s.len(),
        unprintable_at(s, from) < s.len() ==> !is_printable(s[unprintable_at(s, from)]),
        forall|k: int| from <= k < unprintable_at(s, from) ==> is_printable(#[trigger] s[k]),
    decreases s.len() - from,
{
    if from < s.len() && is_printable(s[from]) {
        unprintable_range(s, from + 1);
    }
}

/// The passwords that pass are those of 12 to 128 printable ASCII characters.
pub proof fn valid_password_meaning(p: Seq<char>)
    ensures
        password_problem(p) is None <==> {
            &&& PASSWORD_MIN_LEN <= p.len() <= PASSWORD_MAX_LEN
            &&& forall|i: int| 0 <= i < p.len() ==> is_printable(#[trigger] p[i])
        },
{
    unprintable_range(p, 0);
}

/// A generated password is one that passes.
pub proof fn generated_password_is_valid(p: Seq<char>)
    requires
        is_generated(p),
    ensures
        password_problem(p) is None,
{
    valid_password_meaning(p);
    reveal_strlit("ABCDEFGHIJKLMNOPQRSTUVWXYZabcdefghijklmnopqrstuvwxyz0123456789-_.+=~^*");
    assert(PASSWORD_ALPHABET@.len() == 70);
    assert forall|k: int| 0 <= k < 70 implies is_printable(#[trigger] PASSWORD_ALPHABET@[k]) by {
        alphabet_is_printable(k);
    }
    assert forall|i: int| 0 <= i < p.len() implies is_printable(#[trigger] p[i]) by {
        let k = PASSWORD_ALPHABET@.index_of(p[i]);
        assert(PASSWORD_ALPHABET@[k] == p[i]);
    }
}

proof fn alphabet_is_printable(k: int)
    requires
        0 <= k < 70,
    ensures
        is_printable(PASSWORD_ALPHABET@[k]),
{
    reveal_strlit("ABCDEFGHIJKLMNOPQRSTUVWXYZabcdefghijklmnopqrstuvwxyz0123456789-_.+=~^*");
}

/// Each character of the alphabet stands for exactly three of the random bytes
/// that are used, so that none is more likely than another.
pub proof fn sampling_is_uniform(k: u8, b: u8)
    requires
        k < ALPHABET_LEN,
    ensures
        b < SAMPLING_LIMIT && b % ALPHABET_LEN == k <==> b == k || b == k + 70 || b == k + 140,
{
}

/// The refusal of a password says nothing of it but its length or the class of
/// one character: passwords of the same length whose first refused characters
/// are of one class are refused alike.
pub proof fn refusal_never_shows_the_password(p: Seq<char>, q: Seq<char>)
    requires
        p.len() == q.len(),
        unprintable_at(p, 0) < p.len(),
        unprintable_at(q, 0) < q.len(),
        unprintable_kind(p[unprintable_at(p, 0)]) == unprintable_kind(q[unprintable_at(q, 0)]),
    ensures
        password_problem(p) == password_problem(q),
{
}

/// A password that the caller gave is never in the result of `db create`.
pub proof fn given_password_is_withheld(s: Service, p: Seq<char>, q: Seq<char>, disk_gb: u32)
    ensures
        created_fields(s, p, false, disk_gb) == created_fields(s, q, false, disk_gb),
{
}

/// With project, region and pod given, `db create` never has to look anything
/// up: what it still needs is typed.
pub proof fn given_ids_need_no_lookup(a: CreateArgs, no_input: bool)
    requires
        a.project is Some,
        a.region is Some,
        a.pod is Some,
        need_of(a, no_input) is Ok,
    ensures
        need_of(a, no_input)->Ok_0 != Need::Project,
        need_of(a, no_input)->Ok_0 != Need::Region,
        need_of(a, no_input)->Ok_0 != Need::Pod,
{
}

} // verus!
