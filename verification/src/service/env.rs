//! `partiri service env`: show, save or replace the environment variables of
//! a service. They are never kept in `.partiri.jsonc`.
use vstd::prelude::*;
use vstd::string::*;

use crate::client::ApiEnvVar;
use crate::config::{not_created, EnvVar, PartiriConfig, ServiceConfig};
use crate::error::{validation_error_with_hint, validation_hint_of};
use crate::error::{Failure, FailureView};
use crate::output::{message_only, report, Report};
use crate::text::{
    cat2, cat3, cat4, cat5, chars_of, decimal, decimal_of, find_char, find_from, find_from_is_first,
    is_white, string_of, trim, trimmed, trimmed_keeps,
};

verus! {

/// The file that `--save` writes.
pub const SAVE_FILE: &'static str = ".env.partiri";

/// The two texts of an environment variable.
pub ghost struct VarView {
    pub key: Seq<char>,
    pub value: Seq<char>,
}

pub open spec fn vars(v: Seq<EnvVar>) -> Seq<VarView> {
    v.map_values(|e: EnvVar| VarView { key: e.key@, value: e.value@ })
}

pub open spec fn api_vars(v: Seq<ApiEnvVar>) -> Seq<VarView> {
    v.map_values(|e: ApiEnvVar| VarView { key: e.key@, value: e.value@ })
}

// ─── Lines ─────────────────────────────────────────────────────────────────

/// A line without the carriage return at its end.
pub open spec fn without_cr(s: Seq<char>) -> Seq<char> {
    if s.len() > 0 && s.last() == '\r' {
        s.drop_last()
    } else {
        s
    }
}

/// The lines of a text. A newline ends a line, with the carriage return before
/// it; after the last newline there is a line only where there is text.
pub open spec fn lines_of(s: Seq<char>) -> Seq<Seq<char>>
    decreases s.len(),
{
    if s.len() == 0 {
        seq![]
    } else {
        let k = find_from(s, '\n', 0);
        if k >= s.len() || k < 0 {
            seq![s]
        } else {
            seq![without_cr(s.take(k))] + lines_of(s.skip(k + 1))
        }
    }
}

/// The lines of `s`.
pub fn lines(s: &str) -> (r: Vec<String>)
    ensures
        crate::text::views(r@) == lines_of(s@),
{
    let cs = chars_of(s);
    let n: usize = cs.len();
    let mut out: Vec<String> = Vec::new();
    let mut from: usize = 0;
    proof {
        assert(s@.skip(0) =~= s@);
        assert(crate::text::views(out@) + lines_of(s@) =~= lines_of(s@));
    }
    while from < n
        invariant
            cs@ == s@,
            n == cs@.len(),
            from <= n,
            crate::text::views(out@) + lines_of(s@.skip(from as int)) == lines_of(s@),
        decreases n - from,
    {
        let k: usize = find_char(&cs, '\n', from);
        let ghost rest = s@.skip(from as int);
        let ghost before = crate::text::views(out@);
        proof {
            find_in_rest(s@, '\n', from as int);
            find_from_is_first(rest, '\n', 0);
        }
        if k == n {
            let line = string_of(&cs, from, n);
            out.push(line);
            proof {
                assert(s@.subrange(from as int, n as int) =~= rest);
                assert(crate::text::views(out@) =~= before.push(rest));
                assert(lines_of(rest) == seq![rest]);
                assert(s@.skip(n as int) =~= Seq::<char>::empty());
                assert(before.push(rest) + lines_of(s@.skip(n as int)) =~= before + seq![rest]);
            }
            from = n;
        } else {
            let end: usize = if k > from && cs[k - 1] == '\r' {
                k - 1
            } else {
                k
            };
            let line = string_of(&cs, from, end);
            proof {
                assert(rest.take(k - from) =~= s@.subrange(from as int, k as int));
                assert(line@ =~= without_cr(rest.take(k - from)));
                assert(rest.skip(k - from + 1) =~= s@.skip(k + 1));
            }
            out.push(line);
            proof {
                assert(crate::text::views(out@) =~= before.push(line@));
                assert(before.push(line@) + lines_of(s@.skip(k + 1)) =~= before + (seq![line@]
                    + lines_of(s@.skip(k + 1))));
            }
            from = k + 1;
        }
    }
    proof {
        assert(s@.skip(n as int) =~= Seq::<char>::empty());
        assert(crate::text::views(out@) + lines_of(s@.skip(n as int)) =~= crate::text::views(out@));
    }
    out
}

/// Searching in a suffix finds the same place.
proof fn find_in_rest(s: Seq<char>, c: char, from: int)
    requires
        0 <= from <= s.len(),
    ensures
        find_from(s.skip(from), c, 0) == find_from(s, c, from) - from,
{
    find_in_rest_at(s, c, from, 0);
}

proof fn find_in_rest_at(s: Seq<char>, c: char, from: int, at: int)
    requires
        0 <= from <= s.len(),
        0 <= at <= s.len() - from,
    ensures
        find_from(s.skip(from), c, at) == find_from(s, c, from + at) - from,
    decreases s.len() - from - at,
{
    if at < s.len() - from {
        if s.skip(from)[at] != c {
            find_in_rest_at(s, c, from, at + 1);
        }
    }
}

// ─── Reading ───────────────────────────────────────────────────────────────

/// A value without the pair of quotes around it.
pub open spec fn unquoted(s: Seq<char>) -> Seq<char> {
    if s.len() >= 2 && ((s[0] == '"' && s.last() == '"') || (s[0] == '\'' && s.last() == '\'')) {
        s.subrange(1, s.len() - 1)
    } else {
        s
    }
}

pub fn strip_quotes(s: &str) -> (r: &str)
    ensures
        r@ == unquoted(s@),
{
    let cs = chars_of(s);
    let n: usize = cs.len();
    if n >= 2 {
        let first = cs[0];
        let last = cs[n - 1];
        if (first == '"' && last == '"') || (first == '\'' && last == '\'') {
            return s.substring_char(1, n - 1);
        }
    }
    s
}

/// What one line of a dotenv file means.
pub ghost enum LineMeaning {
    /// A blank line or a comment.
    Nothing,
    /// A variable.
    Var(VarView),
    /// No variable: the error.
    Bad(Seq<char>),
}

/// The meaning of the line with the given number, counted from 1.
pub open spec fn line_meaning(line: Seq<char>, number: nat) -> LineMeaning {
    let t = trimmed(line);
    let eq = find_from(t, '=', 0);
    if t.len() == 0 || t[0] == '#' {
        LineMeaning::Nothing
    } else if eq >= t.len() {
        LineMeaning::Bad(
            "Line "@ + decimal_of(number) + ": expected 'KEY=value', got: "@ + t,
        )
    } else if trimmed(t.take(eq)).len() == 0 {
        LineMeaning::Bad("Line "@ + decimal_of(number) + ": empty key"@)
    } else {
        LineMeaning::Var(
            VarView { key: trimmed(t.take(eq)), value: unquoted(trimmed(t.skip(eq + 1))) },
        )
    }
}

/// The variables of the first `n` lines, or the error of the first line among
/// them that is in error.
pub open spec fn vars_upto(lines: Seq<Seq<char>>, n: nat) -> Result<Seq<VarView>, Seq<char>>
    decreases n,
{
    if n == 0 {
        Ok(seq![])
    } else {
        match vars_upto(lines, (n - 1) as nat) {
            Err(e) => Err(e),
            Ok(v) => match line_meaning(lines[n - 1], n) {
                LineMeaning::Nothing => Ok(v),
                LineMeaning::Var(x) => Ok(v.push(x)),
                LineMeaning::Bad(e) => Err(e),
            },
        }
    }
}

/// The variables of a dotenv text.
pub open spec fn dotenv_of(raw: Seq<char>) -> Result<Seq<VarView>, Seq<char>> {
    vars_upto(lines_of(raw), lines_of(raw).len())
}

/// An error stays the error, however many lines follow.
proof fn error_stays(lines: Seq<Seq<char>>, a: nat, b: nat)
    requires
        a <= b,
        vars_upto(lines, a) is Err,
    ensures
        vars_upto(lines, b) == vars_upto(lines, a),
    decreases b - a,
{
    if a < b {
        error_stays(lines, a, (b - 1) as nat);
    }
}

/// Parse a dotenv file: `KEY=value` lines, blank lines, `#` comments, and an
/// optional pair of quotes around a value. A value cannot span lines.
pub fn parse_dotenv(raw: &str) -> (r: Result<Vec<EnvVar>, Failure>)
    ensures
        match dotenv_of(raw@) {
            Ok(v) => r is Ok && vars(r->Ok_0@) == v,
            Err(e) => r is Err && r->Err_0@ == FailureView::Text(e),
        },
{
    let all = lines(raw);
    let ghost texts = lines_of(raw@);
    let mut out: Vec<EnvVar> = Vec::new();
    assert(vars(out@) =~= seq![]);
    for i in 0..all.len()
        invariant
            texts == lines_of(raw@),
            crate::text::views(all@) == texts,
            vars_upto(texts, i as nat) is Ok,
            vars(out@) == vars_upto(texts, i as nat)->Ok_0,
    {
        let ghost before = vars(out@);
        let ghost n = (i + 1) as nat;
        assert(texts[i as int] == all@[i as int]@);
        let line = trim(all[i].as_str());
        let cs = chars_of(line);
        if !(cs.len() == 0 || cs[0] == '#') {
            let number = decimal(i as u64 + 1);
            let eq: usize = find_char(&cs, '=', 0);
            if eq == cs.len() {
                proof {
                    error_stays(texts, n, texts.len());
                }
                return Err(
                    Failure::Text(
                        cat4("Line ", number.as_str(), ": expected 'KEY=value', got: ", line),
                    ),
                );
            }
            let before_eq = line.substring_char(0, eq);
            let after_eq = line.substring_char(eq + 1, cs.len());
            proof {
                assert(line@.subrange(0, eq as int) =~= line@.take(eq as int));
                assert(line@.subrange(eq + 1, line@.len() as int) =~= line@.skip(eq + 1));
            }
            let key = trim(before_eq);
            if key.is_empty() {
                proof {
                    error_stays(texts, n, texts.len());
                }
                return Err(Failure::Text(cat3("Line ", number.as_str(), ": empty key")));
            }
            let value = strip_quotes(trim(after_eq));
            let ghost x = VarView { key: key@, value: value@ };
            out.push(EnvVar { key: key.to_owned(), value: value.to_owned() });
            assert(vars(out@) =~= before.push(x));
        }
    }
    Ok(out)
}

// ─── Writing ───────────────────────────────────────────────────────────────

/// The characters that put a value in quotes.
pub open spec fn is_special(c: char) -> bool {
    c == ' ' || c == '\t' || c == '#' || c == '"' || c == '\'' || c == '\\' || c == '=' || c == '\n'
}

pub open spec fn needs_quoting(v: Seq<char>) -> bool {
    v.len() == 0 || exists|i: int| 0 <= i < v.len() && is_special(#[trigger] v[i])
}

/// How one character stands inside quotes.
pub open spec fn escaped_char(c: char) -> Seq<char> {
    if c == '"' {
        seq!['\\', '"']
    } else if c == '\\' {
        seq!['\\', '\\']
    } else if c == '\n' {
        seq!['\\', 'n']
    } else {
        seq![c]
    }
}

pub open spec fn escaped(v: Seq<char>) -> Seq<char>
    decreases v.len(),
{
    if v.len() == 0 {
        seq![]
    } else {
        escaped(v.drop_last()) + escaped_char(v.last())
    }
}

/// A value as it stands in the file.
pub open spec fn quoted(v: Seq<char>) -> Seq<char> {
    if needs_quoting(v) {
        (seq!['"'] + escaped(v)).push('"')
    } else {
        v
    }
}

/// `KEY=value` of one variable, without the newline.
pub open spec fn var_line(x: VarView) -> Seq<char> {
    x.key.push('=') + quoted(x.value)
}

/// The dotenv text of some variables.
pub open spec fn dotenv_text(v: Seq<VarView>) -> Seq<char>
    decreases v.len(),
{
    if v.len() == 0 {
        seq![]
    } else {
        (dotenv_text(v.drop_last()) + var_line(v.last())).push('\n')
    }
}

fn must_quote(cs: &Vec<char>) -> (r: bool)
    ensures
        r == needs_quoting(cs@),
{
    if cs.len() == 0 {
        return true;
    }
    for i in 0..cs.len()
        invariant
            cs@.len() > 0,
            forall|k: int| 0 <= k < i ==> !is_special(#[trigger] cs@[k]),
    {
        let c = cs[i];
        if c == ' ' || c == '\t' || c == '#' || c == '"' || c == '\'' || c == '\\' || c == '=' || c
            == '\n' {
            assert(is_special(cs@[i as int]));
            return true;
        }
    }
    false
}

pub fn dotenv_quote(value: &str) -> (r: String)
    ensures
        r@ == quoted(value@),
{
    let cs = chars_of(value);
    if !must_quote(&cs) {
        return value.to_owned();
    }
    let mut out = String::new();
    out.push('"');
    assert(out@ =~= seq!['"'] + escaped(value@.take(0)));
    for i in 0..cs.len()
        invariant
            cs@ == value@,
            out@ == seq!['"'] + escaped(value@.take(i as int)),
    {
        let c = cs[i];
        let ghost before = out@;
        if c == '"' {
            out.push('\\');
            out.push('"');
        } else if c == '\\' {
            out.push('\\');
            out.push('\\');
        } else if c == '\n' {
            out.push('\\');
            out.push('n');
        } else {
            out.push(c);
        }
        proof {
            assert(value@.take(i + 1).drop_last() =~= value@.take(i as int));
            assert(out@ =~= before + escaped_char(c));
            assert(out@ =~= seq!['"'] + escaped(value@.take(i + 1)));
        }
    }
    assert(value@.take(value@.len() as int) =~= value@);
    out.push('"');
    out
}

/// Render variables as a dotenv file. A value is put in double quotes where it
/// is empty or holds a special character, with `"`, `\` and newlines escaped.
pub fn format_dotenv(env: &Vec<ApiEnvVar>) -> (r: String)
    ensures
        r@ == dotenv_text(api_vars(env@)),
{
    let mut out = String::new();
    let ghost all = api_vars(env@);
    assert(out@ =~= dotenv_text(all.take(0)));
    for i in 0..env.len()
        invariant
            all == api_vars(env@),
            out@ == dotenv_text(all.take(i as int)),
    {
        let var = &env[i];
        let ghost before = out@;
        let value = dotenv_quote(var.value.as_str());
        out.append(var.key.as_str());
        out.push('=');
        out.append(value.as_str());
        out.push('\n');
        proof {
            assert(all.take(i + 1).drop_last() =~= all.take(i as int));
            assert(all.take(i + 1).last() == all[i as int]);
            assert(out@ =~= (before + var_line(all[i as int])).push('\n'));
        }
    }
    assert(all.take(all.len() as int) =~= all);
    out
}

// ─── Laws ──────────────────────────────────────────────────────────────────

/// A variable that survives being written and read: a key that reads as a key,
/// and a value without `"`, `\` or newlines, which either goes into quotes or
/// has no whitespace at its ends.
pub open spec fn is_plain(x: VarView) -> bool {
    &&& x.key.len() > 0
    &&& x.key[0] != '#'
    &&& trimmed(x.key) == x.key
    &&& !x.key.contains('=')
    &&& !x.key.contains('\n')
    &&& !x.value.contains('"')
    &&& !x.value.contains('\\')
    &&& !x.value.contains('\n')
    &&& needs_quoting(x.value) || trimmed(x.value) == x.value
}

proof fn plain_is_not_escaped(v: Seq<char>)
    requires
        !v.contains('"'),
        !v.contains('\\'),
        !v.contains('\n'),
    ensures
        escaped(v) == v,
    decreases v.len(),
{
    if v.len() > 0 {
        let front = v.drop_last();
        assert forall|c: char| front.contains(c) implies v.contains(c) by {
            let i = front.index_of(c);
            assert(v[i] == c);
        }
        plain_is_not_escaped(front);
        assert(v.contains(v[v.len() - 1]));
        assert(v =~= front + seq![v.last()]);
    } else {
        assert(v =~= seq![]);
    }
}

/// The lines of a text that ends a line, with one more line behind it.
proof fn lines_append(a: Seq<char>, line: Seq<char>)
    requires
        a.len() == 0 || a.last() == '\n',
        !line.contains('\n'),
        line.len() > 0,
        line.last() != '\r',
    ensures
        lines_of((a + line).push('\n')) == lines_of(a).push(line),
    decreases a.len(),
{
    let s = (a + line).push('\n');
    let k = find_from(s, '\n', 0);
    find_from_is_first(s, '\n', 0);
    if a.len() == 0 {
        assert(s =~= line.push('\n'));
        assert(s[line.len() as int] == '\n');
        if k < line.len() {
            assert(line[k] == '\n');
            assert(line.contains(line[k]));
        }
        assert(k == line.len());
        assert(s.take(k) =~= line);
        assert(s.skip(k + 1) =~= Seq::<char>::empty());
        assert(lines_of(s.skip(k + 1)) =~= seq![]);
        assert(lines_of(s) =~= seq![line]);
        assert(lines_of(a) =~= seq![]);
        assert(lines_of(a).push(line) =~= seq![line]);
    } else {
        let j = find_from(a, '\n', 0);
        find_from_is_first(a, '\n', 0);
        assert(a[a.len() - 1] == '\n');
        assert(j < a.len());
        assert(s[j] == a[j]);
        assert(k <= j);
        if k < j {
            assert(s[k] == a[k]);
        }
        assert(k == j);
        let rest = a.skip(k + 1);
        assert(s.take(k) =~= a.take(k));
        assert(s.skip(k + 1) =~= (rest + line).push('\n'));
        if rest.len() > 0 {
            assert(rest.last() == a.last());
        }
        lines_append(rest, line);
        assert(lines_of(s) =~= lines_of(a).push(line));
    }
}

proof fn var_line_reads_back(x: VarView, number: nat)
    requires
        is_plain(x),
    ensures
        line_meaning(var_line(x), number) == LineMeaning::Var(x),
        !var_line(x).contains('\n'),
        var_line(x).len() > 0,
        var_line(x).last() != '\r',
{
    let q = quoted(x.value);
    let line = var_line(x);
    plain_is_not_escaped(x.value);
    crate::text::trimmed_ends(x.key);
    assert(!is_white(x.key[0]));
    let eq = x.key.len() as int;
    if needs_quoting(x.value) {
        assert(q =~= (seq!['"'] + x.value).push('"'));
        assert(q.last() == '"');
        assert(q[0] == '"');
        assert(q.subrange(1, q.len() - 1) =~= x.value);
        assert(unquoted(q) == x.value);
        trimmed_keeps(q);
    } else {
        crate::text::trimmed_ends(x.value);
        assert(!is_special(q[0]));
        assert(unquoted(q) == q);
    }
    assert(trimmed(q) == q);
    assert(q.len() > 0);
    assert(!is_white(q.last()));
    assert(line.last() == q.last());
    assert(line[0] == x.key[0]);
    trimmed_keeps(line);
    find_from_is_first(line, '=', 0);
    assert(line[eq] == '=');
    let found = find_from(line, '=', 0);
    if found < eq {
        assert(x.key[found] == '=');
        assert(x.key.contains(x.key[found]));
    }
    assert(found == eq);
    assert(line.take(eq) =~= x.key);
    assert(line.skip(eq + 1) =~= q);
    if line.contains('\n') {
        let i = line.index_of('\n');
        if i < eq {
            assert(x.key[i] == '\n');
            assert(x.key.contains(x.key[i]));
        } else if i > eq {
            assert(q[i - eq - 1] == '\n');
            if needs_quoting(x.value) {
                assert(x.value[i - eq - 2] == '\n');
                assert(x.value.contains(x.value[i - eq - 2]));
            } else {
                assert(x.value[i - eq - 1] == '\n');
                assert(x.value.contains(x.value[i - eq - 1]));
            }
        }
    }
}

proof fn text_lines(v: Seq<VarView>)
    requires
        forall|i: int| 0 <= i < v.len() ==> is_plain(#[trigger] v[i]),
    ensures
        lines_of(dotenv_text(v)) == v.map_values(|x: VarView| var_line(x)),
        dotenv_text(v).len() == 0 || dotenv_text(v).last() == '\n',
    decreases v.len(),
{
    let all = v.map_values(|x: VarView| var_line(x));
    if v.len() == 0 {
        assert(all =~= seq![]);
    } else {
        let front = v.drop_last();
        assert forall|i: int| 0 <= i < front.len() implies is_plain(#[trigger] front[i]) by {
            assert(front[i] == v[i]);
        }
        text_lines(front);
        assert(is_plain(v[v.len() - 1]));
        var_line_reads_back(v.last(), v.len());
        lines_append(dotenv_text(front), var_line(v.last()));
        assert(all =~= front.map_values(|x: VarView| var_line(x)).push(var_line(v.last())));
    }
}

proof fn vars_read_back(v: Seq<VarView>, n: nat)
    requires
        forall|i: int| 0 <= i < v.len() ==> is_plain(#[trigger] v[i]),
        n <= v.len(),
    ensures
        vars_upto(v.map_values(|x: VarView| var_line(x)), n) == Ok::<Seq<VarView>, Seq<char>>(
            v.take(n as int),
        ),
    decreases n,
{
    let all = v.map_values(|x: VarView| var_line(x));
    if n == 0 {
        assert(v.take(0) =~= seq![]);
    } else {
        vars_read_back(v, (n - 1) as nat);
        assert(is_plain(v[n - 1]));
        var_line_reads_back(v[n - 1], n);
        assert(all[n - 1] == var_line(v[n - 1]));
        assert(v.take(n as int) =~= v.take(n - 1).push(v[n - 1]));
    }
}

/// What was written reads back as it was, for plain variables.
pub proof fn dotenv_round_trip(v: Seq<VarView>)
    requires
        forall|i: int| 0 <= i < v.len() ==> is_plain(#[trigger] v[i]),
    ensures
        dotenv_of(dotenv_text(v)) == Ok::<Seq<VarView>, Seq<char>>(v),
{
    text_lines(v);
    vars_read_back(v, v.len());
    assert(v.take(v.len() as int) =~= v);
}

proof fn vars_are_single_line(lines: Seq<Seq<char>>, n: nat)
    requires
        n <= lines.len(),
        forall|i: int| 0 <= i < lines.len() ==> !(#[trigger] lines[i]).contains('\n'),
        vars_upto(lines, n) is Ok,
    ensures
        forall|i: int|
            0 <= i < vars_upto(lines, n)->Ok_0.len() ==> {
                let x = #[trigger] vars_upto(lines, n)->Ok_0[i];
                x.key.len() > 0 && !x.value.contains('\n')
            },
    decreases n,
{
    if n > 0 {
        vars_are_single_line(lines, (n - 1) as nat);
        let line = lines[n - 1];
        assert(!line.contains('\n'));
        let t = trimmed(line);
        let eq = find_from(t, '=', 0);
        find_from_is_first(t, '=', 0);
        if line_meaning(line, n) is Var {
            trimmed_has_only_its_chars(line);
            let rest = t.skip(eq + 1);
            trimmed_has_only_its_chars(rest);
            let x = line_meaning(line, n)->Var_0;
            if x.value.contains('\n') {
                let i = x.value.index_of('\n');
                let w = trimmed(rest);
                assert(w.contains('\n')) by {
                    if unquoted(w) == w {
                        assert(w[i] == '\n');
                    } else {
                        assert(w[i + 1] == '\n');
                    }
                }
                let j = rest.index_of('\n');
                assert(t[eq + 1 + j] == '\n');
                assert(t.contains('\n'));
            }
        }
        let before = vars_upto(lines, (n - 1) as nat)->Ok_0;
        let now = vars_upto(lines, n)->Ok_0;
        assert forall|i: int| 0 <= i < now.len() implies {
            let x = #[trigger] now[i];
            x.key.len() > 0 && !x.value.contains('\n')
        } by {
            if i < before.len() {
                assert(now[i] == before[i]);
            }
        }
    }
}

proof fn trimmed_has_only_its_chars(s: Seq<char>)
    ensures
        forall|c: char| #[trigger] trimmed(s).contains(c) ==> s.contains(c),
{
    trim_start_only(s);
    trim_end_only(crate::text::trim_start_of(s));
}

proof fn trim_start_only(s: Seq<char>)
    ensures
        forall|c: char| #[trigger] crate::text::trim_start_of(s).contains(c) ==> s.contains(c),
    decreases s.len(),
{
    if s.len() > 0 && is_white(s[0]) {
        trim_start_only(s.drop_first());
        assert forall|c: char| #[trigger]
            crate::text::trim_start_of(s).contains(c) implies s.contains(c) by {
            assert(crate::text::trim_start_of(s.drop_first()).contains(c));
            let i = s.drop_first().index_of(c);
            assert(s[i + 1] == c);
        }
    }
}

proof fn trim_end_only(s: Seq<char>)
    ensures
        forall|c: char| #[trigger] crate::text::trim_end_of(s).contains(c) ==> s.contains(c),
    decreases s.len(),
{
    if s.len() > 0 && is_white(s.last()) {
        trim_end_only(s.drop_last());
        assert forall|c: char| #[trigger]
            crate::text::trim_end_of(s).contains(c) implies s.contains(c) by {
            assert(crate::text::trim_end_of(s.drop_last()).contains(c));
            let i = s.drop_last().index_of(c);
            assert(s[i] == c);
        }
    }
}

proof fn lines_hold_no_newline(s: Seq<char>)
    ensures
        forall|i: int| 0 <= i < lines_of(s).len() ==> !(#[trigger] lines_of(s)[i]).contains('\n'),
    decreases s.len(),
{
    if s.len() > 0 {
        let k = find_from(s, '\n', 0);
        find_from_is_first(s, '\n', 0);
        if k < s.len() {
            let line = without_cr(s.take(k));
            assert(!line.contains('\n')) by {
                if line.contains('\n') {
                    let i = line.index_of('\n');
                    assert(s[i] == '\n');
                }
            }
            lines_hold_no_newline(s.skip(k + 1));
            let rest = lines_of(s.skip(k + 1));
            assert forall|i: int| 0 <= i < lines_of(s).len() implies !(
            #[trigger] lines_of(s)[i]).contains('\n') by {
                if i > 0 {
                    assert(lines_of(s)[i] == rest[i - 1]);
                }
            }
        } else {
            if s.contains('\n') {
                let i = s.index_of('\n');
                assert(s[i] == '\n');
            }
        }
    }
}

/// A file that parses gives variables with a key, and no value spans lines.
pub proof fn parsed_vars_are_single_line(raw: Seq<char>)
    requires
        dotenv_of(raw) is Ok,
    ensures
        forall|i: int|
            0 <= i < dotenv_of(raw)->Ok_0.len() ==> {
                let x = #[trigger] dotenv_of(raw)->Ok_0[i];
                x.key.len() > 0 && !x.value.contains('\n')
            },
{
    lines_hold_no_newline(raw);
    vars_are_single_line(lines_of(raw), lines_of(raw).len());
}

// ─── The command ───────────────────────────────────────────────────────────

/// What `service env` does.
#[derive(Debug)]
pub enum EnvAction {
    /// Write the variables of the service to [`SAVE_FILE`].
    Save,
    /// Replace the variables of the service by those of this file.
    Replace(String),
    /// Print the variables of the service.
    Show,
}

/// Which of the three the flags ask for: `--save` first, then `--path`.
pub fn run(config: &PartiriConfig, path: Option<String>, save: bool) -> (r: Result<
    EnvAction,
    Failure,
>)
    ensures
        r is Ok <==> config.id is Some,
        r is Err ==> r->Err_0@ == not_created(),
        r is Ok ==> (r->Ok_0 is Save <==> save),
        r is Ok && !save ==> match path {
            Some(p) => r->Ok_0 == EnvAction::Replace(p),
            None => r->Ok_0 is Show,
        },
{
    match config.id_or_err() {
        Err(e) => Err(e),
        Ok(_) => {
            if save {
                Ok(EnvAction::Save)
            } else {
                match path {
                    Some(p) => Ok(EnvAction::Replace(p)),
                    None => Ok(EnvAction::Show),
                }
            }
        },
    }
}

/// A row of the table of variables.
#[derive(Debug)]
pub struct EnvRow {
    pub key: String,
    pub value: String,
}

/// The rows of the table: one per variable, none where the service has no
/// list.
pub fn env_rows(env: &Option<Vec<ApiEnvVar>>) -> (r: Vec<EnvRow>)
    ensures
        env is None ==> r@.len() == 0,
        env matches Some(v) ==> r@.len() == v@.len() && forall|i: int|
            0 <= i < r@.len() ==> (#[trigger] r@[i]).key == v@[i].key && r@[i].value == v@[i].value,
{
    let mut out: Vec<EnvRow> = Vec::new();
    match env {
        Some(v) => {
            for i in 0..v.len()
                invariant
                    out@.len() == i,
                    forall|k: int|
                        0 <= k < i ==> (#[trigger] out@[k]).key == v@[k].key && out@[k].value
                            == v@[k].value,
            {
                out.push(EnvRow { key: v[i].key.clone(), value: v[i].value.clone() });
            }
        },
        None => {},
    }
    out
}

/// `variable`, with an `s` unless there is exactly one.
pub open spec fn counted(n: nat) -> Seq<char> {
    decimal_of(n) + " variable"@ + (if n == 1 {
        ""@
    } else {
        "s"@
    })
}

fn count_text(n: usize) -> (r: String)
    ensures
        r@ == counted(n as nat),
{
    let d = decimal(n as u64);
    cat3(
        d.as_str(),
        " variable",
        if n == 1 {
            ""
        } else {
            "s"
        },
    )
}

/// The report on `n` variables that were saved.
pub fn saved_report(n: usize) -> (r: Report)
    ensures
        r@ == message_only("Saved "@ + counted(n as nat) + " to "@ + SAVE_FILE@ + "."@),
{
    let c = count_text(n);
    report(cat5("Saved ", c.as_str(), " to ", SAVE_FILE, "."))
}

/// What was found at the path of a dotenv file.
#[derive(Debug)]
pub enum EnvFile {
    /// No file.
    Missing,
    /// A file that cannot be read: the reason.
    Unreadable(String),
    /// The text of the file.
    Text(String),
}

/// The variables of the file to upload.
pub fn replacement(path: &str, file: EnvFile) -> (r: Result<Vec<EnvVar>, Failure>)
    ensures
        match file {
            EnvFile::Missing => r is Err && r->Err_0@ == FailureView::Cli(
                validation_hint_of(
                    "File not found: "@ + path@,
                    "Pass --path to a real .env file, or omit --path to print current env vars."@,
                ),
            ),
            EnvFile::Unreadable(why) => r is Err && r->Err_0@ == FailureView::Text(
                "Failed to read "@ + path@ + ": "@ + why@,
            ),
            EnvFile::Text(raw) => match dotenv_of(raw@) {
                Ok(v) => r is Ok && vars(r->Ok_0@) == v,
                Err(e) => r is Err && r->Err_0@ == FailureView::Text(e),
            },
        },
{
    match file {
        EnvFile::Missing => {
            let message = cat2("File not found: ", path);
            Err(
                validation_error_with_hint(
                    message.as_str(),
                    "Pass --path to a real .env file, or omit --path to print current env vars.",
                ),
            )
        },
        EnvFile::Unreadable(why) => Err(
            Failure::Text(cat4("Failed to read ", path, ": ", why.as_str())),
        ),
        EnvFile::Text(raw) => parse_dotenv(raw.as_str()),
    }
}

/// The configuration that carries the new variables, for upload.
pub fn with_env(config: PartiriConfig, env: Vec<EnvVar>) -> (r: PartiriConfig)
    ensures
        r == (PartiriConfig {
            service: ServiceConfig { env: Some(env), ..config.service },
            ..config
        }),
{
    let mut out = config;
    out.service.env = Some(env);
    out
}

/// The report on `n` variables that replaced those of the service.
pub fn replaced_report(service_id: &str, n: usize) -> (r: Report)
    ensures
        r@ == message_only(
            "Replaced env on service "@ + service_id@ + " ("@ + counted(n as nat) + ")."@,
        ),
{
    let c = count_text(n);
    report(cat5("Replaced env on service ", service_id, " (", c.as_str(), ")."))
}

} // verus!
