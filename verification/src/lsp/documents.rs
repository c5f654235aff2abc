//! Open documents, and the conversion between byte offsets and positions.
//! Positions count lines, and UTF-16 code units within a line.
use vstd::prelude::*;
use vstd::string::*;

use crate::lsp::diagnostics::{append_diags, copy_diags, diags_view, DiagView, Diagnostic};
use crate::text::{
    byte_len, chars_of, find_char, find_from, find_from_is_first, len_in_bytes, len_utf16, len_utf8,
    utf16_width, utf8_width,
};

verus! {

/// A place in a document.
#[derive(Debug, Clone, Copy, PartialEq, Eq, Structural)]
pub struct Position {
    pub line: u32,
    /// In UTF-16 code units.
    pub character: u32,
}

// ─── Open documents ────────────────────────────────────────────────────────

/// The latest state of an open document.
#[derive(Debug)]
pub struct DocState {
    pub text: String,
    /// From the local pass.
    pub local_diags: Vec<Diagnostic>,
    /// From the last remote checks. An edit drops them: they are about another
    /// text.
    pub remote_diags: Vec<Diagnostic>,
}

pub ghost struct DocView {
    pub text: Seq<char>,
    pub local: Seq<DiagView>,
    pub remote: Seq<DiagView>,
}

impl View for DocState {
    type V = DocView;

    open spec fn view(&self) -> DocView {
        DocView {
            text: self.text@,
            local: diags_view(self.local_diags@),
            remote: diags_view(self.remote_diags@),
        }
    }
}

impl DocState {
    /// All diagnostics, the local ones first.
    pub fn merged_diags(&self) -> (r: Vec<Diagnostic>)
        ensures
            diags_view(r@) == self@.local + self@.remote,
    {
        let mut all = copy_diags(&self.local_diags);
        append_diags(&mut all, copy_diags(&self.remote_diags));
        all
    }
}

// ─── Offsets and characters ────────────────────────────────────────────────

/// How many characters, from the `from`th on, lie before a byte offset.
pub open spec fn chars_before_from(s: Seq<char>, offset: int, from: int) -> int
    decreases s.len() - from,
{
    if from < 0 || from >= s.len() {
        from
    } else if byte_len(s.take(from + 1)) <= offset {
        chars_before_from(s, offset, from + 1)
    } else {
        from
    }
}

/// How many characters of `s` lie before a byte offset. An offset inside a
/// character counts as the start of it.
pub open spec fn chars_before(s: Seq<char>, offset: int) -> int {
    chars_before_from(s, offset, 0)
}

pub proof fn byte_len_step(s: Seq<char>, k: int)
    requires
        0 <= k < s.len(),
    ensures
        byte_len(s.take(k + 1)) == byte_len(s.take(k)) + utf8_width(s[k]),
{
    assert(s.take(k + 1).drop_last() =~= s.take(k));
}

pub proof fn byte_len_monotone(s: Seq<char>, a: int, b: int)
    requires
        0 <= a <= b <= s.len(),
    ensures
        byte_len(s.take(a)) + (b - a) <= byte_len(s.take(b)),
    decreases b - a,
{
    if a < b {
        byte_len_monotone(s, a, b - 1);
        byte_len_step(s, b - 1);
    }
}

/// The characters before an offset are those that end at or before it.
pub proof fn chars_before_from_range(s: Seq<char>, offset: int, from: int)
    requires
        0 <= from <= s.len(),
        byte_len(s.take(from)) <= offset,
    ensures
        from <= chars_before_from(s, offset, from) <= s.len(),
        byte_len(s.take(chars_before_from(s, offset, from))) <= offset,
        chars_before_from(s, offset, from) < s.len() ==> byte_len(
            s.take(chars_before_from(s, offset, from) + 1),
        ) > offset,
    decreases s.len() - from,
{
    if from < s.len() && byte_len(s.take(from + 1)) <= offset {
        chars_before_from_range(s, offset, from + 1);
    }
}

pub proof fn chars_before_range(s: Seq<char>, offset: int)
    requires
        offset >= 0,
    ensures
        0 <= chars_before(s, offset) <= s.len(),
        byte_len(s.take(chars_before(s, offset))) <= offset,
        chars_before(s, offset) < s.len() ==> byte_len(s.take(chars_before(s, offset) + 1))
            > offset,
{
    assert(s.take(0) =~= Seq::<char>::empty());
    chars_before_from_range(s, offset, 0);
}

/// The offset of a character finds that character.
pub proof fn chars_before_at(s: Seq<char>, k: int)
    requires
        0 <= k <= s.len(),
    ensures
        chars_before(s, byte_len(s.take(k)) as int) == k,
{
    let o = byte_len(s.take(k)) as int;
    chars_before_range(s, o);
    let j = chars_before(s, o);
    if j < k {
        byte_len_monotone(s, j + 1, k);
    } else if j > k {
        byte_len_monotone(s, k, j);
    }
}

/// How many characters of `cs` lie before a byte offset, and how many bytes
/// these take.
pub fn floor_char(cs: &Vec<char>, offset: usize) -> (r: (usize, usize))
    ensures
        r.0 as int == chars_before(cs@, offset as int),
        r.0 <= cs@.len(),
        r.1 == byte_len(cs@.take(r.0 as int)),
        r.1 <= offset,
{
    let mut k: usize = 0;
    let mut used: usize = 0;
    assert(cs@.take(0) =~= Seq::<char>::empty());
    while k < cs.len()
        invariant
            k <= cs@.len(),
            used == byte_len(cs@.take(k as int)),
            used <= offset,
            chars_before(cs@, offset as int) == chars_before_from(cs@, offset as int, k as int),
        decreases cs@.len() - k,
    {
        proof {
            byte_len_step(cs@, k as int);
        }
        let w: usize = len_utf8(cs[k]);
        if w > offset - used {
            return (k, used);
        }
        used += w;
        k += 1;
    }
    (k, used)
}

// ─── Lines ─────────────────────────────────────────────────────────────────

/// How many newlines `s` holds.
pub open spec fn newlines(s: Seq<char>) -> nat
    decreases s.len(),
{
    if s.len() == 0 {
        0
    } else {
        newlines(s.drop_last()) + (if s.last() == '\n' {
            1nat
        } else {
            0nat
        })
    }
}

/// Where the line that the `k`th character is on begins: behind the last
/// newline before it.
pub open spec fn line_begin(s: Seq<char>, k: int) -> int
    decreases k,
{
    if k <= 0 || k > s.len() {
        0
    } else if s[k - 1] == '\n' {
        k
    } else {
        line_begin(s, k - 1)
    }
}

/// UTF-16 code units that `s` takes.
pub open spec fn utf16_len(s: Seq<char>) -> nat
    decreases s.len(),
{
    if s.len() == 0 {
        0
    } else {
        utf16_len(s.drop_last()) + utf16_width(s.last())
    }
}

pub proof fn line_begin_range(s: Seq<char>, k: int)
    requires
        0 <= k <= s.len(),
    ensures
        0 <= line_begin(s, k) <= k,
        line_begin(s, k) > 0 ==> s[line_begin(s, k) - 1] == '\n',
        forall|j: int| line_begin(s, k) <= j < k ==> s[j] != '\n',
    decreases k,
{
    if k > 0 && s[k - 1] != '\n' {
        line_begin_range(s, k - 1);
    }
}

proof fn newlines_step(s: Seq<char>, k: int)
    requires
        0 <= k < s.len(),
    ensures
        newlines(s.take(k + 1)) == newlines(s.take(k)) + (if s[k] == '\n' {
            1nat
        } else {
            0nat
        }),
{
    assert(s.take(k + 1).drop_last() =~= s.take(k));
}

/// A stretch without newlines stays on one line.
proof fn same_line(s: Seq<char>, a: int, b: int)
    requires
        0 <= a <= b <= s.len(),
        forall|j: int| a <= j < b ==> s[j] != '\n',
    ensures
        newlines(s.take(b)) == newlines(s.take(a)),
        a > 0 && s[a - 1] == '\n' ==> line_begin(s, b) == a,
        a == 0 ==> line_begin(s, b) == 0,
    decreases b - a,
{
    if a < b {
        same_line(s, a, b - 1);
        newlines_step(s, b - 1);
    }
}

/// The place of the `k`th character.
pub open spec fn place_of(s: Seq<char>, k: int) -> (nat, nat) {
    (newlines(s.take(k)), utf16_len(s.subrange(line_begin(s, k), k)))
}

/// The position of a byte offset. An offset behind the end is the end.
pub open spec fn position_of(s: Seq<char>, offset: int) -> Position {
    let (line, column) = place_of(s, chars_before(s, offset));
    Position {
        line: #[verifier::truncate] (line as u32),
        character: #[verifier::truncate] (column as u32),
    }
}

/// The positions of the two ends of a stretch.
pub open spec fn range_of(s: Seq<char>, start: int, end: int) -> (Position, Position) {
    (position_of(s, start), position_of(s, end))
}

/// Where the `n`th line begins.
pub open spec fn nth_start(s: Seq<char>, n: nat) -> int
    decreases n,
{
    if n == 0 {
        0
    } else {
        find_from(s, '\n', nth_start(s, (n - 1) as nat)) + 1
    }
}

/// How far so many UTF-16 code units reach from the `k`th character on: only
/// over whole characters, and not over the end.
pub open spec fn walked(s: Seq<char>, k: int, end: int, units: int) -> int
    decreases end - k,
{
    if k >= end || units < utf16_width(s[k]) {
        k
    } else {
        walked(s, k + 1, end, units - utf16_width(s[k]))
    }
}

/// The byte offset of a position. A position behind the end of its line is the
/// end of the line, and a line behind the last is the end of the text.
pub open spec fn offset_of(s: Seq<char>, pos: Position) -> int {
    if pos.line > newlines(s) {
        byte_len(s) as int
    } else {
        let start = nth_start(s, pos.line as nat);
        let end = find_from(s, '\n', start);
        byte_len(s.take(walked(s, start, end, pos.character as int))) as int
    }
}

/// Where each line of a document begins, in characters and in bytes.
#[derive(Debug)]
pub struct LineIndex {
    char_starts: Vec<usize>,
    line_starts: Vec<usize>,
}

impl LineIndex {
    /// The index belongs to the text: entry `i` is the place behind the `i`th
    /// newline, and the first is the start.
    pub closed spec fn wf(&self, s: Seq<char>) -> bool {
        let c = self.char_starts@;
        let b = self.line_starts@;
        &&& c.len() == b.len()
        &&& c.len() > 0
        &&& c[0] == 0
        &&& c.len() == newlines(s) + 1
        &&& forall|i: int|
            0 <= i < c.len() ==> {
                &&& 0 <= #[trigger] c[i] <= s.len()
                &&& b[i] == byte_len(s.take(c[i] as int))
                &&& newlines(s.take(c[i] as int)) == i
                &&& i > 0 ==> c[i] > 0 && s[c[i] - 1] == '\n'
            }
    }

    /// The index of a text.
    pub fn new(text: &str) -> (r: LineIndex)
        ensures
            r.wf(text@),
    {
        let cs = chars_of(text);
        let total: usize = len_in_bytes(text);
        let ghost s = text@;
        let mut char_starts: Vec<usize> = Vec::new();
        let mut line_starts: Vec<usize> = Vec::new();
        char_starts.push(0);
        line_starts.push(0);
        let mut used: usize = 0;
        proof {
            assert(s.take(0) =~= Seq::<char>::empty());
            assert(s.take(s.len() as int) =~= s);
        }
        for k in 0..cs.len()
            invariant
                cs@ == s,
                s == text@,
                total == byte_len(s),
                s.take(s.len() as int) == s,
                used == byte_len(s.take(k as int)),
                char_starts@.len() == line_starts@.len(),
                char_starts@.len() == newlines(s.take(k as int)) + 1,
                char_starts@[0] == 0,
                forall|i: int|
                    0 <= i < char_starts@.len() ==> {
                        &&& 0 <= #[trigger] char_starts@[i] <= k
                        &&& line_starts@[i] == byte_len(s.take(char_starts@[i] as int))
                        &&& newlines(s.take(char_starts@[i] as int)) == i
                        &&& i > 0 ==> char_starts@[i] > 0 && s[char_starts@[i] - 1] == '\n'
                    },
        {
            proof {
                byte_len_step(s, k as int);
                byte_len_monotone(s, k + 1, s.len() as int);
                newlines_step(s, k as int);
            }
            used += len_utf8(cs[k]);
            if cs[k] == '\n' {
                char_starts.push(k + 1);
                line_starts.push(used);
            }
        }
        LineIndex { char_starts, line_starts }
    }

    /// The last line that begins at or before a byte offset.
    fn line_of(&self, offset: usize, Ghost(s): Ghost<Seq<char>>) -> (r: usize)
        requires
            self.wf(s),
        ensures
            r < self.line_starts@.len(),
            self.line_starts@[r as int] <= offset,
            r + 1 < self.line_starts@.len() ==> self.line_starts@[r + 1] > offset,
    {
        let mut lo: usize = 0;
        let mut hi: usize = self.line_starts.len();
        assert(s.take(0) =~= Seq::<char>::empty());
        assert(self.char_starts@[0] == 0);
        while hi - lo > 1
            invariant
                self.wf(s),
                lo < hi <= self.line_starts@.len(),
                self.line_starts@[lo as int] <= offset,
                hi < self.line_starts@.len() ==> self.line_starts@[hi as int] > offset,
            decreases hi - lo,
        {
            let mid: usize = lo + (hi - lo) / 2;
            if self.line_starts[mid] <= offset {
                lo = mid;
            } else {
                hi = mid;
            }
        }
        lo
    }

    /// The position of a byte offset.
    pub fn position(&self, text: &str, offset: usize) -> (r: Position)
        requires
            self.wf(text@),
        ensures
            r == position_of(text@, offset as int),
    {
        let ghost s = text@;
        let cs = chars_of(text);
        let total: usize = len_in_bytes(text);
        assert(s.take(s.len() as int) =~= s);
        let line: usize = self.line_of(offset, Ghost(s));
        let start: usize = self.char_starts[line];
        let mut used: usize = self.line_starts[line];
        let mut k: usize = start;
        let mut column: usize = 0;
        proof {
            assert(self.char_starts@[line as int] == start);
            from_line_start(s, offset as int, start as int);
            assert(s.subrange(start as int, start as int) =~= Seq::<char>::empty());
            if line + 1 < self.char_starts@.len() {
                assert(self.char_starts@[line + 1] > 0);
            }
            chars_before_range(s, offset as int);
        }
        let ghost end = chars_before(s, offset as int);
        while k < cs.len() && len_utf8(cs[k]) <= offset - used
            invariant
                cs@ == s,
                start <= k <= s.len(),
                used == byte_len(s.take(k as int)),
                used <= offset,
                column == utf16_len(s.subrange(start as int, k as int)),
                column <= 2 * (k - start),
                end == chars_before(s, offset as int),
                end == chars_before_from(s, offset as int, k as int),
                byte_len(s.take(s.len() as int)) == total,
                s.len() <= usize::MAX,
            decreases s.len() - k,
        {
            proof {
                byte_len_step(s, k as int);
                assert(s.subrange(start as int, k + 1).drop_last() =~= s.subrange(
                    start as int,
                    k as int,
                ));
                utf16_fits(s, start as int, k + 1);
                byte_len_monotone(s, k + 1, s.len() as int);
            }
            used += len_utf8(cs[k]);
            column += len_utf16(cs[k]);
            k += 1;
        }
        proof {
            if k < s.len() {
                byte_len_step(s, k as int);
            }
            assert(k == end);
            if line + 1 < self.char_starts@.len() && self.char_starts@[line + 1] <= k {
                byte_len_monotone(s, self.char_starts@[line + 1] as int, k as int);
            }
            self.line_of_char(s, line as int, k as int);
        }
        Position {
            line: #[verifier::truncate] (line as u32),
            character: #[verifier::truncate] (column as u32),
        }
    }

    /// The byte offset of a position.
    pub fn offset(&self, text: &str, pos: Position) -> (r: usize)
        requires
            self.wf(text@),
        ensures
            r as int == offset_of(text@, pos),
    {
        let ghost s = text@;
        let total: usize = len_in_bytes(text);
        let line: usize = pos.line as usize;
        if line >= self.line_starts.len() {
            return total;
        }
        let cs = chars_of(text);
        let start: usize = self.char_starts[line];
        proof {
            assert(s.take(s.len() as int) =~= s);
            assert(self.char_starts@[line as int] == start);
            nth_start_range(s, line as nat);
            line_starts_are_unique(s, nth_start(s, line as nat), start as int, line as nat);
        }
        let end: usize = find_char(&cs, '\n', start);
        let mut used: usize = self.line_starts[line];
        let mut left: usize = pos.character as usize;
        let mut k: usize = start;
        while k < end && left >= len_utf16(cs[k])
            invariant
                cs@ == s,
                start <= k <= end <= s.len(),
                s.take(s.len() as int) == s,
                total == byte_len(s),
                used == byte_len(s.take(k as int)),
                walked(s, start as int, end as int, pos.character as int) == walked(
                    s,
                    k as int,
                    end as int,
                    left as int,
                ),
            decreases end - k,
        {
            proof {
                byte_len_step(s, k as int);
                byte_len_monotone(s, k + 1, s.len() as int);
            }
            left -= len_utf16(cs[k]);
            used += len_utf8(cs[k]);
            k += 1;
        }
        used
    }

    /// The positions of the two ends of a stretch.
    pub fn range(&self, text: &str, start: usize, end: usize) -> (r: (Position, Position))
        requires
            self.wf(text@),
        ensures
            r == range_of(text@, start as int, end as int),
    {
        (self.position(text, start), self.position(text, end))
    }

    /// The line that a character is on, by where the lines begin.
    proof fn line_of_char(&self, s: Seq<char>, line: int, k: int)
        requires
            self.wf(s),
            0 <= line < self.char_starts@.len(),
            self.char_starts@[line] <= k <= s.len(),
            line + 1 < self.char_starts@.len() ==> k < self.char_starts@[line + 1],
        ensures
            newlines(s.take(k)) == line,
            line_begin(s, k) == self.char_starts@[line],
    {
        let a = self.char_starts@[line] as int;
        assert(s.take(s.len() as int) =~= s);
        assert forall|j: int| a <= j < k implies s[j] != '\n' by {
            if s[j] == '\n' {
                newlines_step(s, j);
                newlines_monotone(s, a, j);
                newlines_monotone(s, j + 1, k);
                if line + 1 < self.char_starts@.len() {
                    let b = self.char_starts@[line + 1] as int;
                    assert(s[b - 1] == '\n');
                    newlines_step(s, b - 1);
                    newlines_monotone(s, j + 1, b - 1);
                } else {
                    newlines_monotone(s, j + 1, s.len() as int);
                }
            }
        }
        same_line(s, a, k);
    }
}

proof fn newlines_monotone(s: Seq<char>, a: int, b: int)
    requires
        0 <= a <= b <= s.len(),
    ensures
        newlines(s.take(a)) <= newlines(s.take(b)),
    decreases b - a,
{
    if a < b {
        newlines_monotone(s, a, b - 1);
        newlines_step(s, b - 1);
    }
}

/// A search that starts at a character before the offset finds the same one.
proof fn from_line_start(s: Seq<char>, offset: int, start: int)
    requires
        0 <= start <= s.len(),
        byte_len(s.take(start)) <= offset,
    ensures
        chars_before(s, offset) == chars_before_from(s, offset, start),
{
    assert(s.take(0) =~= Seq::<char>::empty());
    chars_before_range(s, offset);
    chars_before_from_range(s, offset, start);
    let a = chars_before(s, offset);
    let b = chars_before_from(s, offset, start);
    if a < b {
        byte_len_monotone(s, a + 1, b);
    } else if b < a {
        byte_len_monotone(s, b + 1, a);
    }
}

/// The code units of a stretch are no more than its bytes.
proof fn utf16_fits(s: Seq<char>, a: int, b: int)
    requires
        0 <= a <= b <= s.len(),
    ensures
        utf16_len(s.subrange(a, b)) + byte_len(s.take(a)) <= byte_len(s.take(b)),
    decreases b - a,
{
    if a < b {
        utf16_fits(s, a, b - 1);
        byte_len_step(s, b - 1);
        assert(s.subrange(a, b).drop_last() =~= s.subrange(a, b - 1));
    } else {
        assert(s.subrange(a, b) =~= Seq::<char>::empty());
    }
}

proof fn nth_start_range(s: Seq<char>, n: nat)
    requires
        n <= newlines(s),
    ensures
        0 <= nth_start(s, n) <= s.len(),
        newlines(s.take(nth_start(s, n))) == n,
        n > 0 ==> nth_start(s, n) > 0 && s[nth_start(s, n) - 1] == '\n',
    decreases n,
{
    assert(s.take(s.len() as int) =~= s);
    if n == 0 {
        assert(s.take(0) =~= Seq::<char>::empty());
    } else {
        nth_start_range(s, (n - 1) as nat);
        let a = nth_start(s, (n - 1) as nat);
        let k = find_from(s, '\n', a);
        find_from_is_first(s, '\n', a);
        same_line(s, a, k);
        if k < s.len() {
            newlines_step(s, k);
        }
    }
}

/// There is one place at which the `n`th line begins.
proof fn line_starts_are_unique(s: Seq<char>, a: int, b: int, n: nat)
    requires
        0 <= a <= s.len(),
        0 <= b <= s.len(),
        newlines(s.take(a)) == n,
        newlines(s.take(b)) == n,
        n == 0 ==> a == 0 && b == 0,
        n > 0 ==> a > 0 && s[a - 1] == '\n' && b > 0 && s[b - 1] == '\n',
    ensures
        a == b,
{
    if a < b {
        newlines_step(s, b - 1);
        newlines_monotone(s, a, b - 1);
    } else if b < a {
        newlines_step(s, a - 1);
        newlines_monotone(s, b, a - 1);
    }
}

proof fn utf16_front(s: Seq<char>, j: int, k: int)
    requires
        0 <= j < k <= s.len(),
    ensures
        utf16_len(s.subrange(j, k)) == utf16_width(s[j]) + utf16_len(s.subrange(j + 1, k)),
    decreases k - j,
{
    assert(s.subrange(j, k).drop_last() =~= s.subrange(j, k - 1));
    if k == j + 1 {
        assert(s.subrange(j, k - 1) =~= Seq::<char>::empty());
        assert(s.subrange(j + 1, k) =~= Seq::<char>::empty());
    } else {
        utf16_front(s, j, k - 1);
        assert(s.subrange(j + 1, k).drop_last() =~= s.subrange(j + 1, k - 1));
    }
}

proof fn walk_back(s: Seq<char>, j: int, k: int, end: int)
    requires
        0 <= j <= k <= end <= s.len(),
    ensures
        walked(s, j, end, utf16_len(s.subrange(j, k)) as int) == k,
    decreases k - j,
{
    if j < k {
        utf16_front(s, j, k);
        walk_back(s, j + 1, k, end);
    } else {
        assert(s.subrange(j, k) =~= Seq::<char>::empty());
    }
}

// ─── Laws ──────────────────────────────────────────────────────────────────

/// The position of a byte offset between two characters counts the newlines
/// before it and leads back to that offset, as long as the line and the column
/// fit the protocol's numbers.
pub proof fn offset_round_trip(s: Seq<char>, k: int)
    requires
        0 <= k <= s.len(),
        place_of(s, k).0 <= u32::MAX,
        place_of(s, k).1 <= u32::MAX,
    ensures
        position_of(s, byte_len(s.take(k)) as int).line == newlines(s.take(k)),
        offset_of(s, position_of(s, byte_len(s.take(k)) as int)) == byte_len(s.take(k)),
{
    assert(s.take(s.len() as int) =~= s);
    chars_before_at(s, k);
    line_begin_range(s, k);
    let b = line_begin(s, k);
    let line = newlines(s.take(k));
    newlines_monotone(s, k, s.len() as int);
    same_line(s, b, k);
    nth_start_range(s, line);
    if b == 0 {
        assert(s.take(0) =~= Seq::<char>::empty());
    }
    line_starts_are_unique(s, nth_start(s, line), b, line);
    find_from_is_first(s, '\n', b);
    walk_back(s, b, k, find_from(s, '\n', b));
}

/// An offset behind the end has the position of the end.
pub proof fn position_clamps(s: Seq<char>, offset: int)
    requires
        offset >= byte_len(s),
    ensures
        position_of(s, offset) == position_of(s, byte_len(s) as int),
{
    assert(s.take(s.len() as int) =~= s);
    chars_before_at(s, s.len() as int);
    chars_before_range(s, offset);
    let k = chars_before(s, offset);
    if k < s.len() {
        byte_len_monotone(s, k + 1, s.len() as int);
    }
}

} // verus!
