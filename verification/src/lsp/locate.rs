//! The syntax tree of a document: where the value and the name at a path
//! stand, and what the cursor is on.
use jsonc_parser::common::Ranged;
use vstd::prelude::*;
use vstd::string::*;

use crate::error::{list0, list1, list2};
use crate::lsp::documents::{chars_before, floor_char};
use crate::text::{
    byte_len, chars_of, clone_strings, len_in_bytes, opt_view, str_eq, string_of, strs, views,
};

verus! {

/// A stretch of the text, in bytes.
#[derive(Debug, Clone, Copy, PartialEq, Eq, Structural)]
pub struct Span {
    pub start: usize,
    pub end: usize,
}

/// A value in the document.
#[derive(Debug)]
pub enum Node {
    /// A string, without its quotes.
    Text(Span, String),
    /// A number, `true`, `false` or `null`.
    Scalar(Span),
    Object(Span, Vec<Prop>),
    Array(Span),
}

/// A property of an object.
#[derive(Debug)]
pub struct Prop {
    pub name: String,
    pub name_span: Span,
    pub value: Node,
}

/// What a [`Node`] says.
pub ghost enum NodeView {
    Text(Span, Seq<char>),
    Scalar(Span),
    Object(Span, Seq<PropView>),
    Array(Span),
}

pub ghost struct PropView {
    pub name: Seq<char>,
    pub name_span: Span,
    pub value: NodeView,
}

pub open spec fn node_view(n: Node) -> NodeView
    decreases n,
{
    match n {
        Node::Text(span, s) => NodeView::Text(span, s@),
        Node::Scalar(span) => NodeView::Scalar(span),
        Node::Array(span) => NodeView::Array(span),
        Node::Object(span, props) => NodeView::Object(
            span,
            Seq::new(
                props.len() as nat,
                |i: int|
                    if 0 <= i < props.len() {
                        PropView {
                            name: props[i].name@,
                            name_span: props[i].name_span,
                            value: node_view(props[i].value),
                        }
                    } else {
                        arbitrary()
                    },
            ),
        ),
    }
}

impl View for Node {
    type V = NodeView;

    open spec fn view(&self) -> NodeView {
        node_view(*self)
    }
}

pub open spec fn prop_view(p: Prop) -> PropView {
    PropView { name: p.name@, name_span: p.name_span, value: node_view(p.value) }
}

pub open spec fn props_view(v: Seq<Prop>) -> Seq<PropView> {
    v.map_values(|p: Prop| prop_view(p))
}

pub proof fn object_node_view(span: Span, props: Vec<Prop>)
    ensures
        node_view(Node::Object(span, props)) == NodeView::Object(span, props_view(props@)),
{
    assert(node_view(Node::Object(span, props))->Object_1 =~= props_view(props@));
}

pub open spec fn span_of(n: NodeView) -> Span {
    match n {
        NodeView::Text(s, _) => s,
        NodeView::Scalar(s) => s,
        NodeView::Object(s, _) => s,
        NodeView::Array(s) => s,
    }
}

impl Node {
    /// Where the value stands.
    pub fn span(&self) -> (r: Span)
        ensures
            r == span_of(self@),
    {
        match self {
            Node::Text(s, _) => *s,
            Node::Scalar(s) => *s,
            Node::Object(s, _) => *s,
            Node::Array(s) => *s,
        }
    }
}

// ─── Parsing ───────────────────────────────────────────────────────────────

/// A syntax error: where, and which.
#[derive(Debug)]
pub struct SyntaxError {
    pub span: Span,
    pub kind: String,
}

/// What a document parses to.
pub ghost enum ParsedView {
    /// A syntax error.
    Error(Span, Seq<char>),
    /// Nothing but whitespace and comments.
    Empty,
    /// A value.
    Value(NodeView),
}

/// What `jsonc_parser::parse_to_ast` makes of a text, with its default
/// options: comments, trailing commas and the other extensions are accepted.
pub uninterp spec fn parsed_jsonc(text: Seq<char>) -> ParsedView;

/// The outcome of parsing a document.
#[derive(Debug)]
pub enum Parsed {
    Error(SyntaxError),
    Empty,
    Value(Node),
}

impl View for Parsed {
    type V = ParsedView;

    open spec fn view(&self) -> ParsedView {
        match self {
            Parsed::Error(e) => ParsedView::Error(e.span, e.kind@),
            Parsed::Empty => ParsedView::Empty,
            Parsed::Value(n) => ParsedView::Value(n@),
        }
    }
}

#[verifier::external_type_specification]
#[verifier::external_body]
pub struct ExAstValue<'a>(jsonc_parser::ast::Value<'a>);

#[verifier::external_type_specification]
#[verifier::external_body]
pub struct ExAstProp<'a>(jsonc_parser::ast::ObjectProp<'a>);

/// The library's form of a `jsonc_parser` value, variant by variant.
#[verifier::external_body]
fn node_of_value(value: &jsonc_parser::ast::Value<'_>) -> Node {
    let span = Span { start: value.start(), end: value.end() };
    match value {
        jsonc_parser::ast::Value::StringLit(s) => Node::Text(span, s.value.to_string()),
        jsonc_parser::ast::Value::Object(o) => Node::Object(
            span,
            o.properties.iter().map(prop_of_property).collect(),
        ),
        jsonc_parser::ast::Value::Array(_) => Node::Array(span),
        jsonc_parser::ast::Value::NumberLit(_) => Node::Scalar(span),
        jsonc_parser::ast::Value::BooleanLit(_) => Node::Scalar(span),
        jsonc_parser::ast::Value::NullKeyword(_) => Node::Scalar(span),
    }
}

/// The library's form of a `jsonc_parser` property; its name may be a string
/// or a bare word.
#[verifier::external_body]
fn prop_of_property(p: &jsonc_parser::ast::ObjectProp<'_>) -> Prop {
    Prop {
        name: match &p.name {
            jsonc_parser::ast::ObjectPropName::String(s) => s.value.to_string(),
            jsonc_parser::ast::ObjectPropName::Word(w) => w.value.to_string(),
        },
        name_span: Span { start: p.name.start(), end: p.name.end() },
        value: node_of_value(&p.value),
    }
}

/// `jsonc_parser::parse_to_ast` with its default options. What comes back
/// depends on the characters of `text` alone.
#[verifier::external_body]
fn parse_to_ast(text: &str) -> (r: Parsed)
    ensures
        r@ == parsed_jsonc(text@),
{
    match jsonc_parser::parse_to_ast(text, &Default::default(), &Default::default()) {
        Ok(result) => match result.value {
            Some(value) => Parsed::Value(node_of_value(&value)),
            None => Parsed::Empty,
        },
        Err(e) => Parsed::Error(
            SyntaxError {
                span: Span { start: e.range().start, end: e.range().end },
                kind: e.kind().to_string(),
            },
        ),
    }
}

/// The syntax tree of a document.
pub fn parse_ast(text: &str) -> (r: Parsed)
    ensures
        r@ == parsed_jsonc(text@),
{
    parse_to_ast(text)
}

// ─── Paths ─────────────────────────────────────────────────────────────────

/// The first property at or after `from` with a name, or their number.
pub open spec fn prop_index(v: Seq<PropView>, name: Seq<char>, from: int) -> int
    decreases v.len() - from,
{
    if from >= v.len() {
        v.len() as int
    } else if v[from].name == name {
        from
    } else {
        prop_index(v, name, from + 1)
    }
}

pub proof fn prop_index_range(v: Seq<PropView>, name: Seq<char>, from: int)
    requires
        0 <= from <= v.len(),
    ensures
        from <= prop_index(v, name, from) <= v.len(),
        prop_index(v, name, from) < v.len() ==> v[prop_index(v, name, from)].name == name,
    decreases v.len() - from,
{
    if from < v.len() && v[from].name != name {
        prop_index_range(v, name, from + 1);
    }
}

/// The property of an object with a name.
pub open spec fn prop_of(n: NodeView, name: Seq<char>) -> Option<PropView> {
    match n {
        NodeView::Object(_, props) => if prop_index(props, name, 0) < props.len() {
            Some(props[prop_index(props, name, 0)])
        } else {
            None
        },
        _ => None,
    }
}

/// The value at a path; the empty path leads to the root.
pub open spec fn value_at(n: NodeView, path: Seq<Seq<char>>) -> Option<NodeView>
    decreases path.len(),
{
    if path.len() == 0 {
        Some(n)
    } else {
        match prop_of(n, path[0]) {
            Some(p) => value_at(p.value, path.drop_first()),
            None => None,
        }
    }
}

/// Where the value at a path stands.
pub open spec fn range_at(n: NodeView, path: Seq<Seq<char>>) -> Option<Span> {
    match value_at(n, path) {
        Some(v) => Some(span_of(v)),
        None => None,
    }
}

/// Where the name of the property at a path stands.
pub open spec fn name_range_at(n: NodeView, path: Seq<Seq<char>>) -> Option<Span> {
    if path.len() == 0 {
        None
    } else {
        match value_at(n, path.drop_last()) {
            Some(parent) => match prop_of(parent, path.last()) {
                Some(p) => Some(p.name_span),
                None => None,
            },
            None => None,
        }
    }
}

/// The names of the properties of the object at a path.
pub open spec fn keys_at(n: NodeView, path: Seq<Seq<char>>) -> Seq<Seq<char>> {
    match value_at(n, path) {
        Some(NodeView::Object(_, props)) => props.map_values(|p: PropView| p.name),
        _ => seq![],
    }
}

fn find_prop(props: &Vec<Prop>, name: &str) -> (r: usize)
    ensures
        r as int == prop_index(props_view(props@), name@, 0),
        r <= props@.len(),
{
    let mut i: usize = 0;
    while i < props.len() && !str_eq(props[i].name.as_str(), name)
        invariant
            i <= props@.len(),
            prop_index(props_view(props@), name@, 0) == prop_index(
                props_view(props@),
                name@,
                i as int,
            ),
        decreases props@.len() - i,
    {
        i += 1;
    }
    i
}

/// The property of an object with a name.
fn get_prop<'a>(node: &'a Node, name: &str) -> (r: Option<&'a Prop>)
    ensures
        r is Some <==> prop_of(node@, name@) is Some,
        r is Some ==> prop_view(*r->0) == prop_of(node@, name@)->0,
{
    match node {
        Node::Object(span, props) => {
            proof {
                object_node_view(*span, *props);
            }
            let i: usize = find_prop(props, name);
            if i < props.len() {
                Some(&props[i])
            } else {
                None
            }
        },
        _ => None,
    }
}

/// The value at a path of a tree.
pub fn value_at_path<'a>(root: &'a Node, path: &[&str]) -> (r: Option<&'a Node>)
    ensures
        r is Some <==> value_at(root@, strs(path@)) is Some,
        r is Some ==> r->0@ == value_at(root@, strs(path@))->0,
{
    let ghost all = strs(path@);
    let mut cur = root;
    let mut i: usize = 0;
    assert(all.skip(0) =~= all);
    while i < path.len()
        invariant
            i <= path@.len(),
            all == strs(path@),
            value_at(root@, all) == value_at(cur@, all.skip(i as int)),
        decreases path@.len() - i,
    {
        proof {
            assert(all.skip(i as int)[0] == path@[i as int]@);
            assert(all.skip(i as int).drop_first() =~= all.skip(i + 1));
        }
        match get_prop(cur, path[i]) {
            Some(p) => {
                cur = &p.value;
            },
            None => {
                return None;
            },
        }
        i += 1;
    }
    assert(all.skip(all.len() as int) =~= seq![]);
    Some(cur)
}

/// Where the value at a path stands.
pub fn range_of_path(root: &Node, path: &[&str]) -> (r: Option<Span>)
    ensures
        r == range_at(root@, strs(path@)),
{
    match value_at_path(root, path) {
        Some(v) => Some(v.span()),
        None => None,
    }
}

/// Where the name of the property at a path stands.
pub fn name_range_of_path(root: &Node, path: &[&str]) -> (r: Option<Span>)
    ensures
        r == name_range_at(root@, strs(path@)),
{
    let n: usize = path.len();
    if n == 0 {
        return None;
    }
    let (front, back) = path.split_at(n - 1);
    proof {
        assert(strs(front@) =~= strs(path@).drop_last());
        assert(back@[0] == path@[n - 1]);
        assert(strs(path@).last() == path@[n - 1]@);
    }
    match value_at_path(root, front) {
        Some(parent) => match get_prop(parent, path[n - 1]) {
            Some(p) => Some(p.name_span),
            None => None,
        },
        None => None,
    }
}

/// The names of the properties of the object at a path.
pub fn keys_at_path(root: &Node, path: &[&str]) -> (r: Vec<String>)
    ensures
        views(r@) == keys_at(root@, strs(path@)),
{
    match value_at_path(root, path) {
        Some(node) => match node {
            Node::Object(span, props) => {
                proof {
                    object_node_view(*span, *props);
                }
                let mut out: Vec<String> = Vec::new();
                for i in 0..props.len()
                    invariant
                        out@.len() == i,
                        forall|k: int| 0 <= k < i ==> (#[trigger] out@[k])@ == props@[k].name@,
                {
                    out.push(props[i].name.clone());
                }
                assert(views(out@) =~= props_view(props@).map_values(|p: PropView| p.name));
                out
            },
            _ => list0(),
        },
        None => list0(),
    }
}

// ─── The cursor ────────────────────────────────────────────────────────────

/// What the cursor is on.
#[derive(Debug)]
pub enum CursorCtx {
    /// The name of a property of the object at `path`, or a place where one
    /// can be typed; then there is no key and no range.
    Name { path: Vec<String>, key: Option<String>, range: Option<Span> },
    /// The value of the property `key` of the object at `path`; `text` is the
    /// value where it is a string.
    Value { path: Vec<String>, key: String, range: Span, text: Option<String> },
    /// Neither.
    Nothing,
}

pub ghost enum CursorView {
    Name { path: Seq<Seq<char>>, key: Option<Seq<char>>, range: Option<Span> },
    Value { path: Seq<Seq<char>>, key: Seq<char>, range: Span, text: Option<Seq<char>> },
    Nothing,
}

impl View for CursorCtx {
    type V = CursorView;

    open spec fn view(&self) -> CursorView {
        match self {
            CursorCtx::Name { path, key, range } => CursorView::Name {
                path: views(path@),
                key: opt_view(*key),
                range: *range,
            },
            CursorCtx::Value { path, key, range, text } => CursorView::Value {
                path: views(path@),
                key: key@,
                range: *range,
                text: opt_view(*text),
            },
            CursorCtx::Nothing => CursorView::Nothing,
        }
    }
}

/// Whether an offset is on the name of a property.
pub open spec fn on_name(p: PropView, offset: int) -> bool {
    p.name_span.start <= offset <= p.name_span.end
}

/// Whether an offset is on the value of a property, or between its name and
/// its value.
pub open spec fn on_value(p: PropView, offset: int) -> bool {
    p.name_span.end < offset <= span_of(p.value).end
}

/// The first property at or after `from` that an offset is on.
pub open spec fn hit(v: Seq<PropView>, offset: int, from: int) -> int
    decreases v.len() - from,
{
    if from >= v.len() {
        v.len() as int
    } else if on_name(v[from], offset) || on_value(v[from], offset) {
        from
    } else {
        hit(v, offset, from + 1)
    }
}

/// What an offset is on, in a value at a path.
pub open spec fn cursor_in(n: NodeView, offset: int, path: Seq<Seq<char>>) -> CursorView
    decreases n,
{
    match n {
        NodeView::Object(span, props) => if offset < span.start || offset > span.end {
            CursorView::Nothing
        } else {
            let i = hit(props, offset, 0);
            if 0 <= i < props.len() {
                let p = props[i];
                if on_name(p, offset) {
                    CursorView::Name { path, key: Some(p.name), range: Some(p.name_span) }
                } else {
                    match p.value {
                        NodeView::Object(_, _) => cursor_in(p.value, offset, path.push(p.name)),
                        NodeView::Array(_) => CursorView::Nothing,
                        NodeView::Text(s, t) => CursorView::Value {
                            path,
                            key: p.name,
                            range: s,
                            text: Some(t),
                        },
                        NodeView::Scalar(s) => CursorView::Value {
                            path,
                            key: p.name,
                            range: s,
                            text: None,
                        },
                    }
                }
            } else {
                CursorView::Name { path, key: None, range: None }
            }
        },
        _ => CursorView::Nothing,
    }
}

/// What an offset is on, in a value at a path.
fn walk(value: &Node, offset: usize, path: &Vec<String>) -> (r: CursorCtx)
    ensures
        r@ == cursor_in(value@, offset as int, views(path@)),
    decreases value,
{
    match value {
        Node::Object(span, props) => {
            proof {
                object_node_view(*span, *props);
            }
            if offset < span.start || offset > span.end {
                return CursorCtx::Nothing;
            }
            let ghost all = props_view(props@);
            let mut i: usize = 0;
            while i < props.len()
                invariant
                    i <= props@.len(),
                    *value == Node::Object(*span, *props),
                    value@ == NodeView::Object(*span, all),
                    all == props_view(props@),
                    span.start <= offset <= span.end,
                    hit(all, offset as int, 0) == hit(all, offset as int, i as int),
                decreases props@.len() - i,
            {
                let p = &props[i];
                assert(all[i as int] == prop_view(*p));
                if p.name_span.start <= offset && offset <= p.name_span.end {
                    return CursorCtx::Name {
                        path: clone_strings(path),
                        key: Some(p.name.clone()),
                        range: Some(p.name_span),
                    };
                }
                let value_span = p.value.span();
                if offset > p.name_span.end && offset <= value_span.end {
                    return match &p.value {
                        Node::Object(_, _) => {
                            let mut inner = clone_strings(path);
                            inner.push(p.name.clone());
                            proof {
                                assert(views(inner@) =~= views(path@).push(p.name@));
                                assert(decreases_to!(*props => props[i as int]));
                            }
                            walk(&p.value, offset, &inner)
                        },
                        Node::Array(_) => CursorCtx::Nothing,
                        Node::Text(s, t) => CursorCtx::Value {
                            path: clone_strings(path),
                            key: p.name.clone(),
                            range: *s,
                            text: Some(t.clone()),
                        },
                        Node::Scalar(s) => CursorCtx::Value {
                            path: clone_strings(path),
                            key: p.name.clone(),
                            range: *s,
                            text: None,
                        },
                    };
                }
                i += 1;
            }
            CursorCtx::Name { path: clone_strings(path), key: None, range: None }
        },
        _ => CursorCtx::Nothing,
    }
}

/// What an offset is on.
pub fn cursor_context(root: &Node, offset: usize) -> (r: CursorCtx)
    ensures
        r@ == cursor_in(root@, offset as int, seq![]),
{
    let path = list0();
    walk(root, offset, &path)
}

// ─── Documents that do not parse ───────────────────────────────────────────

/// Where a scan of the text stands.
pub ghost struct Braces {
    pub opened: nat,
    pub closed: nat,
    pub in_string: bool,
    pub escaped: bool,
}

/// The braces before a place in the text, those in strings left out.
pub open spec fn braces(s: Seq<char>) -> Braces
    decreases s.len(),
{
    if s.len() == 0 {
        Braces { opened: 0, closed: 0, in_string: false, escaped: false }
    } else {
        let b = braces(s.drop_last());
        let c = s.last();
        if b.in_string {
            if b.escaped {
                Braces { escaped: false, ..b }
            } else if c == '\\' {
                Braces { escaped: true, ..b }
            } else if c == '"' {
                Braces { in_string: false, ..b }
            } else {
                b
            }
        } else if c == '"' {
            Braces { in_string: true, ..b }
        } else if c == '{' {
            Braces { opened: b.opened + 1, ..b }
        } else if c == '}' {
            Braces { closed: b.closed + 1, ..b }
        } else {
            b
        }
    }
}

/// The object that so many open braces lead to: the file, its `service`
/// block, or the `disk` block in that.
pub open spec fn path_at_depth(depth: int) -> Seq<Seq<char>> {
    if depth <= 1 {
        seq![]
    } else if depth == 2 {
        seq!["service"@]
    } else {
        seq!["service"@, "disk"@]
    }
}

/// The last place of a character in the first `n` characters, or -1.
pub open spec fn last_before(s: Seq<char>, c: char, n: int) -> int
    decreases n,
{
    if n <= 0 || n > s.len() {
        -1
    } else if s[n - 1] == c {
        n - 1
    } else {
        last_before(s, c, n - 1)
    }
}

/// The last colon outside quoted text in the first `n` characters of a line,
/// or -1.
pub open spec fn last_colon(line: Seq<char>, n: int) -> int
    decreases n,
{
    if n <= 0 || n > line.len() {
        -1
    } else if line[n - 1] == ':' && !braces(line.take(n - 1)).in_string {
        n - 1
    } else {
        last_colon(line, n - 1)
    }
}

/// The key whose value a line is about to give: the quoted text before its last
/// colon, where a colon in quoted text (that of a URL) does not count.
pub open spec fn key_on_line(line: Seq<char>) -> Option<Seq<char>> {
    let colon = last_colon(line, line.len() as int);
    let close = last_before(line, '"', colon);
    let open = last_before(line, '"', close);
    if colon >= 0 && close >= 0 && open >= 0 && open + 1 < close {
        Some(line.subrange(open + 1, close))
    } else {
        None
    }
}

/// The line that the text ends in.
pub open spec fn last_line(s: Seq<char>) -> Seq<char> {
    s.skip(last_before(s, '\n', s.len() as int) + 1)
}

/// What an offset is on, in a document that does not parse: by the braces
/// before it, and by the nearest key before it on its line.
pub open spec fn guessed(text: Seq<char>, offset: int) -> CursorView {
    let at = if offset > byte_len(text) {
        byte_len(text) as int
    } else {
        offset
    };
    let before = text.take(chars_before(text, at));
    let b = braces(before);
    let path = path_at_depth(b.opened - b.closed);
    match key_on_line(last_line(before)) {
        Some(key) => CursorView::Value {
            path,
            key,
            range: Span { start: at as usize, end: at as usize },
            text: None,
        },
        None => CursorView::Name { path, key: None, range: None },
    }
}

/// The last place of `c` in `cs[from..n]`, counted from `from`.
fn rfind(cs: &Vec<char>, from: usize, n: usize, c: char) -> (r: Option<usize>)
    requires
        from + n <= cs@.len(),
    ensures
        ({
            let s = cs@.skip(from as int);
            let at = last_before(s, c, n as int);
            match r {
                Some(i) => i == at && i < n,
                None => at == -1,
            }
        }),
{
    let ghost s = cs@.skip(from as int);
    let len: usize = cs.len();
    let mut i: usize = n;
    while i > 0
        invariant
            i <= n,
            len == cs@.len(),
            from + n <= len,
            s == cs@.skip(from as int),
            last_before(s, c, n as int) == last_before(s, c, i as int),
        decreases i,
    {
        assert(s[i - 1] == cs@[from + i - 1]);
        if cs[from + (i - 1)] == c {
            return Some(i - 1);
        }
        i -= 1;
    }
    None
}

/// The last colon outside quoted text in `cs[from..end]`, counted from `from`.
fn find_last_colon(cs: &Vec<char>, from: usize, end: usize) -> (r: Option<usize>)
    requires
        from <= end <= cs@.len(),
    ensures
        ({
            let line = cs@.take(end as int).skip(from as int);
            let at = last_colon(line, line.len() as int);
            match r {
                Some(i) => i == at && i < end - from,
                None => at == -1,
            }
        }),
{
    let ghost line = cs@.take(end as int).skip(from as int);
    let mut found: Option<usize> = None;
    let mut in_string: bool = false;
    let mut escaped: bool = false;
    assert(line.take(0) =~= Seq::<char>::empty());
    for i in 0..end - from
        invariant
            from <= end <= cs@.len(),
            line == cs@.take(end as int).skip(from as int),
            line.len() == end - from,
            braces(line.take(i as int)).in_string == in_string,
            braces(line.take(i as int)).escaped == escaped,
            match found {
                Some(k) => k == last_colon(line, i as int) && k < i,
                None => last_colon(line, i as int) == -1,
            },
    {
        let c = cs[from + i];
        assert(c == line[i as int]);
        assert(line.take(i + 1).drop_last() =~= line.take(i as int));
        if in_string {
            if escaped {
                escaped = false;
            } else if c == '\\' {
                escaped = true;
            } else if c == '"' {
                in_string = false;
            }
        } else if c == '"' {
            in_string = true;
        } else if c == ':' {
            found = Some(i);
        }
    }
    found
}

fn line_key(cs: &Vec<char>, from: usize, end: usize) -> (r: Option<String>)
    requires
        from <= end <= cs@.len(),
    ensures
        opt_view(r) == key_on_line(cs@.take(end as int).skip(from as int)),
{
    let ghost line = cs@.take(end as int).skip(from as int);
    let ghost s = cs@.skip(from as int);
    let colon: usize = match find_last_colon(cs, from, end) {
        Some(i) => i,
        None => {
            return None;
        },
    };
    proof {
        same_prefix(s, line, '"', colon as int);
    }
    let close: usize = match rfind(cs, from, colon, '"') {
        Some(i) => i,
        None => {
            return None;
        },
    };
    proof {
        same_prefix(s, line, '"', close as int);
    }
    let open: usize = match rfind(cs, from, close, '"') {
        Some(i) => i,
        None => {
            return None;
        },
    };
    if open + 1 < close {
        let key = string_of(cs, from + open + 1, from + close);
        assert(key@ =~= line.subrange(open + 1, close as int));
        Some(key)
    } else {
        None
    }
}

/// A search back over a common prefix finds the same place.
proof fn same_prefix(a: Seq<char>, b: Seq<char>, c: char, n: int)
    requires
        0 <= n <= a.len(),
        n <= b.len(),
        forall|i: int| 0 <= i < n ==> a[i] == b[i],
    ensures
        last_before(a, c, n) == last_before(b, c, n),
    decreases n,
{
    if n > 0 {
        same_prefix(a, b, c, n - 1);
    }
}

/// What an offset is on, in a document that does not parse.
pub fn heuristic_context(text: &str, offset: usize) -> (r: CursorCtx)
    ensures
        r@ == guessed(text@, offset as int),
{
    let total: usize = len_in_bytes(text);
    let at: usize = if offset > total {
        total
    } else {
        offset
    };
    let cs = chars_of(text);
    let (end, _) = floor_char(&cs, at);
    let ghost before = text@.take(end as int);
    let mut opened: usize = 0;
    let mut closed: usize = 0;
    let mut in_string: bool = false;
    let mut escaped: bool = false;
    assert(text@.take(0) =~= Seq::<char>::empty());
    for i in 0..end
        invariant
            cs@ == text@,
            end <= cs@.len(),
            opened <= i,
            closed <= i,
            braces(text@.take(i as int)) == (Braces {
                opened: opened as nat,
                closed: closed as nat,
                in_string,
                escaped,
            }),
    {
        let c = cs[i];
        assert(text@.take(i + 1).drop_last() =~= text@.take(i as int));
        if in_string {
            if escaped {
                escaped = false;
            } else if c == '\\' {
                escaped = true;
            } else if c == '"' {
                in_string = false;
            }
        } else if c == '"' {
            in_string = true;
        } else if c == '{' {
            opened += 1;
        } else if c == '}' {
            closed += 1;
        }
    }
    let path = if opened <= closed || opened - closed == 1 {
        list0()
    } else if opened - closed == 2 {
        list1("service")
    } else {
        list2("service", "disk")
    };
    let newline = rfind(&cs, 0, end, '\n');
    proof {
        assert(cs@.skip(0) =~= cs@);
        same_prefix(cs@, before, '\n', end as int);
    }
    let from: usize = match newline {
        Some(i) => i + 1,
        None => 0,
    };
    match line_key(&cs, from, end) {
        Some(key) => CursorCtx::Value {
            path,
            key,
            range: Span { start: at, end: at },
            text: None,
        },
        None => CursorCtx::Name { path, key: None, range: None },
    }
}

// ─── Laws ──────────────────────────────────────────────────────────────────

/// What is typed into the value of a key does not change the key: behind an
/// opening quote any text without a quote leaves it, colons and all.
pub proof fn typed_value_keeps_its_key(line: Seq<char>, typed: Seq<char>)
    requires
        !braces(line).in_string,
        !typed.contains('"'),
    ensures
        key_on_line(line.push('"') + typed) == key_on_line(line),
{
    let all = line.push('"') + typed;
    let n = line.len() as int;
    colon_before_typed(line, typed, all.len() as int);
    assert(line =~= all.take(n));
    colon_in_prefix(line, all, n);
    let colon = last_colon(line, n);
    colon_range(line, n);
    if colon >= 0 {
        same_prefix(all, line, '"', colon);
    }
    let close = last_before(line, '"', colon);
    last_before_range(line, '"', colon);
    if close >= 0 {
        same_prefix(all, line, '"', close);
    }
    let open = last_before(line, '"', close);
    if colon >= 0 && close >= 0 && open >= 0 && open + 1 < close {
        assert(all.subrange(open + 1, close) =~= line.subrange(open + 1, close));
    }
}

proof fn colon_range(line: Seq<char>, n: int)
    requires
        0 <= n <= line.len(),
    ensures
        -1 <= last_colon(line, n) < n || (n == 0 && last_colon(line, n) == -1),
    decreases n,
{
    if n > 0 {
        colon_range(line, n - 1);
    }
}

proof fn last_before_range(s: Seq<char>, c: char, n: int)
    requires
        n <= s.len(),
    ensures
        -1 <= last_before(s, c, n),
        last_before(s, c, n) < n || last_before(s, c, n) == -1,
    decreases n,
{
    if n > 0 {
        last_before_range(s, c, n - 1);
    }
}

/// A search back over a common prefix finds the same colon.
proof fn colon_in_prefix(line: Seq<char>, all: Seq<char>, n: int)
    requires
        0 <= n <= line.len() <= all.len(),
        line == all.take(line.len() as int),
    ensures
        last_colon(all, n) == last_colon(line, n),
    decreases n,
{
    if n > 0 {
        assert(all.take(n - 1) =~= line.take(n - 1));
        colon_in_prefix(line, all, n - 1);
    }
}

/// Behind an opening quote everything without a quote is quoted.
proof fn typed_is_quoted(line: Seq<char>, typed: Seq<char>, k: int)
    requires
        !braces(line).in_string,
        !typed.contains('"'),
        line.len() < k <= line.len() + 1 + typed.len(),
    ensures
        braces((line.push('"') + typed).take(k)).in_string,
    decreases k,
{
    let all = line.push('"') + typed;
    assert(all.take(k).drop_last() =~= all.take(k - 1));
    if k == line.len() + 1 {
        assert(all.take(k - 1) =~= line);
    } else {
        typed_is_quoted(line, typed, k - 1);
        assert(all[k - 1] == typed[k - 2 - line.len()]);
    }
}

proof fn colon_before_typed(line: Seq<char>, typed: Seq<char>, n: int)
    requires
        !braces(line).in_string,
        !typed.contains('"'),
        line.len() <= n <= line.len() + 1 + typed.len(),
    ensures
        last_colon(line.push('"') + typed, n) == last_colon(
            line.push('"') + typed,
            line.len() as int,
        ),
    decreases n,
{
    if n > line.len() {
        if n - 1 > line.len() {
            typed_is_quoted(line, typed, n - 1);
        }
        colon_before_typed(line, typed, n - 1);
    }
}

} // verus!
