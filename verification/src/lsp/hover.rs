//! Hover: what the schema says of a property, and what an id stands for.
use vstd::prelude::*;
use vstd::string::*;

use crate::llm::ContextData;
use crate::lsp::completion::opt_context;
use crate::lsp::context_cache::{resolved, ContextView};
use crate::lsp::documents::{range_of, LineIndex, Position};
use crate::lsp::locate::{
    cursor_context, cursor_in, parse_ast, parsed_jsonc, CursorCtx, CursorView, Parsed, ParsedView,
    Span,
};
use crate::schema::{described, SchemaIndex};
use crate::text::{
    cat2, cat3, join, join_strings, opt_str, opt_str_view, opt_view, slice_contains, starts_with,
    strs, views,
};

verus! {

/// The keys whose value is an id that can be looked up.
pub const UUID_KEYS: [&'static str; 6] = [
    "fk_workspace",
    "fk_project",
    "fk_region",
    "fk_pod",
    "fk_service_secret",
    "id",
];

/// What is shown over a stretch of a document, in Markdown.
#[derive(Debug)]
pub struct Hover {
    pub markdown: String,
    pub start: Position,
    pub end: Position,
}

pub ghost struct HoverView {
    pub markdown: Seq<char>,
    pub range: (Position, Position),
}

impl View for Hover {
    type V = HoverView;

    open spec fn view(&self) -> HoverView {
        HoverView { markdown: self.markdown@, range: (self.start, self.end) }
    }
}

/// A text with a paragraph added.
pub open spec fn with_paragraph(value: Seq<char>, paragraph: Seq<char>) -> Seq<char> {
    if value.len() == 0 {
        paragraph
    } else {
        value + "\n\n"@ + paragraph
    }
}

/// What is shown over the name of a property.
pub open spec fn name_text(path: Seq<Seq<char>>, key: Seq<char>) -> Option<Seq<char>> {
    match described(path, key) {
        None => None,
        Some(info) => {
            let listed = if info.enum_values.len() > 0 {
                with_paragraph(
                    info.description,
                    "Allowed: "@ + join(
                        info.enum_values.map_values(|v: Seq<char>| "`"@ + v + "`"@),
                        " | "@,
                    ),
                )
            } else {
                info.description
            };
            let all = if "fk_"@.is_prefix_of(key) {
                with_paragraph(
                    listed,
                    "Completions for this field come from the live workspace context (`partiri llm context`)."@,
                )
            } else {
                listed
            };
            if all.len() == 0 {
                None
            } else {
                Some(all)
            }
        },
    }
}

/// What is shown over the value of a property: what its id stands for, where
/// that is known, or else what the schema says of the property.
pub open spec fn value_text(
    path: Seq<Seq<char>>,
    key: Seq<char>,
    value: Option<Seq<char>>,
    context: Option<ContextData>,
) -> Option<Seq<char>> {
    let found = match (value, context) {
        (Some(id), Some(c)) => if strs(UUID_KEYS@).contains(key) {
            resolved(c, id)
        } else {
            None
        },
        _ => None,
    };
    match found {
        Some(md) => Some(md),
        None => match described(path, key) {
            Some(info) => if info.description.len() == 0 {
                None
            } else {
                Some(info.description)
            },
            None => None,
        },
    }
}

pub open spec fn shown_over(text: Seq<char>, span: Span, md: Option<Seq<char>>) -> Option<HoverView> {
    match md {
        Some(m) => Some(
            HoverView {
                markdown: m,
                range: range_of(text, span.start as int, span.end as int),
            },
        ),
        None => None,
    }
}

/// What is shown at an offset of a document.
pub open spec fn hover_of(
    text: Seq<char>,
    parsed: ParsedView,
    offset: int,
    context: Option<ContextData>,
) -> Option<HoverView> {
    match parsed {
        ParsedView::Value(n) => match cursor_in(n, offset, seq![]) {
            CursorView::Name { path, key: Some(key), range: Some(span) } => shown_over(
                text,
                span,
                name_text(path, key),
            ),
            CursorView::Value { path, key, range, text: value } => shown_over(
                text,
                range,
                value_text(path, key, value, context),
            ),
            _ => None,
        },
        _ => None,
    }
}

pub open spec fn opt_hover(h: Option<Hover>) -> Option<HoverView> {
    match h {
        Some(x) => Some(x@),
        None => None,
    }
}

fn push_paragraph(value: String, paragraph: &str) -> (r: String)
    ensures
        r@ == with_paragraph(value@, paragraph@),
{
    if value.as_str().is_empty() {
        paragraph.to_owned()
    } else {
        cat3(value.as_str(), "\n\n", paragraph)
    }
}

/// What is shown over the name of a property.
pub fn name_hover(schema: &SchemaIndex, path: &Vec<String>, key: &str) -> (r: Option<String>)
    requires
        schema.wf(),
    ensures
        opt_view(r) == name_text(views(path@), key@),
{
    match schema.describe(path.as_slice(), key) {
        None => None,
        Some(info) => {
            let mut value = info.description.clone();
            if info.enum_values.len() > 0 {
                let ghost f = |v: Seq<char>| "`"@ + v + "`"@;
                let mut quoted: Vec<String> = Vec::new();
                for i in 0..info.enum_values.len()
                    invariant
                        f == (|v: Seq<char>| "`"@ + v + "`"@),
                        quoted@.len() == i,
                        forall|k: int|
                            0 <= k < i ==> (#[trigger] quoted@[k])@ == f(info.enum_values@[k]@),
                {
                    quoted.push(cat3("`", info.enum_values[i].as_str(), "`"));
                }
                assert(views(quoted@) =~= views(info.enum_values@).map_values(f));
                let allowed = join_strings(&quoted, " | ");
                let line = cat2("Allowed: ", allowed.as_str());
                value = push_paragraph(value, line.as_str());
            }
            assert(views(info.enum_values@).len() == info.enum_values@.len());
            if starts_with(key, "fk_") {
                value =
                push_paragraph(
                    value,
                    "Completions for this field come from the live workspace context (`partiri llm context`).",
                );
            }
            if value.as_str().is_empty() {
                None
            } else {
                Some(value)
            }
        },
    }
}

/// What is shown over the value of a property.
pub fn value_hover(
    schema: &SchemaIndex,
    context: Option<&ContextData>,
    path: &Vec<String>,
    key: &str,
    value: Option<&str>,
) -> (r: Option<String>)
    requires
        schema.wf(),
    ensures
        opt_view(r) == value_text(views(path@), key@, opt_str_view(value), opt_context(context)),
{
    if slice_contains(UUID_KEYS.as_slice(), key) {
        match (value, context) {
            (Some(uuid), Some(payload)) => match ContextView::new(payload).resolve_uuid(uuid) {
                Some(md) => {
                    return Some(md);
                },
                None => {},
            },
            _ => {},
        }
    }
    match schema.describe(path.as_slice(), key) {
        Some(info) => if info.description.as_str().is_empty() {
            None
        } else {
            Some(info.description.clone())
        },
        None => None,
    }
}

fn markdown_hover(text: &str, span: Span, markdown: Option<String>) -> (r: Option<Hover>)
    ensures
        opt_hover(r) == shown_over(text@, span, opt_view(markdown)),
{
    match markdown {
        Some(markdown) => {
            let idx = LineIndex::new(text);
            let (start, end) = idx.range(text, span.start, span.end);
            Some(Hover { markdown, start, end })
        },
        None => None,
    }
}

/// What is shown at an offset of a document that was parsed.
pub fn hover_at(
    text: &str,
    parsed: &Parsed,
    offset: usize,
    schema: &SchemaIndex,
    context: Option<&ContextData>,
) -> (r: Option<Hover>)
    requires
        schema.wf(),
    ensures
        opt_hover(r) == hover_of(text@, parsed@, offset as int, opt_context(context)),
{
    match parsed {
        Parsed::Value(root) => match cursor_context(root, offset) {
            CursorCtx::Name { path, key: Some(key), range: Some(range) } => {
                let md = name_hover(schema, &path, key.as_str());
                markdown_hover(text, range, md)
            },
            CursorCtx::Value { path, key, range, text: value } => {
                let md = value_hover(schema, context, &path, key.as_str(), opt_str(&value));
                markdown_hover(text, range, md)
            },
            _ => None,
        },
        _ => None,
    }
}

/// What is shown at an offset of a document.
pub fn hover(text: &str, offset: usize, schema: &SchemaIndex, context: Option<&ContextData>) -> (r:
    Option<Hover>)
    requires
        schema.wf(),
    ensures
        opt_hover(r) == hover_of(text@, parsed_jsonc(text@), offset as int, opt_context(context)),
{
    let parsed = parse_ast(text);
    hover_at(text, &parsed, offset, schema, context)
}

} // verus!
