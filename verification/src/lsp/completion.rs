//! Completion: the names of properties, the values of the enumerations, and
//! ids of the user's resources.
use vstd::prelude::*;
use vstd::string::*;

use crate::config::PartiriConfig;
use crate::lsp::context_cache::{
    entries_of, entries_view, ContextView, EntryView, ResourceEntry,
};
use crate::llm::ContextData;
use crate::lsp::diagnostics::tree_of;
use crate::lsp::locate::{
    cursor_context, cursor_in, guessed, heuristic_context, keys_at, keys_at_path, parse_ast,
    parsed_jsonc, CursorCtx, CursorView, Node, NodeView, Parsed, ParsedView,
};
use crate::schema::{described, level_of, InfoView, PropTable, SchemaIndex, TableView};
use crate::seqs::filter_take;
use crate::text::{cat2, cat3, decimal, decimal_of, list_contains, opt_view, strs, views};

verus! {

#[derive(Debug, Clone, Copy, PartialEq, Eq, Structural)]
pub enum ItemKind {
    Field,
    EnumMember,
    Value,
}

/// A completion that is offered.
#[derive(Debug)]
pub struct CompletionItem {
    pub label: String,
    pub kind: ItemKind,
    /// In Markdown.
    pub documentation: Option<String>,
    pub detail: Option<String>,
    pub insert_text: Option<String>,
    pub sort_text: Option<String>,
    pub filter_text: Option<String>,
}

pub ghost struct ItemView {
    pub label: Seq<char>,
    pub kind: ItemKind,
    pub documentation: Option<Seq<char>>,
    pub detail: Option<Seq<char>>,
    pub insert_text: Option<Seq<char>>,
    pub sort_text: Option<Seq<char>>,
    pub filter_text: Option<Seq<char>>,
}

impl View for CompletionItem {
    type V = ItemView;

    open spec fn view(&self) -> ItemView {
        ItemView {
            label: self.label@,
            kind: self.kind,
            documentation: opt_view(self.documentation),
            detail: opt_view(self.detail),
            insert_text: opt_view(self.insert_text),
            sort_text: opt_view(self.sort_text),
            filter_text: opt_view(self.filter_text),
        }
    }
}

pub open spec fn items_view(v: Seq<CompletionItem>) -> Seq<ItemView> {
    v.map_values(|x: CompletionItem| x@)
}

/// An item with a label alone.
pub open spec fn plain_item(label: Seq<char>, kind: ItemKind) -> ItemView {
    ItemView {
        label,
        kind,
        documentation: None,
        detail: None,
        insert_text: None,
        sort_text: None,
        filter_text: None,
    }
}

/// The item of a property that can be added.
pub open spec fn field_item(e: (Seq<char>, InfoView)) -> ItemView {
    ItemView {
        documentation: if e.1.description.len() == 0 {
            None
        } else {
            Some(e.1.description)
        },
        ..plain_item(e.0, ItemKind::Field)
    }
}

/// A number in at least four digits.
pub open spec fn four_digits(n: nat) -> Seq<char> {
    if n < 10 {
        "000"@ + decimal_of(n)
    } else if n < 100 {
        "00"@ + decimal_of(n)
    } else if n < 1000 {
        "0"@ + decimal_of(n)
    } else {
        decimal_of(n)
    }
}

/// The item of a resource: its label is shown, its id is inserted, and typing
/// either finds it.
pub open spec fn value_item(i: int, e: EntryView) -> ItemView {
    ItemView {
        detail: Some(e.detail),
        insert_text: Some(e.id),
        sort_text: Some(four_digits(i as nat)),
        filter_text: Some(e.label + " "@ + e.id),
        ..plain_item(e.label, ItemKind::Value)
    }
}

pub open spec fn is_absent(present: Seq<Seq<char>>) -> spec_fn((Seq<char>, InfoView)) -> bool {
    |e: (Seq<char>, InfoView)| !present.contains(e.0)
}

/// The properties of a table that an object does not have yet.
pub open spec fn name_items(t: TableView, present: Seq<Seq<char>>) -> Seq<ItemView> {
    t.filter(is_absent(present)).map_values(|e: (Seq<char>, InfoView)| field_item(e))
}

/// The values that a property lists, and otherwise the ids that are known for
/// its key.
pub open spec fn value_items(
    path: Seq<Seq<char>>,
    key: Seq<char>,
    context: Option<ContextData>,
    workspace: Option<Seq<char>>,
) -> Seq<ItemView> {
    let listed = match described(path, key) {
        Some(info) => info.enum_values,
        None => seq![],
    };
    if listed.len() > 0 {
        listed.map_values(|v: Seq<char>| plain_item(v, ItemKind::EnumMember))
    } else {
        match context {
            Some(c) => entries_of(c, key, workspace).map(
                |i: int, e: EntryView| value_item(i, e),
            ),
            None => seq![],
        }
    }
}

/// What an offset is on: by the tree, or else by the text before it.
pub open spec fn cursor_at(text: Seq<char>, ast: Option<NodeView>, offset: int) -> CursorView {
    match ast {
        Some(n) => match cursor_in(n, offset, seq![]) {
            CursorView::Nothing => guessed(text, offset),
            other => other,
        },
        None => guessed(text, offset),
    }
}

/// The workspace that a configuration names.
pub open spec fn workspace_of(config: Option<PartiriConfig>) -> Option<Seq<char>> {
    match config {
        Some(c) => if c.fk_workspace@.len() > 0 {
            Some(c.fk_workspace@)
        } else {
            None
        },
        None => None,
    }
}

/// The completions at an offset of a document.
pub open spec fn completions_of(
    text: Seq<char>,
    parsed: ParsedView,
    offset: int,
    config: Option<PartiriConfig>,
    context: Option<ContextData>,
) -> Seq<ItemView> {
    let ast = tree_of(parsed);
    match cursor_at(text, ast, offset) {
        CursorView::Name { path, .. } => match level_of(path) {
            Some(t) => name_items(
                t,
                match ast {
                    Some(n) => keys_at(n, path),
                    None => seq![],
                },
            ),
            None => seq![],
        },
        CursorView::Value { path, key, .. } => value_items(
            path,
            key,
            context,
            workspace_of(config),
        ),
        CursorView::Nothing => seq![],
    }
}

fn item(label: &String, kind: ItemKind) -> (r: CompletionItem)
    ensures
        r@ == plain_item(label@, kind),
{
    CompletionItem {
        label: label.clone(),
        kind,
        documentation: None,
        detail: None,
        insert_text: None,
        sort_text: None,
        filter_text: None,
    }
}

/// What is said of a property, where there is anything to say.
fn doc(description: &String) -> (r: Option<String>)
    ensures
        opt_view(r) == if description@.len() == 0 {
            None
        } else {
            Some(description@)
        },
{
    if description.as_str().is_empty() {
        None
    } else {
        Some(description.clone())
    }
}

/// A number in at least four digits.
fn sort_key(n: usize) -> (r: String)
    ensures
        r@ == four_digits(n as nat),
{
    let digits = decimal(n as u64);
    if n < 10 {
        cat2("000", digits.as_str())
    } else if n < 100 {
        cat2("00", digits.as_str())
    } else if n < 1000 {
        cat2("0", digits.as_str())
    } else {
        digits
    }
}

fn complete_names(level: &PropTable, present: &Vec<String>) -> (r: Vec<CompletionItem>)
    ensures
        items_view(r@) == name_items(level@, views(present@)),
{
    let ghost all = level@;
    let ghost p = is_absent(views(present@));
    let ghost f = |e: (Seq<char>, InfoView)| field_item(e);
    let mut out: Vec<CompletionItem> = Vec::new();
    assert(all.take(0).filter(p) =~= seq![]) by {
        reveal(Seq::filter);
    }
    assert(items_view(out@) =~= all.take(0).filter(p).map_values(f));
    for i in 0..level.entries.len()
        invariant
            all == level@,
            all.len() == level.entries@.len(),
            p == is_absent(views(present@)),
            f == (|e: (Seq<char>, InfoView)| field_item(e)),
            items_view(out@) == all.take(i as int).filter(p).map_values(f),
    {
        let ghost before = all.take(i as int).filter(p);
        let e = &level.entries[i];
        proof {
            filter_take(all, i as int, p);
            assert(all[i as int] == (e.key@, e.info@));
        }
        if !list_contains(present, e.key.as_str()) {
            let mut x = item(&e.key, ItemKind::Field);
            x.documentation = doc(&e.info.description);
            let ghost was = items_view(out@);
            out.push(x);
            assert(items_view(out@) =~= was.push(x@));
            assert(before.push(all[i as int]).map_values(f) =~= before.map_values(f).push(
                f(all[i as int]),
            ));
        }
    }
    assert(all.take(all.len() as int) =~= all);
    out
}

fn complete_listed(values: &Vec<String>) -> (r: Vec<CompletionItem>)
    ensures
        items_view(r@) == views(values@).map_values(
            |v: Seq<char>| plain_item(v, ItemKind::EnumMember),
        ),
{
    let mut out: Vec<CompletionItem> = Vec::new();
    for i in 0..values.len()
        invariant
            out@.len() == i,
            forall|k: int|
                0 <= k < i ==> (#[trigger] out@[k])@ == plain_item(
                    values@[k]@,
                    ItemKind::EnumMember,
                ),
    {
        out.push(item(&values[i], ItemKind::EnumMember));
    }
    assert(items_view(out@) =~= views(values@).map_values(
        |v: Seq<char>| plain_item(v, ItemKind::EnumMember),
    ));
    out
}

fn complete_ids(entries: &Vec<ResourceEntry>) -> (r: Vec<CompletionItem>)
    ensures
        items_view(r@) == entries_view(entries@).map(|i: int, e: EntryView| value_item(i, e)),
{
    let mut out: Vec<CompletionItem> = Vec::new();
    for i in 0..entries.len()
        invariant
            out@.len() == i,
            forall|k: int| 0 <= k < i ==> (#[trigger] out@[k])@ == value_item(k, entries@[k]@),
    {
        let e = &entries[i];
        let mut x = item(&e.label, ItemKind::Value);
        x.detail = Some(e.detail.clone());
        x.insert_text = Some(e.id.clone());
        x.sort_text = Some(sort_key(i));
        x.filter_text = Some(cat3(e.label.as_str(), " ", e.id.as_str()));
        out.push(x);
    }
    assert(items_view(out@) =~= entries_view(entries@).map(
        |i: int, e: EntryView| value_item(i, e),
    ));
    out
}

/// The names that the object at a path has, as far as the document parses.
fn present_keys(ast: Option<&Node>, path: &Vec<String>) -> (r: Vec<String>)
    ensures
        views(r@) == match ast {
            Some(n) => keys_at(n@, views(path@)),
            None => seq![],
        },
{
    match ast {
        Some(root) => {
            let mut refs: Vec<&str> = Vec::new();
            for i in 0..path.len()
                invariant
                    refs@.len() == i,
                    forall|k: int| 0 <= k < i ==> (#[trigger] refs@[k])@ == path@[k]@,
            {
                refs.push(path[i].as_str());
            }
            assert(strs(refs@) =~= views(path@));
            keys_at_path(root, refs.as_slice())
        },
        None => {
            let none: Vec<String> = Vec::new();
            assert(views(none@) =~= seq![]);
            none
        },
    }
}

fn no_items() -> (r: Vec<CompletionItem>)
    ensures
        items_view(r@) == Seq::<ItemView>::empty(),
{
    let none: Vec<CompletionItem> = Vec::new();
    assert(items_view(none@) =~= Seq::empty());
    none
}

pub open spec fn opt_config(c: Option<&PartiriConfig>) -> Option<PartiriConfig> {
    match c {
        Some(x) => Some(*x),
        None => None,
    }
}

pub open spec fn opt_context(c: Option<&ContextData>) -> Option<ContextData> {
    match c {
        Some(x) => Some(*x),
        None => None,
    }
}

/// The completions at an offset of a document that was parsed. `config` is
/// the configuration in it, where there is one.
pub fn complete(
    text: &str,
    parsed: &Parsed,
    offset: usize,
    schema: &SchemaIndex,
    config: Option<&PartiriConfig>,
    context: Option<&ContextData>,
) -> (r: Vec<CompletionItem>)
    requires
        schema.wf(),
    ensures
        items_view(r@) == completions_of(
            text@,
            parsed@,
            offset as int,
            opt_config(config),
            opt_context(context),
        ),
{
    let ast = match parsed {
        Parsed::Value(n) => Some(n),
        _ => None,
    };
    let ctx = match ast {
        Some(root) => match cursor_context(root, offset) {
            CursorCtx::Nothing => heuristic_context(text, offset),
            other => other,
        },
        None => heuristic_context(text, offset),
    };
    assert(ctx@ == cursor_at(text@, tree_of(parsed@), offset as int));
    match &ctx {
        CursorCtx::Name { path, .. } => match schema.level(path.as_slice()) {
            Some(level) => {
                let present = present_keys(ast, path);
                complete_names(level, &present)
            },
            None => no_items(),
        },
        CursorCtx::Value { path, key, .. } => {
            match schema.describe(path.as_slice(), key.as_str()) {
                Some(info) => if info.enum_values.len() > 0 {
                    assert(views(info.enum_values@).len() == info.enum_values@.len());
                    return complete_listed(&info.enum_values);
                },
                None => {},
            }
            match context {
                Some(payload) => {
                    let workspace = match config {
                        Some(c) => if c.fk_workspace.as_str().is_empty() {
                            None
                        } else {
                            Some(c.fk_workspace.as_str())
                        },
                        None => None,
                    };
                    let entries = ContextView::new(payload).entries_for(key.as_str(), workspace);
                    complete_ids(&entries)
                },
                None => no_items(),
            }
        },
        CursorCtx::Nothing => no_items(),
    }
}

/// The completions at an offset of a document.
pub fn completions(
    text: &str,
    offset: usize,
    schema: &SchemaIndex,
    config: Option<&PartiriConfig>,
    context: Option<&ContextData>,
) -> (r: Vec<CompletionItem>)
    requires
        schema.wf(),
    ensures
        items_view(r@) == completions_of(
            text@,
            parsed_jsonc(text@),
            offset as int,
            opt_config(config),
            opt_context(context),
        ),
{
    let parsed = parse_ast(text);
    complete(text, &parsed, offset, schema, config, context)
}

// ─── Laws ──────────────────────────────────────────────────────────────────

/// A name that the object has already is not offered again, and every other
/// name of its table is.
pub proof fn names_are_those_missing(t: TableView, present: Seq<Seq<char>>, key: Seq<char>)
    ensures
        (exists|i: int| 0 <= i < name_items(t, present).len() && name_items(t, present)[i].label == key)
            <==> (!present.contains(key) && exists|j: int| 0 <= j < t.len() && t[j].0 == key),
{
    let p = is_absent(present);
    let kept = t.filter(p);
    let items = name_items(t, present);
    if exists|i: int| 0 <= i < items.len() && items[i].label == key {
        let i = choose|i: int| 0 <= i < items.len() && items[i].label == key;
        t.lemma_filter_pred(p, i);
        assert(items[i] == field_item(kept[i]));
        assert(kept.contains(kept[i]));
        t.lemma_filter_contains_rev(p, kept[i]);
        let j = choose|j: int| 0 <= j < t.len() && t[j] == kept[i];
        assert(t[j].0 == key);
    }
    if !present.contains(key) && exists|j: int| 0 <= j < t.len() && t[j].0 == key {
        let j = choose|j: int| 0 <= j < t.len() && t[j].0 == key;
        t.lemma_filter_contains(p, j);
        let i = choose|i: int| 0 <= i < kept.len() && kept[i] == t[j];
        assert(items[i] == field_item(kept[i]));
    }
}

} // verus!
