//! What is known of the user's workspaces: when it is fetched again, and the
//! entries that completion and hover draw from it.
use vstd::prelude::*;
use vstd::string::*;

use crate::client::{Pod, Project, Region, WorkspaceSecret};
use crate::jsonc::{json_opt_str, json_opt_text};
use crate::llm::{
    find_price, pod_price_of, ContextData, PriceText, ProjectService, WorkspaceData,
};
use crate::seqs::{filter_take, first_item, first_where, first_where_range};
use crate::text::{
    cat2, cat3, cat4, cat5, cat7, opt_str_view, opt_view, or_empty, str_eq, strs, text_or_empty,
};

verus! {

// ─── The cache ─────────────────────────────────────────────────────────────

/// How long what was fetched counts as fresh, in milliseconds.
pub const TTL_MILLIS: u64 = 300_000;

/// What was fetched last, and whether a fetch is running.
#[derive(Debug)]
pub struct ContextCache {
    pub data: Option<ContextData>,
    /// When `data` was fetched, on the caller's clock, in milliseconds.
    pub fetched: Option<u64>,
    pub refreshing: bool,
}

/// Whether what was fetched at a time is no longer fresh.
pub open spec fn is_stale(fetched: Option<u64>, now: u64) -> bool {
    match fetched {
        Some(t) => now - t > TTL_MILLIS,
        None => true,
    }
}

impl ContextCache {
    /// An empty cache.
    pub fn new() -> (r: ContextCache)
        ensures
            r.data is None,
            r.fetched is None,
            !r.refreshing,
    {
        ContextCache { data: None, fetched: None, refreshing: false }
    }

    /// What is cached, stale or not, and whether a refresh is due.
    pub fn snapshot(&self, now: u64) -> (r: (Option<&ContextData>, bool))
        ensures
            r.0 is Some <==> self.data is Some,
            r.0 is Some ==> *r.0->0 == self.data->0,
            r.1 == is_stale(self.fetched, now),
    {
        let stale = match self.fetched {
            Some(t) => now > t && now - t > TTL_MILLIS,
            None => true,
        };
        (self.data.as_ref(), stale)
    }

    /// Starts a refresh. It is refused while another one runs.
    pub fn begin_refresh(&mut self) -> (r: bool)
        ensures
            r == !old(self).refreshing,
            final(self).refreshing,
            final(self).data == old(self).data,
            final(self).fetched == old(self).fetched,
    {
        let start = !self.refreshing;
        self.refreshing = true;
        start
    }

    /// Ends a refresh. One that failed leaves what was cached as it is.
    pub fn end_refresh(&mut self, fetched: Option<ContextData>, now: u64)
        ensures
            !final(self).refreshing,
            match fetched {
                Some(d) => final(self).data == Some(d) && final(self).fetched == Some(now),
                None => final(self).data == old(self).data && final(self).fetched == old(
                    self,
                ).fetched,
            },
    {
        self.refreshing = false;
        match fetched {
            Some(d) => {
                self.data = Some(d);
                self.fetched = Some(now);
            },
            None => {},
        }
    }
}

// ─── Entries ───────────────────────────────────────────────────────────────

/// A resource that can be filled in: its id, a label and a line about it.
#[derive(Debug)]
pub struct ResourceEntry {
    pub id: String,
    pub label: String,
    pub detail: String,
}

pub ghost struct EntryView {
    pub id: Seq<char>,
    pub label: Seq<char>,
    pub detail: Seq<char>,
}

impl View for ResourceEntry {
    type V = EntryView;

    open spec fn view(&self) -> EntryView {
        EntryView { id: self.id@, label: self.label@, detail: self.detail@ }
    }
}

pub open spec fn entries_view(v: Seq<ResourceEntry>) -> Seq<EntryView> {
    v.map_values(|e: ResourceEntry| e@)
}

pub open spec fn workspace_entry(w: WorkspaceData) -> EntryView {
    EntryView {
        id: w.workspace.id@,
        label: w.workspace.name@,
        detail: "workspace — "@ + or_empty(w.workspace.email),
    }
}

pub open spec fn project_entry(w: WorkspaceData, p: Project) -> EntryView {
    EntryView {
        id: p.id@,
        label: p.name@,
        detail: "project ["@ + p.environment@ + "] in "@ + w.workspace.name@,
    }
}

pub open spec fn region_entry(r: Region) -> EntryView {
    EntryView {
        id: r.id@,
        label: or_empty(r.label),
        detail: if or_empty(r.country_code).len() == 0 {
            "region "@ + r.name@
        } else {
            "region "@ + r.name@ + " ("@ + or_empty(r.country_code) + ")"@
        },
    }
}

/// What a pod costs, after a comma; nothing where its price is not known.
pub open spec fn price_suffix(p: Option<PriceText>) -> Seq<char> {
    match p {
        Some(t) => ", €"@ + t.shown@ + "/mo"@,
        None => ""@,
    }
}

pub open spec fn pod_entry(w: WorkspaceData, p: Pod) -> EntryView {
    EntryView {
        id: p.id@,
        label: or_empty(p.label),
        detail: "pod — "@ + json_opt_text(opt_view(p.cpu)) + " CPU, "@ + json_opt_text(
            opt_view(p.ram),
        ) + " RAM"@ + price_suffix(pod_price_of(w.pricing, p.id@)),
    }
}

pub open spec fn secret_entry(kind: Seq<char>, s: WorkspaceSecret) -> EntryView {
    EntryView {
        id: s.id@,
        label: or_empty(s.name),
        detail: kind + " ("@ + or_empty(s.provider) + ")"@,
    }
}

/// The entries of one workspace for a key.
pub open spec fn entries_in(w: WorkspaceData, key: Seq<char>) -> Seq<EntryView> {
    if key == "fk_workspace"@ {
        seq![workspace_entry(w)]
    } else if key == "fk_project"@ {
        w.projects@.map_values(|p: Project| project_entry(w, p))
    } else if key == "fk_region"@ {
        w.regions@.map_values(|r: Region| region_entry(r))
    } else if key == "fk_pod"@ {
        w.pods@.map_values(|p: Pod| pod_entry(w, p))
    } else if key == "fk_service_secret"@ {
        w.registry_secrets@.map_values(|s: WorkspaceSecret| secret_entry("registry secret"@, s))
            + w.repository_secrets@.map_values(
            |s: WorkspaceSecret| secret_entry("repository secret"@, s),
        )
    } else {
        seq![]
    }
}

/// The entries of some workspaces for a key, one workspace after the other.
pub open spec fn all_entries(ws: Seq<WorkspaceData>, key: Seq<char>) -> Seq<EntryView>
    decreases ws.len(),
{
    if ws.len() == 0 {
        seq![]
    } else {
        all_entries(ws.drop_last(), key) + entries_in(ws.last(), key)
    }
}

pub open spec fn workspace_is(id: Seq<char>) -> spec_fn(WorkspaceData) -> bool {
    |w: WorkspaceData| w.workspace.id@ == id
}

/// The workspaces to draw from: the one with the id where it is known, and
/// otherwise all of them.
pub open spec fn scoped(ws: Seq<WorkspaceData>, id: Option<Seq<char>>) -> Seq<WorkspaceData> {
    match id {
        Some(x) => if x.len() > 0 && ws.filter(workspace_is(x)).len() > 0 {
            ws.filter(workspace_is(x))
        } else {
            ws
        },
        None => ws,
    }
}

pub open spec fn has_id() -> spec_fn(EntryView) -> bool {
    |e: EntryView| e.id.len() > 0
}

/// The entries for a key; only those with an id.
pub open spec fn entries_of(c: ContextData, key: Seq<char>, id: Option<Seq<char>>) -> Seq<EntryView> {
    let from = if key == "fk_workspace"@ {
        c.workspaces@
    } else {
        scoped(c.workspaces@, id)
    };
    all_entries(from, key).filter(has_id())
}

/// The keys that an id is looked up under, in this order.
pub const RESOLVED_KEYS: [&'static str; 5] = [
    "fk_workspace",
    "fk_project",
    "fk_region",
    "fk_pod",
    "fk_service_secret",
];

pub open spec fn entry_is(id: Seq<char>) -> spec_fn(EntryView) -> bool {
    |e: EntryView| e.id == id
}

/// The first entry with an id, under the keys from `from` on.
pub open spec fn first_entry(c: ContextData, keys: Seq<Seq<char>>, id: Seq<char>, from: int) -> Option<
    EntryView,
>
    decreases keys.len() - from,
{
    if from >= keys.len() {
        None
    } else {
        match first_item(entries_of(c, keys[from], None), entry_is(id)) {
            Some(e) => Some(e),
            None => first_entry(c, keys, id, from + 1),
        }
    }
}

pub open spec fn service_is(id: Seq<char>) -> spec_fn(ProjectService) -> bool {
    |s: ProjectService| s.service.id@ == id
}

/// The first service with an id, in the workspaces from `from` on.
pub open spec fn first_service(ws: Seq<WorkspaceData>, id: Seq<char>, from: int) -> Option<
    ProjectService,
>
    decreases ws.len() - from,
{
    if from >= ws.len() {
        None
    } else {
        match first_item(ws[from].services@, service_is(id)) {
            Some(s) => Some(s),
            None => first_service(ws, id, from + 1),
        }
    }
}

/// What an id stands for, in Markdown: a resource, or else a service.
pub open spec fn resolved(c: ContextData, id: Seq<char>) -> Option<Seq<char>> {
    match first_entry(c, strs(RESOLVED_KEYS@), id, 0) {
        Some(e) => Some("**"@ + e.label + "** — "@ + e.detail),
        None => match first_service(c.workspaces@, id, 0) {
            Some(s) => Some(
                "**"@ + s.service.name@ + "** — "@ + s.service.deploy_type@ + " service ("@
                    + s.service.runtime@ + ")"@,
            ),
            None => None,
        },
    }
}

fn add_entry(out: &mut Vec<ResourceEntry>, id: &String, label: String, detail: String)
    ensures
        entries_view(final(out)@) == entries_view(old(out)@).push(
            EntryView { id: id@, label: label@, detail: detail@ },
        ),
{
    let e = ResourceEntry { id: id.clone(), label, detail };
    out.push(e);
    assert(entries_view(out@) =~= entries_view(old(out)@).push(e@));
}

fn push_secrets(out: &mut Vec<ResourceEntry>, secrets: &Vec<WorkspaceSecret>, kind: &str)
    ensures
        entries_view(final(out)@) == entries_view(old(out)@) + secrets@.map_values(
            |s: WorkspaceSecret| secret_entry(kind@, s),
        ),
{
    let ghost before = entries_view(out@);
    let ghost f = |s: WorkspaceSecret| secret_entry(kind@, s);
    assert(before + secrets@.take(0).map_values(f) =~= before);
    for i in 0..secrets.len()
        invariant
            f == (|s: WorkspaceSecret| secret_entry(kind@, s)),
            entries_view(out@) == before + secrets@.take(i as int).map_values(f),
    {
        let s = &secrets[i];
        let provider = text_or_empty(&s.provider);
        add_entry(
            out,
            &s.id,
            text_or_empty(&s.name),
            cat4(kind, " (", provider.as_str(), ")"),
        );
        assert(before + secrets@.take(i + 1).map_values(f) =~= (before + secrets@.take(
            i as int,
        ).map_values(f)).push(f(*s)));
    }
    assert(secrets@.take(secrets@.len() as int) =~= secrets@);
}

/// Adds the entries of one workspace for a key.
fn push_entries(out: &mut Vec<ResourceEntry>, w: &WorkspaceData, key: &str)
    ensures
        entries_view(final(out)@) == entries_view(old(out)@) + entries_in(*w, key@),
{
    let ghost before = entries_view(out@);
    if str_eq(key, "fk_workspace") {
        let email = text_or_empty(&w.workspace.email);
        add_entry(
            out,
            &w.workspace.id,
            w.workspace.name.clone(),
            cat2("workspace — ", email.as_str()),
        );
        assert(entries_view(out@) =~= before + entries_in(*w, key@));
    } else if str_eq(key, "fk_project") {
        let ghost f = |p: Project| project_entry(*w, p);
        assert(before + w.projects@.take(0).map_values(f) =~= before);
        for i in 0..w.projects.len()
            invariant
                f == (|p: Project| project_entry(*w, p)),
                entries_view(out@) == before + w.projects@.take(i as int).map_values(f),
        {
            let p = &w.projects[i];
            let detail = cat4(
                "project [",
                p.environment.as_str(),
                "] in ",
                w.workspace.name.as_str(),
            );
            add_entry(out, &p.id, p.name.clone(), detail);
            assert(before + w.projects@.take(i + 1).map_values(f) =~= (before + w.projects@.take(
                i as int,
            ).map_values(f)).push(f(*p)));
        }
        assert(w.projects@.take(w.projects@.len() as int) =~= w.projects@);
    } else if str_eq(key, "fk_region") {
        let ghost f = |r: Region| region_entry(r);
        assert(before + w.regions@.take(0).map_values(f) =~= before);
        for i in 0..w.regions.len()
            invariant
                f == (|r: Region| region_entry(r)),
                entries_view(out@) == before + w.regions@.take(i as int).map_values(f),
        {
            let x = &w.regions[i];
            let country = text_or_empty(&x.country_code);
            let detail = if country.as_str().is_empty() {
                cat2("region ", x.name.as_str())
            } else {
                cat5("region ", x.name.as_str(), " (", country.as_str(), ")")
            };
            add_entry(out, &x.id, text_or_empty(&x.label), detail);
            assert(before + w.regions@.take(i + 1).map_values(f) =~= (before + w.regions@.take(
                i as int,
            ).map_values(f)).push(f(*x)));
        }
        assert(w.regions@.take(w.regions@.len() as int) =~= w.regions@);
    } else if str_eq(key, "fk_pod") {
        let ghost f = |p: Pod| pod_entry(*w, p);
        assert(before + w.pods@.take(0).map_values(f) =~= before);
        for i in 0..w.pods.len()
            invariant
                f == (|p: Pod| pod_entry(*w, p)),
                entries_view(out@) == before + w.pods@.take(i as int).map_values(f),
        {
            let p = &w.pods[i];
            let price = match find_price(&w.pricing, p.id.as_str()) {
                Some(t) => cat3(", €", t.shown.as_str(), "/mo"),
                None => "".to_owned(),
            };
            let cpu = json_opt_str(&p.cpu);
            let ram = json_opt_str(&p.ram);
            let size = cat5("pod — ", cpu.as_str(), " CPU, ", ram.as_str(), " RAM");
            add_entry(out, &p.id, text_or_empty(&p.label), cat2(size.as_str(), price.as_str()));
            assert(before + w.pods@.take(i + 1).map_values(f) =~= (before + w.pods@.take(
                i as int,
            ).map_values(f)).push(f(*p)));
        }
        assert(w.pods@.take(w.pods@.len() as int) =~= w.pods@);
    } else if str_eq(key, "fk_service_secret") {
        push_secrets(out, &w.registry_secrets, "registry secret");
        push_secrets(out, &w.repository_secrets, "repository secret");
        assert(entries_view(out@) =~= before + entries_in(*w, key@));
    } else {
        assert(before + entries_in(*w, key@) =~= before);
    }
}

/// Keeps the entries that have an id.
fn with_ids(entries: Vec<ResourceEntry>) -> (r: Vec<ResourceEntry>)
    ensures
        entries_view(r@) == entries_view(entries@).filter(has_id()),
{
    let ghost all = entries_view(entries@);
    let ghost p = has_id();
    let mut out: Vec<ResourceEntry> = Vec::new();
    assert(all.take(0).filter(p) =~= seq![]) by {
        reveal(Seq::filter);
    }
    assert(entries_view(out@) =~= seq![]);
    for i in 0..entries.len()
        invariant
            all == entries_view(entries@),
            p == has_id(),
            entries_view(out@) == all.take(i as int).filter(p),
    {
        let e = &entries[i];
        proof {
            filter_take(all, i as int, p);
            assert(all[i as int] == e@);
        }
        if !e.id.as_str().is_empty() {
            add_entry(&mut out, &e.id, e.label.clone(), e.detail.clone());
        }
    }
    assert(all.take(all.len() as int) =~= all);
    out
}

/// Whether some workspace has an id.
fn is_known(ws: &Vec<WorkspaceData>, id: &str) -> (r: bool)
    ensures
        r == (ws@.filter(workspace_is(id@)).len() > 0),
{
    let ghost p = workspace_is(id@);
    assert(ws@.take(0).filter(p) =~= seq![]) by {
        reveal(Seq::filter);
    }
    let mut found: bool = false;
    for i in 0..ws.len()
        invariant
            p == workspace_is(id@),
            found == (ws@.take(i as int).filter(p).len() > 0),
    {
        proof {
            filter_take(ws@, i as int, p);
        }
        if str_eq(ws[i].workspace.id.as_str(), id) {
            found = true;
        }
    }
    assert(ws@.take(ws@.len() as int) =~= ws@);
    found
}

/// What is known of the workspaces, by key and by id.
#[derive(Debug)]
pub struct ContextView<'a> {
    pub payload: &'a ContextData,
}

impl<'a> ContextView<'a> {
    pub fn new(payload: &'a ContextData) -> (r: ContextView<'a>)
        ensures
            r.payload == payload,
    {
        ContextView { payload }
    }

    /// The entries for a key, within a workspace where its id is given and
    /// known.
    pub fn entries_for(&self, key: &str, workspace_id: Option<&str>) -> (r: Vec<ResourceEntry>)
        ensures
            entries_view(r@) == entries_of(*self.payload, key@, opt_str_view(workspace_id)),
    {
        let ws = &self.payload.workspaces;
        let ghost all = ws@;
        let every = str_eq(key, "fk_workspace");
        let (narrow, id) = match workspace_id {
            Some(x) => (!every && !x.is_empty() && is_known(ws, x), x),
            None => (false, ""),
        };
        let ghost p = workspace_is(id@);
        let ghost from = |i: int|
            if narrow {
                all.take(i).filter(p)
            } else {
                all.take(i)
            };
        let mut out: Vec<ResourceEntry> = Vec::new();
        proof {
            assert(all.take(0).filter(p) =~= seq![]) by {
                reveal(Seq::filter);
            }
            assert(all.take(0) =~= seq![]);
            assert(entries_view(out@) =~= all_entries(from(0), key@));
        }
        for i in 0..ws.len()
            invariant
                all == ws@,
                p == workspace_is(id@),
                from == (|i: int|
                    if narrow {
                        all.take(i).filter(p)
                    } else {
                        all.take(i)
                    }),
                entries_view(out@) == all_entries(from(i as int), key@),
        {
            proof {
                filter_take(all, i as int, p);
                assert(all.take(i + 1) =~= all.take(i as int).push(all[i as int]));
            }
            if !narrow || str_eq(ws[i].workspace.id.as_str(), id) {
                push_entries(&mut out, &ws[i], key);
                proof {
                    assert(from(i + 1) == from(i as int).push(all[i as int]));
                    assert(from(i + 1).drop_last() =~= from(i as int));
                }
            }
        }
        assert(all.take(all.len() as int) =~= all);
        with_ids(out)
    }

    /// What an id stands for, in Markdown.
    pub fn resolve_uuid(&self, uuid: &str) -> (r: Option<String>)
        ensures
            opt_view(r) == resolved(*self.payload, uuid@),
    {
        let keys = RESOLVED_KEYS.as_slice();
        let ghost all = strs(keys@);
        let ghost c = *self.payload;
        let mut i: usize = 0;
        while i < keys.len()
            invariant
                i <= keys@.len(),
                keys@ == RESOLVED_KEYS@,
                all == strs(RESOLVED_KEYS@),
                c == *self.payload,
                first_entry(c, all, uuid@, 0) == first_entry(c, all, uuid@, i as int),
            decreases keys@.len() - i,
        {
            assert(all[i as int] == keys@[i as int]@);
            let entries = self.entries_for(keys[i], None);
            let ghost es = entries_of(c, all[i as int], None);
            let at: usize = find_entry(&entries, uuid);
            if at < entries.len() {
                let e = &entries[at];
                assert(es[at as int] == e@);
                return Some(cat4("**", e.label.as_str(), "** — ", e.detail.as_str()));
            }
            i += 1;
        }
        let ws = &self.payload.workspaces;
        let mut j: usize = 0;
        while j < ws.len()
            invariant
                j <= ws@.len(),
                c == *self.payload,
                ws@ == c.workspaces@,
                first_entry(c, strs(RESOLVED_KEYS@), uuid@, 0) is None,
                first_service(ws@, uuid@, 0) == first_service(ws@, uuid@, j as int),
            decreases ws@.len() - j,
        {
            let services = &ws[j].services;
            let at: usize = find_listed(services, uuid);
            if at < services.len() {
                let s = &services[at].service;
                return Some(
                    cat7(
                        "**",
                        s.name.as_str(),
                        "** — ",
                        s.deploy_type.as_str(),
                        " service (",
                        s.runtime.as_str(),
                        ")",
                    ),
                );
            }
            j += 1;
        }
        None
    }
}

/// The first entry with an id, or their number.
fn find_entry(entries: &Vec<ResourceEntry>, id: &str) -> (r: usize)
    ensures
        r as int == first_where(entries_view(entries@), entry_is(id@), 0),
        r <= entries@.len(),
{
    let ghost all = entries_view(entries@);
    let ghost p = entry_is(id@);
    let mut i: usize = 0;
    while i < entries.len()
        invariant
            i <= entries@.len(),
            all == entries_view(entries@),
            p == entry_is(id@),
            first_where(all, p, 0) == first_where(all, p, i as int),
        decreases entries@.len() - i,
    {
        assert(all[i as int] == entries@[i as int]@);
        if str_eq(entries[i].id.as_str(), id) {
            assert(p(all[i as int]));
            return i;
        }
        assert(!p(all[i as int]));
        i += 1;
    }
    i
}

/// The first service with an id, or their number.
fn find_listed(services: &Vec<ProjectService>, id: &str) -> (r: usize)
    ensures
        r as int == first_where(services@, service_is(id@), 0),
        r <= services@.len(),
{
    let ghost p = service_is(id@);
    let mut i: usize = 0;
    while i < services.len()
        invariant
            i <= services@.len(),
            p == service_is(id@),
            first_where(services@, p, 0) == first_where(services@, p, i as int),
        decreases services@.len() - i,
    {
        if str_eq(services[i].service.id.as_str(), id) {
            assert(p(services@[i as int]));
            return i;
        }
        assert(!p(services@[i as int]));
        i += 1;
    }
    i
}

// ─── Laws ──────────────────────────────────────────────────────────────────

/// Every entry that is offered has an id to fill in.
pub proof fn every_entry_has_an_id(c: ContextData, key: Seq<char>, id: Option<Seq<char>>)
    ensures
        forall|i: int|
            0 <= i < entries_of(c, key, id).len() ==> (#[trigger] entries_of(
                c,
                key,
                id,
            )[i]).id.len() > 0,
{
    let from = if key == "fk_workspace"@ {
        c.workspaces@
    } else {
        scoped(c.workspaces@, id)
    };
    let s = all_entries(from, key);
    assert forall|i: int| 0 <= i < entries_of(c, key, id).len() implies (#[trigger] entries_of(
        c,
        key,
        id,
    )[i]).id.len() > 0 by {
        s.lemma_filter_pred(has_id(), i);
    }
}

/// A workspace that is not known narrows nothing: its entries are those of
/// all workspaces.
pub proof fn unknown_workspace_scopes_to_all(c: ContextData, key: Seq<char>, id: Seq<char>)
    requires
        forall|i: int|
            0 <= i < c.workspaces@.len() ==> (#[trigger] c.workspaces@[i]).workspace.id@ != id,
    ensures
        entries_of(c, key, Some(id)) == entries_of(c, key, None),
{
    let ws = c.workspaces@;
    let p = workspace_is(id);
    let f = ws.filter(p);
    if f.len() > 0 {
        ws.lemma_filter_contains_rev(p, f[0]);
        ws.lemma_filter_pred(p, 0);
        let i = choose|i: int| 0 <= i < ws.len() && ws[i] == f[0];
        assert(ws[i].workspace.id@ == id);
    }
}

proof fn entries_come_from_a_workspace(ws: Seq<WorkspaceData>, key: Seq<char>, e: EntryView)
    ensures
        all_entries(ws, key).contains(e) <==> exists|i: int|
            0 <= i < ws.len() && entries_in(#[trigger] ws[i], key).contains(e),
    decreases ws.len(),
{
    if ws.len() > 0 {
        let front = ws.drop_last();
        let a = all_entries(front, key);
        let b = entries_in(ws.last(), key);
        entries_come_from_a_workspace(front, key, e);
        if a.contains(e) {
            let i = choose|i: int|
                0 <= i < front.len() && entries_in(#[trigger] front[i], key).contains(e);
            assert(ws[i] == front[i]);
            let j = choose|j: int| 0 <= j < a.len() && a[j] == e;
            assert((a + b)[j] == e);
        }
        if b.contains(e) {
            let j = choose|j: int| 0 <= j < b.len() && b[j] == e;
            assert((a + b)[a.len() + j] == e);
            assert(entries_in(ws[ws.len() - 1], key).contains(e));
        }
        if (a + b).contains(e) {
            let j = choose|j: int| 0 <= j < (a + b).len() && (a + b)[j] == e;
            if j < a.len() {
                assert(a[j] == e);
            } else {
                assert(b[j - a.len()] == e);
            }
        }
        if exists|i: int| 0 <= i < ws.len() && entries_in(#[trigger] ws[i], key).contains(e) {
            let i = choose|i: int|
                0 <= i < ws.len() && entries_in(#[trigger] ws[i], key).contains(e);
            if i < front.len() {
                assert(front[i] == ws[i]);
            }
        }
    }
}

proof fn first_entry_from(c: ContextData, keys: Seq<Seq<char>>, id: Seq<char>, from: int, at: int)
    requires
        0 <= from <= at < keys.len(),
        first_item(entries_of(c, keys[at], None), entry_is(id)) is Some,
    ensures
        first_entry(c, keys, id, from) is Some,
    decreases at - from,
{
    if from < at {
        first_entry_from(c, keys, id, from + 1, at);
    }
}

/// An id that is offered, within whichever workspace, is known on hover.
pub proof fn offered_ids_resolve(
    c: ContextData,
    key: Seq<char>,
    workspace: Option<Seq<char>>,
    e: EntryView,
)
    requires
        entries_of(c, key, workspace).contains(e),
    ensures
        resolved(c, e.id) is Some,
{
    let keys = strs(RESOLVED_KEYS@);
    let ws = c.workspaces@;
    let from = if key == "fk_workspace"@ {
        ws
    } else {
        scoped(ws, workspace)
    };
    let part = all_entries(from, key);
    part.lemma_filter_contains_rev(has_id(), e);
    let k = choose|k: int| 0 <= k < part.filter(has_id()).len() && part.filter(has_id())[k] == e;
    part.lemma_filter_pred(has_id(), k);
    entries_come_from_a_workspace(from, key, e);
    let i = choose|i: int| 0 <= i < from.len() && entries_in(#[trigger] from[i], key).contains(e);
    let w = from[i];
    assert(ws.contains(w)) by {
        assert(from.contains(w));
        if from != ws {
            ws.lemma_filter_contains_rev(workspace_is(workspace->0), w);
        }
    }
    let j = choose|j: int| 0 <= j < ws.len() && ws[j] == w;
    assert(entries_in(ws[j], key).contains(e));
    entries_come_from_a_workspace(ws, key, e);
    let full = all_entries(ws, key);
    let m = choose|m: int| 0 <= m < full.len() && full[m] == e;
    full.lemma_filter_contains(has_id(), m);
    let offered = entries_of(c, key, None);
    let n = choose|n: int| 0 <= n < offered.len() && offered[n] == e;
    first_where_range(offered, entry_is(e.id), 0);
    assert(entry_is(e.id)(offered[n]));
    assert(keys.len() == 5);
    assert(keys[0] == "fk_workspace"@);
    assert(keys[1] == "fk_project"@);
    assert(keys[2] == "fk_region"@);
    assert(keys[3] == "fk_pod"@);
    assert(keys[4] == "fk_service_secret"@);
    assert(entries_in(w, key).len() > 0);
    let at = if key == "fk_workspace"@ {
        0
    } else if key == "fk_project"@ {
        1
    } else if key == "fk_region"@ {
        2
    } else if key == "fk_pod"@ {
        3
    } else {
        4int
    };
    assert(keys[at] == key);
    first_entry_from(c, keys, e.id, 0, at);
}

} // verus!
