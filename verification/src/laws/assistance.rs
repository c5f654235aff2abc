//! What an editor offers: the properties of the schema, the values that fit, and
//! the edits that mend.
use vstd::prelude::*;
use vstd::string::*;

use crate::config::{filled, has_registry, has_repo, is_static_site, PartiriConfig};
use crate::jsonc::json_text;
use crate::laws::editor::{has_prop, paths_lead, place};
use crate::laws::rules::{blank_means_white, has_words};
use crate::laws::validation::has_text;
use crate::llm::{ContextData, WorkspaceData};
use crate::lsp::actions::{
    addition, fixes_of, line_span, line_tail, removal, truncation, ActionView,
};
use crate::lsp::completion::{completions_of, cursor_at, name_items, names_are_those_missing};
use crate::lsp::context_cache::{
    all_entries, entries_in, entries_of, has_id, scoped, workspace_is, EntryView,
};
use crate::lsp::diagnostics::tree_of;
use crate::lsp::documents::position_of;
use crate::lsp::hover::{hover_of, UUID_KEYS};
use crate::lsp::locate::{cursor_in, keys_at, CursorView, NodeView, ParsedView, PropView, Span};
use crate::schema::{
    described, disk_rows, entry_index, info_of, known_info, level_of, root_rows, service_rows,
    table_of, TableView,
};
use crate::schema::{
    ABOUT_ACTIVE, ABOUT_BUILD_COMMAND, ABOUT_BUILD_PATH, ABOUT_DEPLOY_TAG, ABOUT_DEPLOY_TYPE,
    ABOUT_DISK, ABOUT_FK_POD, ABOUT_FK_PROJECT, ABOUT_FK_REGION, ABOUT_FK_SERVICE_SECRET,
    ABOUT_FK_WORKSPACE, ABOUT_HEALTH_CHECK_PATH, ABOUT_ID, ABOUT_MAINTENANCE_MODE,
    ABOUT_MOUNT_PATH, ABOUT_NAME, ABOUT_PRE_DEPLOY_COMMAND, ABOUT_REGISTRY_URL,
    ABOUT_REPOSITORY_BRANCH, ABOUT_REPOSITORY_URL, ABOUT_ROOT_PATH, ABOUT_RUNTIME,
    ABOUT_RUN_COMMAND, ABOUT_SERVICE, ABOUT_SIZE,
};
use crate::text::strs;

verus! {

// ─── Schema ────────────────────────────────────────────────────────────────

proof fn table_entry(t: TableView, key: Seq<char>, i: int, from: int)
    requires
        0 <= from <= i < t.len(),
        t[i].0 == key,
        forall|j: int| 0 <= j < i ==> (#[trigger] t[j]).0 != key,
    ensures
        entry_index(t, key, from) == i,
    decreases i - from,
{
    if from < i {
        assert(t[from].0 != key);
        table_entry(t, key, i, from + 1);
    }
}

proof fn table_without(t: TableView, key: Seq<char>, from: int)
    requires
        0 <= from <= t.len(),
        forall|j: int| 0 <= j < t.len() ==> (#[trigger] t[j]).0 != key,
    ensures
        entry_index(t, key, from) == t.len(),
    decreases t.len() - from,
{
    if from < t.len() {
        table_without(t, key, from + 1);
    }
}

/// The properties differ from each other.
pub proof fn property_shapes()
    ensures
        "deploy_tag"@.len() == 10 && "deploy_tag"@[0] == 'd',
        "fk_project"@.len() == 10 && "fk_project"@[0] == 'f',
        "fk_workspace"@.len() == 12 && "fk_workspace"@[0] == 'f',
        "id"@.len() == 2,
        "service"@.len() == 7 && "service"@[0] == 's',
        "active"@.len() == 6 && "active"@[0] == 'a',
        "build_command"@.len() == 13,
        "build_path"@.len() == 10 && "build_path"@[0] == 'b',
        "deploy_type"@.len() == 11 && "deploy_type"@[0] == 'd',
        "disk"@.len() == 4 && "disk"@[0] == 'd',
        "fk_pod"@.len() == 6 && "fk_pod"@[0] == 'f',
        "fk_region"@.len() == 9 && "fk_region"@[0] == 'f',
        "fk_service_secret"@.len() == 17 && "fk_service_secret"@[0] == 'f',
        "health_check_path"@.len() == 17 && "health_check_path"@[0] == 'h',
        "maintenance_mode"@.len() == 16,
        "name"@.len() == 4 && "name"@[0] == 'n',
        "pre_deploy_command"@.len() == 18,
        "registry_url"@.len() == 12 && "registry_url"@[0] == 'r',
        "repository_branch"@.len() == 17 && "repository_branch"@[0] == 'r',
        "repository_url"@.len() == 14,
        "root_path"@.len() == 9 && "root_path"@[0] == 'r',
        "run_command"@.len() == 11 && "run_command"@[0] == 'r',
        "runtime"@.len() == 7 && "runtime"@[0] == 'r',
        "mount_path"@.len() == 10 && "mount_path"@[0] == 'm',
        "size"@.len() == 4 && "size"@[0] == 's',
        "env"@.len() == 3,
{
    reveal_strlit("deploy_tag");
    reveal_strlit("fk_project");
    reveal_strlit("fk_workspace");
    reveal_strlit("id");
    reveal_strlit("service");
    reveal_strlit("active");
    reveal_strlit("build_command");
    reveal_strlit("build_path");
    reveal_strlit("deploy_type");
    reveal_strlit("disk");
    reveal_strlit("fk_pod");
    reveal_strlit("fk_region");
    reveal_strlit("fk_service_secret");
    reveal_strlit("health_check_path");
    reveal_strlit("maintenance_mode");
    reveal_strlit("name");
    reveal_strlit("pre_deploy_command");
    reveal_strlit("registry_url");
    reveal_strlit("repository_branch");
    reveal_strlit("repository_url");
    reveal_strlit("root_path");
    reveal_strlit("run_command");
    reveal_strlit("runtime");
    reveal_strlit("mount_path");
    reveal_strlit("size");
    reveal_strlit("env");
    assert("deploy_tag"@.len() == 10);
    assert("fk_project"@.len() == 10);
    assert("fk_workspace"@.len() == 12);
    assert("id"@.len() == 2);
    assert("service"@.len() == 7);
    assert("active"@.len() == 6);
    assert("build_command"@.len() == 13);
    assert("build_path"@.len() == 10);
    assert("deploy_type"@.len() == 11);
    assert("disk"@.len() == 4);
    assert("fk_pod"@.len() == 6);
    assert("fk_region"@.len() == 9);
    assert("fk_service_secret"@.len() == 17);
    assert("health_check_path"@.len() == 17);
    assert("maintenance_mode"@.len() == 16);
    assert("name"@.len() == 4);
    assert("pre_deploy_command"@.len() == 18);
    assert("registry_url"@.len() == 12);
    assert("repository_branch"@.len() == 17);
    assert("repository_url"@.len() == 14);
    assert("root_path"@.len() == 9);
    assert("run_command"@.len() == 11);
    assert("runtime"@.len() == 7);
    assert("mount_path"@.len() == 10);
    assert("size"@.len() == 4);
    assert("env"@.len() == 3);
}

/// The properties of the file, each with what it is about.
pub proof fn properties_of_the_file(key: Seq<char>)
    ensures
        ({
            let info = described(seq![], key);
            &&& info is Some <==> key == "deploy_tag"@ || key == "fk_project"@ || key == "fk_workspace"@ || key == "id"@ || key == "service"@
            &&& key == "deploy_tag"@ ==> info->0.description == ABOUT_DEPLOY_TAG@
            &&& key == "fk_project"@ ==> info->0.description == ABOUT_FK_PROJECT@
            &&& key == "fk_workspace"@ ==> info->0.description == ABOUT_FK_WORKSPACE@
            &&& key == "id"@ ==> info->0.description == ABOUT_ID@
            &&& key == "service"@ ==> info->0.description == ABOUT_SERVICE@
            &&& info is Some ==> info->0.enum_values.len() == 0
        }),
{
    property_shapes();
    let t = table_of(root_rows());
    assert(t.len() == 5);
    assert(t[0] == ("deploy_tag"@, info_of(root_rows()[0])));
    assert(t[1] == ("fk_project"@, info_of(root_rows()[1])));
    assert(t[2] == ("fk_workspace"@, info_of(root_rows()[2])));
    assert(t[3] == ("id"@, info_of(root_rows()[3])));
    assert(t[4] == ("service"@, info_of(root_rows()[4])));
    if key == "deploy_tag"@ {
        table_entry(t, key, 0, 0);
    }
    if key == "fk_project"@ {
        table_entry(t, key, 1, 0);
    }
    if key == "fk_workspace"@ {
        table_entry(t, key, 2, 0);
    }
    if key == "id"@ {
        table_entry(t, key, 3, 0);
    }
    if key == "service"@ {
        table_entry(t, key, 4, 0);
    }
    if key != "deploy_tag"@ && key != "fk_project"@ && key != "fk_workspace"@ && key != "id"@ && key != "service"@ {
        table_without(t, key, 0);
    }
}

/// The properties of the service block, each with what it is about; the type and
/// the runtime list their values.
pub proof fn properties_of_the_service(key: Seq<char>)
    ensures
        ({
            let info = described(seq!["service"@], key);
            &&& info is Some <==> key == "active"@ || key == "build_command"@ || key == "build_path"@ || key == "deploy_type"@ || key == "disk"@ || key == "fk_pod"@ || key == "fk_region"@ || key == "fk_service_secret"@ || key == "health_check_path"@ || key == "maintenance_mode"@ || key == "name"@ || key == "pre_deploy_command"@ || key == "registry_url"@ || key == "repository_branch"@ || key == "repository_url"@ || key == "root_path"@ || key == "run_command"@ || key == "runtime"@
            &&& key == "active"@ ==> info->0.description == ABOUT_ACTIVE@
            &&& key == "build_command"@ ==> info->0.description == ABOUT_BUILD_COMMAND@
            &&& key == "build_path"@ ==> info->0.description == ABOUT_BUILD_PATH@
            &&& key == "deploy_type"@ ==> info->0.description == ABOUT_DEPLOY_TYPE@
            &&& key == "disk"@ ==> info->0.description == ABOUT_DISK@
            &&& key == "fk_pod"@ ==> info->0.description == ABOUT_FK_POD@
            &&& key == "fk_region"@ ==> info->0.description == ABOUT_FK_REGION@
            &&& key == "fk_service_secret"@ ==> info->0.description == ABOUT_FK_SERVICE_SECRET@
            &&& key == "health_check_path"@ ==> info->0.description == ABOUT_HEALTH_CHECK_PATH@
            &&& key == "maintenance_mode"@ ==> info->0.description == ABOUT_MAINTENANCE_MODE@
            &&& key == "name"@ ==> info->0.description == ABOUT_NAME@
            &&& key == "pre_deploy_command"@ ==> info->0.description == ABOUT_PRE_DEPLOY_COMMAND@
            &&& key == "registry_url"@ ==> info->0.description == ABOUT_REGISTRY_URL@
            &&& key == "repository_branch"@ ==> info->0.description == ABOUT_REPOSITORY_BRANCH@
            &&& key == "repository_url"@ ==> info->0.description == ABOUT_REPOSITORY_URL@
            &&& key == "root_path"@ ==> info->0.description == ABOUT_ROOT_PATH@
            &&& key == "run_command"@ ==> info->0.description == ABOUT_RUN_COMMAND@
            &&& key == "runtime"@ ==> info->0.description == ABOUT_RUNTIME@
            &&& key == "deploy_type"@ ==> info->0.enum_values == seq!["webservice"@, "static"@, "private-service"@, "worker"@]
            &&& key == "runtime"@ ==> info->0.enum_values == seq!["node"@, "deno"@, "rust"@, "python"@, "go"@, "ruby"@, "elixir"@, "php"@, "jvm"@, "dotnet"@, "cpp"@, "static"@, "registry"@]
            &&& info is Some && key != "deploy_type"@ && key != "runtime"@ ==> info->0.enum_values.len() == 0
        }),
{
    property_shapes();
    let t = table_of(service_rows());
    assert(t.len() == 18);
    assert(t[0] == ("active"@, info_of(service_rows()[0])));
    assert(t[1] == ("build_command"@, info_of(service_rows()[1])));
    assert(t[2] == ("build_path"@, info_of(service_rows()[2])));
    assert(t[3] == ("deploy_type"@, info_of(service_rows()[3])));
    assert(t[4] == ("disk"@, info_of(service_rows()[4])));
    assert(t[5] == ("fk_pod"@, info_of(service_rows()[5])));
    assert(t[6] == ("fk_region"@, info_of(service_rows()[6])));
    assert(t[7] == ("fk_service_secret"@, info_of(service_rows()[7])));
    assert(t[8] == ("health_check_path"@, info_of(service_rows()[8])));
    assert(t[9] == ("maintenance_mode"@, info_of(service_rows()[9])));
    assert(t[10] == ("name"@, info_of(service_rows()[10])));
    assert(t[11] == ("pre_deploy_command"@, info_of(service_rows()[11])));
    assert(t[12] == ("registry_url"@, info_of(service_rows()[12])));
    assert(t[13] == ("repository_branch"@, info_of(service_rows()[13])));
    assert(t[14] == ("repository_url"@, info_of(service_rows()[14])));
    assert(t[15] == ("root_path"@, info_of(service_rows()[15])));
    assert(t[16] == ("run_command"@, info_of(service_rows()[16])));
    assert(t[17] == ("runtime"@, info_of(service_rows()[17])));
    if key == "active"@ {
        table_entry(t, key, 0, 0);
    }
    if key == "build_command"@ {
        table_entry(t, key, 1, 0);
    }
    if key == "build_path"@ {
        table_entry(t, key, 2, 0);
    }
    if key == "deploy_type"@ {
        table_entry(t, key, 3, 0);
    }
    if key == "disk"@ {
        table_entry(t, key, 4, 0);
    }
    if key == "fk_pod"@ {
        table_entry(t, key, 5, 0);
    }
    if key == "fk_region"@ {
        table_entry(t, key, 6, 0);
    }
    if key == "fk_service_secret"@ {
        table_entry(t, key, 7, 0);
    }
    if key == "health_check_path"@ {
        table_entry(t, key, 8, 0);
    }
    if key == "maintenance_mode"@ {
        table_entry(t, key, 9, 0);
    }
    if key == "name"@ {
        table_entry(t, key, 10, 0);
    }
    if key == "pre_deploy_command"@ {
        table_entry(t, key, 11, 0);
    }
    if key == "registry_url"@ {
        table_entry(t, key, 12, 0);
    }
    if key == "repository_branch"@ {
        table_entry(t, key, 13, 0);
    }
    if key == "repository_url"@ {
        table_entry(t, key, 14, 0);
    }
    if key == "root_path"@ {
        table_entry(t, key, 15, 0);
    }
    if key == "run_command"@ {
        table_entry(t, key, 16, 0);
    }
    if key == "runtime"@ {
        table_entry(t, key, 17, 0);
    }
    if key != "active"@ && key != "build_command"@ && key != "build_path"@ && key != "deploy_type"@ && key != "disk"@ && key != "fk_pod"@ && key != "fk_region"@ && key != "fk_service_secret"@ && key != "health_check_path"@ && key != "maintenance_mode"@ && key != "name"@ && key != "pre_deploy_command"@ && key != "registry_url"@ && key != "repository_branch"@ && key != "repository_url"@ && key != "root_path"@ && key != "run_command"@ && key != "runtime"@ {
        table_without(t, key, 0);
    }
    assert(strs(crate::config::DEPLOY_TYPES@) =~= seq!["webservice"@, "static"@, "private-service"@, "worker"@]);
    assert(strs(crate::config::RUNTIMES@) =~= seq!["node"@, "deno"@, "rust"@, "python"@, "go"@, "ruby"@, "elixir"@, "php"@, "jvm"@, "dotnet"@, "cpp"@, "static"@, "registry"@]);
}

/// The properties of the disk block, each with what it is about.
pub proof fn properties_of_the_disk(key: Seq<char>)
    ensures
        ({
            let info = described(seq!["service"@, "disk"@], key);
            &&& info is Some <==> key == "mount_path"@ || key == "size"@
            &&& key == "mount_path"@ ==> info->0.description == ABOUT_MOUNT_PATH@
            &&& key == "size"@ ==> info->0.description == ABOUT_SIZE@
            &&& info is Some ==> info->0.enum_values.len() == 0
        }),
{
    property_shapes();
    let t = table_of(disk_rows());
    assert(t.len() == 2);
    assert(t[0] == ("mount_path"@, info_of(disk_rows()[0])));
    assert(t[1] == ("size"@, info_of(disk_rows()[1])));
    if key == "mount_path"@ {
        table_entry(t, key, 0, 0);
    }
    if key == "size"@ {
        table_entry(t, key, 1, 0);
    }
    if key != "mount_path"@ && key != "size"@ {
        table_without(t, key, 0);
    }
}

// ─── Entries ───────────────────────────────────────────────────────────────

/// Whether an entry stands for a record of a workspace under a reference.
pub open spec fn stands_for(w: WorkspaceData, key: Seq<char>, e: EntryView) -> bool {
    ||| key == "fk_workspace"@ && e.id == w.workspace.id@ && e.label == w.workspace.name@
    ||| key == "fk_project"@ && exists|i: int|
        0 <= i < w.projects@.len() && e.id == (#[trigger] w.projects@[i]).id@ && e.label
            == w.projects@[i].name@
    ||| key == "fk_region"@ && exists|i: int|
        0 <= i < w.regions@.len() && e.id == (#[trigger] w.regions@[i]).id@ && shown_as(
            e.label,
            w.regions@[i].label,
        )
    ||| key == "fk_pod"@ && exists|i: int|
        0 <= i < w.pods@.len() && e.id == (#[trigger] w.pods@[i]).id@ && shown_as(
            e.label,
            w.pods@[i].label,
        )
    ||| key == "fk_service_secret"@ && exists|i: int|
        0 <= i < w.registry_secrets@.len() && e.id == (#[trigger] w.registry_secrets@[i]).id@
            && shown_as(e.label, w.registry_secrets@[i].name)
    ||| key == "fk_service_secret"@ && exists|i: int|
        0 <= i < w.repository_secrets@.len() && e.id == (#[trigger] w.repository_secrets@[i]).id@
            && shown_as(e.label, w.repository_secrets@[i].name)
}

pub open spec fn shown_as(label: Seq<char>, o: Option<String>) -> bool {
    match o {
        Some(s) => label == s@,
        None => label.len() == 0,
    }
}

/// The references differ from each other.
pub proof fn reference_shapes()
    ensures
        "fk_workspace"@.len() == 12,
        "fk_project"@.len() == 10,
        "fk_region"@.len() == 9,
        "fk_pod"@.len() == 6,
        "fk_service_secret"@.len() == 17,
{
    reveal_strlit("fk_workspace");
    reveal_strlit("fk_project");
    reveal_strlit("fk_region");
    reveal_strlit("fk_pod");
    reveal_strlit("fk_service_secret");
    assert("fk_workspace"@.len() == 12);
    assert("fk_project"@.len() == 10);
    assert("fk_region"@.len() == 9);
    assert("fk_pod"@.len() == 6);
    assert("fk_service_secret"@.len() == 17);
}

/// Every entry under a reference stands for a record of that kind.
pub proof fn entries_stand_for_records(w: WorkspaceData, key: Seq<char>, k: int)
    requires
        0 <= k < entries_in(w, key).len(),
    ensures
        stands_for(w, key, entries_in(w, key)[k]),
{
    reference_shapes();
    let e = entries_in(w, key)[k];
    reveal_strlit("");
    if key == "fk_project"@ {
        assert(e.id == w.projects@[k].id@);
    } else if key == "fk_region"@ {
        assert(e.id == w.regions@[k].id@);
    } else if key == "fk_pod"@ {
        assert(e.id == w.pods@[k].id@);
    } else if key == "fk_service_secret"@ {
        let n = w.registry_secrets@.len();
        if k < n {
            assert(e.id == w.registry_secrets@[k].id@);
        } else {
            assert(e.id == w.repository_secrets@[k - n].id@);
        }
    }
}

/// Every record of a workspace has an entry under the reference of its kind.
pub proof fn records_have_entries(w: WorkspaceData)
    ensures
        entries_in(w, "fk_workspace"@).len() == 1,
        entries_in(w, "fk_workspace"@)[0].id == w.workspace.id@,
        entries_in(w, "fk_project"@).len() == w.projects@.len(),
        forall|i: int|
            0 <= i < w.projects@.len() ==> entries_in(w, "fk_project"@)[i].id == (
            #[trigger] w.projects@[i]).id@,
        entries_in(w, "fk_region"@).len() == w.regions@.len(),
        forall|i: int|
            0 <= i < w.regions@.len() ==> entries_in(w, "fk_region"@)[i].id == (
            #[trigger] w.regions@[i]).id@,
        entries_in(w, "fk_pod"@).len() == w.pods@.len(),
        forall|i: int|
            0 <= i < w.pods@.len() ==> entries_in(w, "fk_pod"@)[i].id == (
            #[trigger] w.pods@[i]).id@,
        entries_in(w, "fk_service_secret"@).len() == w.registry_secrets@.len()
            + w.repository_secrets@.len(),
        forall|i: int|
            0 <= i < w.registry_secrets@.len() ==> entries_in(w, "fk_service_secret"@)[i].id == (
            #[trigger] w.registry_secrets@[i]).id@,
        forall|i: int|
            0 <= i < w.repository_secrets@.len() ==> entries_in(w, "fk_service_secret"@)[i
                + w.registry_secrets@.len()].id == (#[trigger] w.repository_secrets@[i]).id@,
{
    reference_shapes();
}

proof fn all_entries_are_those_in(ws: Seq<WorkspaceData>, key: Seq<char>, e: EntryView)
    ensures
        all_entries(ws, key).contains(e) <==> exists|i: int|
            0 <= i < ws.len() && entries_in(#[trigger] ws[i], key).contains(e),
    decreases ws.len(),
{
    if ws.len() > 0 {
        let front = ws.drop_last();
        all_entries_are_those_in(front, key, e);
        let a = all_entries(front, key);
        let b = entries_in(ws.last(), key);
        let all = a + b;
        assert(all.contains(e) <==> a.contains(e) || b.contains(e)) by {
            if a.contains(e) {
                let i = a.index_of(e);
                assert(all[i] == e);
            }
            if b.contains(e) {
                let i = b.index_of(e);
                assert(all[a.len() + i] == e);
            }
            if all.contains(e) {
                let i = all.index_of(e);
                if i < a.len() {
                    assert(a[i] == e);
                } else {
                    assert(b[i - a.len()] == e);
                }
            }
        }
        if a.contains(e) {
            let i = choose|i: int|
                0 <= i < front.len() && entries_in(#[trigger] front[i], key).contains(e);
            assert(ws[i] == front[i]);
        }
        if b.contains(e) {
            assert(entries_in(ws[ws.len() - 1], key).contains(e));
        }
        if exists|i: int| 0 <= i < ws.len() && entries_in(#[trigger] ws[i], key).contains(e) {
            let i = choose|i: int|
                0 <= i < ws.len() && entries_in(#[trigger] ws[i], key).contains(e);
            if i < front.len() {
                assert(front[i] == ws[i]);
            }
        }
    }
}

/// Whether a workspace counts for a reference: every one for the workspace itself
/// and where the workspace of the document is not among them, and otherwise that
/// one.
pub open spec fn counts(c: ContextData, key: Seq<char>, id: Option<Seq<char>>, i: int) -> bool {
    let ws = c.workspaces@;
    ||| key == "fk_workspace"@
    ||| id is None
    ||| id->0.len() == 0
    ||| ws[i].workspace.id@ == id->0
    ||| forall|k: int| 0 <= k < ws.len() ==> (#[trigger] ws[k]).workspace.id@ != id->0
}

/// What is offered for a reference are the records of that kind that have an id,
/// out of the workspaces that count.
pub proof fn offered_entries(
    c: ContextData,
    key: Seq<char>,
    id: Option<Seq<char>>,
    e: EntryView,
)
    ensures
        entries_of(c, key, id).contains(e) <==> e.id.len() > 0 && exists|i: int|
            0 <= i < c.workspaces@.len() && counts(c, key, id, i) && entries_in(
                #[trigger] c.workspaces@[i],
                key,
            ).contains(e),
        entries_of(c, key, id).contains(e) ==> exists|i: int|
            0 <= i < c.workspaces@.len() && counts(c, key, id, i) && stands_for(
                #[trigger] c.workspaces@[i],
                key,
                e,
            ),
{
    let ws = c.workspaces@;
    let from = if key == "fk_workspace"@ {
        ws
    } else {
        scoped(ws, id)
    };
    let all = all_entries(from, key);
    let kept = all.filter(has_id());
    all_entries_are_those_in(from, key, e);
    if kept.contains(e) {
        let k = kept.index_of(e);
        all.lemma_filter_pred(has_id(), k);
        all.lemma_filter_contains_rev(has_id(), e);
    }
    if all.contains(e) && e.id.len() > 0 {
        let k = all.index_of(e);
        all.lemma_filter_contains(has_id(), k);
    }
    scope_counts(c, key, id, e, from);
    if kept.contains(e) {
        let i = choose|i: int|
            0 <= i < ws.len() && counts(c, key, id, i) && entries_in(
                #[trigger] ws[i],
                key,
            ).contains(e);
        let k = entries_in(ws[i], key).index_of(e);
        entries_stand_for_records(ws[i], key, k);
    }
}

proof fn scope_counts(
    c: ContextData,
    key: Seq<char>,
    id: Option<Seq<char>>,
    e: EntryView,
    from: Seq<WorkspaceData>,
)
    requires
        from == (if key == "fk_workspace"@ {
            c.workspaces@
        } else {
            scoped(c.workspaces@, id)
        }),
    ensures
        (exists|i: int| 0 <= i < from.len() && entries_in(#[trigger] from[i], key).contains(e))
            <==> exists|i: int|
            0 <= i < c.workspaces@.len() && counts(c, key, id, i) && entries_in(
                #[trigger] c.workspaces@[i],
                key,
            ).contains(e),
{
    let ws = c.workspaces@;
    if key != "fk_workspace"@ && id is Some && id->0.len() > 0 {
        let p = workspace_is(id->0);
        let hit = ws.filter(p);
        if hit.len() > 0 {
            assert(from == hit);
            ws.lemma_filter_pred(p, 0);
            assert(hit.contains(hit[0]));
            ws.lemma_filter_contains_rev(p, hit[0]);
            let z = ws.index_of(hit[0]);
            assert(ws[z].workspace.id@ == id->0);
            if exists|i: int| 0 <= i < from.len() && entries_in(#[trigger] from[i], key).contains(e) {
                let i = choose|i: int|
                    0 <= i < from.len() && entries_in(#[trigger] from[i], key).contains(e);
                ws.lemma_filter_pred(p, i);
                assert(hit.contains(hit[i]));
                ws.lemma_filter_contains_rev(p, hit[i]);
                let k = ws.index_of(hit[i]);
                assert(ws[k] == hit[i]);
                assert(counts(c, key, id, k));
            }
            if exists|i: int|
                0 <= i < ws.len() && counts(c, key, id, i) && entries_in(
                    #[trigger] ws[i],
                    key,
                ).contains(e) {
                let i = choose|i: int|
                    0 <= i < ws.len() && counts(c, key, id, i) && entries_in(
                        #[trigger] ws[i],
                        key,
                    ).contains(e);
                assert(p(ws[i]));
                ws.lemma_filter_contains(p, i);
                let k = hit.index_of(ws[i]);
                assert(from[k] == ws[i]);
            }
        } else {
            assert(from == ws);
            assert forall|k: int| 0 <= k < ws.len() implies (#[trigger] ws[k]).workspace.id@
                != id->0 by {
                if p(ws[k]) {
                    ws.lemma_filter_contains(p, k);
                }
            }
            assert forall|k: int| 0 <= k < ws.len() implies counts(c, key, id, k) by {}
            same_entries(c, key, id, e);
        }
    } else {
        assert(from == ws);
        same_entries(c, key, id, e);
    }
}

proof fn same_entries(c: ContextData, key: Seq<char>, id: Option<Seq<char>>, e: EntryView)
    requires
        forall|k: int| 0 <= k < c.workspaces@.len() ==> counts(c, key, id, k),
    ensures
        (exists|i: int|
            0 <= i < c.workspaces@.len() && entries_in(#[trigger] c.workspaces@[i], key).contains(e))
            <==> exists|i: int|
            0 <= i < c.workspaces@.len() && counts(c, key, id, i) && entries_in(
                #[trigger] c.workspaces@[i],
                key,
            ).contains(e),
{
}

// ─── Completion ────────────────────────────────────────────────────────────

/// At a name what is offered are the properties of that level that are not there
/// yet.
pub proof fn names_are_offered(
    text: Seq<char>,
    parsed: ParsedView,
    offset: int,
    config: Option<PartiriConfig>,
    context: Option<ContextData>,
    path: Seq<Seq<char>>,
    typed: Option<Seq<char>>,
    span: Option<Span>,
    key: Seq<char>,
)
    requires
        cursor_at(text, tree_of(parsed), offset) == (CursorView::Name {
            path,
            key: typed,
            range: span,
        }),
    ensures
        ({
            let items = completions_of(text, parsed, offset, config, context);
            (exists|i: int| 0 <= i < items.len() && (#[trigger] items[i]).label == key) <==> described(
                path,
                key,
            ) is Some && !(tree_of(parsed) matches Some(n) && keys_at(n, path).contains(key))
        }),
{
    let items = completions_of(text, parsed, offset, config, context);
    let present = match tree_of(parsed) {
        Some(n) => keys_at(n, path),
        None => seq![],
    };
    if let Some(t) = level_of(path) {
        names_are_those_missing(t, present, key);
        known_means_listed(t, key);
        let all = name_items(t, present);
        assert(items == all);
        if exists|i: int| 0 <= i < items.len() && (#[trigger] items[i]).label == key {
            let i = choose|i: int| 0 <= i < items.len() && (#[trigger] items[i]).label == key;
            assert(all[i].label == key);
        }
        if !present.contains(key) && exists|j: int| 0 <= j < t.len() && t[j].0 == key {
            let i = choose|i: int| 0 <= i < all.len() && all[i].label == key;
            assert(items[i].label == key);
        }
    }
}

proof fn known_means_listed(t: TableView, key: Seq<char>)
    ensures
        known_info(t, key) is Some <==> exists|j: int| 0 <= j < t.len() && t[j].0 == key,
{
    listed_from(t, key, 0);
}

proof fn listed_from(t: TableView, key: Seq<char>, from: int)
    requires
        0 <= from <= t.len(),
    ensures
        entry_index(t, key, from) < t.len() <==> exists|j: int| from <= j < t.len() && t[j].0
            == key,
    decreases t.len() - from,
{
    if from < t.len() && t[from].0 != key {
        listed_from(t, key, from + 1);
    }
}

/// At a value what is offered are the values that the schema lists for the key,
/// or else the records that the reference can name: shown by their labels and put
/// in as their ids.
pub proof fn values_are_offered(
    text: Seq<char>,
    parsed: ParsedView,
    offset: int,
    config: Option<PartiriConfig>,
    context: Option<ContextData>,
    path: Seq<Seq<char>>,
    key: Seq<char>,
    span: Span,
    value: Option<Seq<char>>,
)
    requires
        cursor_at(text, tree_of(parsed), offset) == (CursorView::Value {
            path,
            key,
            range: span,
            text: value,
        }),
    ensures
        ({
            let items = completions_of(text, parsed, offset, config, context);
            let listed = match described(path, key) {
                Some(info) => info.enum_values,
                None => seq![],
            };
            &&& listed.len() > 0 ==> items.len() == listed.len() && forall|i: int|
                0 <= i < items.len() ==> (#[trigger] items[i]).label == listed[i]
            &&& listed.len() == 0 && context is None ==> items.len() == 0
            &&& listed.len() == 0 && context is Some ==> {
                let entries = entries_of(
                    context->0,
                    key,
                    match config {
                        Some(c) => if c.fk_workspace@.len() > 0 {
                            Some(c.fk_workspace@)
                        } else {
                            None
                        },
                        None => None,
                    },
                );
                items.len() == entries.len() && forall|i: int|
                    0 <= i < items.len() ==> (#[trigger] items[i]).label == entries[i].label
                        && items[i].insert_text == Some(entries[i].id) && items[i].detail == Some(
                        entries[i].detail,
                    )
            }
        }),
{
}

// ─── Hover ─────────────────────────────────────────────────────────────────

/// Over a name stands what the property is about, over the name; over a value
/// what it resolves to, or else what the property is about, over the value.
pub proof fn hover_says_what_is_there(
    text: Seq<char>,
    n: NodeView,
    offset: int,
    context: Option<ContextData>,
)
    ensures
        ({
            let h = hover_of(text, ParsedView::Value(n), offset, context);
            match cursor_in(n, offset, seq![]) {
                CursorView::Name { path, key: Some(key), range: Some(span) } => {
                    &&& h is Some ==> h->0.range == (
                        position_of(text, span.start as int),
                        position_of(text, span.end as int),
                    )
                    &&& described(path, key) is None ==> h is None
                    &&& described(path, key) matches Some(info) ==> (info.description.len() > 0
                        ==> h is Some && info.description.is_prefix_of(h->0.markdown))
                },
                CursorView::Value { path, key, range, text: value } => {
                    &&& h is Some ==> h->0.range == (
                        position_of(text, range.start as int),
                        position_of(text, range.end as int),
                    )
                    &&& context is None && described(path, key) is Some && described(
                        path,
                        key,
                    )->0.description.len() > 0 ==> h is Some && h->0.markdown == described(
                        path,
                        key,
                    )->0.description
                    &&& (key == "fk_workspace"@ || key == "fk_project"@ || key == "fk_region"@ || key
                        == "fk_pod"@ || key == "fk_service_secret"@ || key == "id"@) && value is Some
                        && context is Some && crate::lsp::context_cache::resolved(
                        context->0,
                        value->0,
                    ) is Some ==> h is Some && Some(h->0.markdown)
                        == crate::lsp::context_cache::resolved(context->0, value->0)
                },
                _ => h is None,
            }
        }),
{
    let ids = strs(UUID_KEYS@);
    assert(ids[0] == "fk_workspace"@);
    assert(ids[1] == "fk_project"@);
    assert(ids[2] == "fk_region"@);
    assert(ids[3] == "fk_pod"@);
    assert(ids[4] == "fk_service_secret"@);
    assert(ids[5] == "id"@);
}

// ─── Quick fixes ───────────────────────────────────────────────────────────

/// An edit of the document.
pub open spec fn edit(
    title: Seq<char>,
    text: Seq<char>,
    from: int,
    to: int,
    new_text: Seq<char>,
) -> ActionView {
    ActionView::Fix { title, range: (position_of(text, from), position_of(text, to)), new_text }
}

/// The edits that are offered mend what is wrong: the line of one of two sources
/// is removed, a name that is too long is cut where it stands, and a missing build
/// command is put behind the root path. Nothing else is offered.
pub proof fn fixes_mend_what_is_wrong(
    text: Seq<char>,
    n: NodeView,
    c: PartiriConfig,
    service: PropView,
    registry: PropView,
    repository: PropView,
    name: PropView,
    root: PropView,
)
    requires
        has_prop(n, "service"@, service),
        has_prop(service.value, "registry_url"@, registry),
        has_prop(service.value, "repository_url"@, repository),
        has_prop(service.value, "name"@, name),
        has_prop(service.value, "root_path"@, root),
    ensures
        ({
            let s = c.service;
            let fixes = fixes_of(text, ParsedView::Value(n), Some(c));
            let both = has_text(s.repository_url) && has_text(s.registry_url);
            let long = s.name@.len() > 16;
            let unbuilt = has_text(s.repository_url) && !(s.deploy_type@ == "static"@ && s.runtime@
                == "static"@) && !has_words(s.build_command);
            let reg = line_span(text, registry.name_span.start as int);
            let rep = line_span(text, repository.name_span.start as int);
            let at = line_tail(text, root.name_span.start as int);
            let spot = place(name.value);
            fixes == (if both {
                seq![
                    edit(
                        "Remove registry_url (keep repository source)"@,
                        text,
                        reg.0,
                        reg.1,
                        ""@,
                    ),
                    edit(
                        "Remove repository_url (keep repository source)"@,
                        text,
                        rep.0,
                        rep.1,
                        ""@,
                    ),
                ]
            } else {
                seq![]
            }) + (if long {
                seq![
                    edit(
                        "Truncate name to 16 characters"@,
                        text,
                        spot.start as int,
                        spot.end as int,
                        json_text(s.name@.take(16)),
                    ),
                ]
            } else {
                seq![]
            }) + (if unbuilt {
                seq![
                    edit(
                        "Add \"build_command\""@,
                        text,
                        at,
                        at,
                        "\n    \"build_command\": \"\","@,
                    ),
                ]
            } else {
                seq![]
            })
        }),
{
    paths_lead(n, "service"@, "registry_url"@);
    paths_lead(n, "service"@, "repository_url"@);
    paths_lead(n, "service"@, "name"@);
    paths_lead(n, "service"@, "root_path"@);
    let s = c.service;
    if let Some(x) = s.build_command {
        blank_means_white(x@);
    }
    let fixes = fixes_of(text, ParsedView::Value(n), Some(c));
    let none = Seq::<ActionView>::empty();
    let removals = if has_repo(s) && has_registry(s) {
        removal(text, n, "registry_url"@, "Remove registry_url (keep repository source)"@) + removal(
            text,
            n,
            "repository_url"@,
            "Remove repository_url (keep repository source)"@,
        )
    } else {
        none
    };
    let shorter = if s.name@.len() > 16 {
        truncation(text, n, s.name@)
    } else {
        none
    };
    let build = if has_repo(s) && !is_static_site(s) && !filled(s.build_command) {
        addition(text, n)
    } else {
        none
    };
    assert(fixes =~= removals + shorter + build);
    let reg = line_span(text, registry.name_span.start as int);
    let rep = line_span(text, repository.name_span.start as int);
    if has_repo(s) && has_registry(s) {
        assert(removals =~= seq![
            edit("Remove registry_url (keep repository source)"@, text, reg.0, reg.1, ""@),
            edit("Remove repository_url (keep repository source)"@, text, rep.0, rep.1, ""@),
        ]);
    }
}

} // verus!
