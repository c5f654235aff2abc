//! What validation decides: when each check fails, and when the command does.
use vstd::prelude::*;
use vstd::string::*;

use crate::config::{is_valid, PartiriConfig};
use crate::text::views;
use crate::validate::{
    balance_rows, branch_rows, has_failure, health_rows, name_rows, pod_rows, project_rows,
    region_rows, registry_rows, remote_rows, repository_rows, scope_rows, static_rows,
    valid_means_no_failure, workspace_rows, RemoteAnswers, RowView, Status,
};

verus! {

/// Whether some row says `status` of `field`.
pub open spec fn reports(rows: Seq<RowView>, field: Seq<char>, status: Status) -> bool {
    exists|i: int|
        0 <= i < rows.len() && (#[trigger] rows[i]).field == field && rows[i].status == status
}

/// Whether no row speaks of `field`.
pub open spec fn silent_on(rows: Seq<RowView>, field: Seq<char>) -> bool {
    forall|i: int| 0 <= i < rows.len() ==> (#[trigger] rows[i]).field != field
}

/// Whether the rows speak of `field`, and always say `status` of it.
pub open spec fn only_reports(rows: Seq<RowView>, field: Seq<char>, status: Status) -> bool {
    &&& reports(rows, field, status)
    &&& forall|i: int|
        0 <= i < rows.len() && (#[trigger] rows[i]).field == field ==> rows[i].status == status
}

proof fn silent_concat(a: Seq<RowView>, b: Seq<RowView>, field: Seq<char>)
    ensures
        silent_on(a + b, field) <==> silent_on(a, field) && silent_on(b, field),
{
    let m = a + b;
    if silent_on(m, field) {
        assert forall|i: int| 0 <= i < a.len() implies (#[trigger] a[i]).field != field by {
            assert(m[i] == a[i]);
        }
        assert forall|i: int| 0 <= i < b.len() implies (#[trigger] b[i]).field != field by {
            assert(m[a.len() + i] == b[i]);
        }
    }
}

proof fn only_concat(a: Seq<RowView>, b: Seq<RowView>, field: Seq<char>, status: Status)
    ensures
        silent_on(a, field) && only_reports(b, field, status) ==> only_reports(
            a + b,
            field,
            status,
        ),
        silent_on(b, field) && only_reports(a, field, status) ==> only_reports(
            a + b,
            field,
            status,
        ),
{
    let m = a + b;
    if silent_on(a, field) && only_reports(b, field, status) {
        let i = choose|i: int|
            0 <= i < b.len() && (#[trigger] b[i]).field == field && b[i].status == status;
        assert(m[a.len() + i] == b[i]);
        assert forall|k: int| 0 <= k < m.len() && (#[trigger] m[k]).field
            == field implies m[k].status == status by {
            if k < a.len() {
                assert(m[k] == a[k]);
            } else {
                assert(m[k] == b[k - a.len()]);
            }
        }
    }
    if silent_on(b, field) && only_reports(a, field, status) {
        let i = choose|i: int|
            0 <= i < a.len() && (#[trigger] a[i]).field == field && a[i].status == status;
        assert(m[i] == a[i]);
        assert forall|k: int| 0 <= k < m.len() && (#[trigger] m[k]).field
            == field implies m[k].status == status by {
            if k < a.len() {
                assert(m[k] == a[k]);
            } else {
                assert(m[k] == b[k - a.len()]);
            }
        }
    }
}

/// The fields of the remote checks differ from each other.
pub proof fn field_shapes()
    ensures
        "remote.fk_workspace"@.len() == 19 && "remote.fk_workspace"@[7] == 'f',
        "remote.fk_project"@.len() == 17,
        "remote.fk_region"@.len() == 16,
        "remote.fk_pod"@.len() == 13,
        "remote.service_name"@.len() == 19 && "remote.service_name"@[7] == 's',
        "remote.repository_url"@.len() == 21,
        "remote.repository_branch"@.len() == 24 && "remote.repository_branch"@[7] == 'r',
        "remote.registry_url"@.len() == 19 && "remote.registry_url"@[7] == 'r',
        "remote.balance"@.len() == 14,
        "remote.health_check_path"@.len() == 24 && "remote.health_check_path"@[7] == 'h',
{
    reveal_strlit("remote.fk_workspace");
    reveal_strlit("remote.fk_project");
    reveal_strlit("remote.fk_region");
    reveal_strlit("remote.fk_pod");
    reveal_strlit("remote.service_name");
    reveal_strlit("remote.repository_url");
    reveal_strlit("remote.repository_branch");
    reveal_strlit("remote.registry_url");
    reveal_strlit("remote.balance");
    reveal_strlit("remote.health_check_path");
    assert("remote.fk_workspace"@.len() == 19);
    assert("remote.fk_project"@.len() == 17);
    assert("remote.fk_region"@.len() == 16);
    assert("remote.fk_pod"@.len() == 13);
    assert("remote.service_name"@.len() == 19);
    assert("remote.repository_url"@.len() == 21);
    assert("remote.repository_branch"@.len() == 24);
    assert("remote.registry_url"@.len() == 19);
    assert("remote.balance"@.len() == 14);
    assert("remote.health_check_path"@.len() == 24);
}

/// Whether a text that may be absent is there and not empty.
pub open spec fn has_text(o: Option<String>) -> bool {
    o matches Some(s) && s@.len() > 0
}

/// Whether an API list names an id.
pub open spec fn lists_workspace(a: RemoteAnswers, id: Seq<char>) -> bool {
    a.workspaces matches Ok(v) && exists|i: int| 0 <= i < v@.len() && (#[trigger] v@[i]).id@ == id
}

pub open spec fn lists_project(a: RemoteAnswers, id: Seq<char>) -> bool {
    a.projects matches Ok(v) && exists|i: int| 0 <= i < v@.len() && (#[trigger] v@[i]).id@ == id
}

pub open spec fn lists_region(a: RemoteAnswers, id: Seq<char>) -> bool {
    a.regions matches Ok(v) && exists|i: int| 0 <= i < v@.len() && (#[trigger] v@[i]).id@ == id
}

pub open spec fn lists_pod(a: RemoteAnswers, id: Seq<char>) -> bool {
    a.pods matches Ok(v) && exists|i: int| 0 <= i < v@.len() && (#[trigger] v@[i]).id@ == id
}

pub open spec fn lists_name(a: RemoteAnswers, name: Seq<char>) -> bool {
    a.services matches Ok(v) && exists|i: int|
        0 <= i < v@.len() && (#[trigger] v@[i]).name@ == name
}

pub open spec fn lists_branch(a: RemoteAnswers, name: Seq<char>) -> bool {
    a.branches matches Ok(v) && exists|i: int| 0 <= i < v@.len() && (#[trigger] v@[i])@ == name
}

/// Whether the name is looked up: the service does not exist yet, and both its
/// project and its name are known.
pub open spec fn name_is_looked_up(c: PartiriConfig) -> bool {
    c.id is None && c.fk_project@.len() > 0 && c.service.name@.len() > 0
}

/// Whether a text goes on from `head`.
pub open spec fn starts(s: Seq<char>, head: Seq<char>) -> bool {
    exists|rest: Seq<char>| s == #[trigger] (head + rest)
}

/// Whether a health check is a URL that can be probed.
pub open spec fn is_probed(c: PartiriConfig) -> bool {
    c.service.health_check_path matches Some(p) && (starts(p@, "http://"@) || starts(
        p@,
        "https://"@,
    ))
}

/// Each remote check comes out by what the API lists: what a check looks for and
/// does not find fails it, and what does not apply is not checked. The name, the
/// balance and the probe of the health check are never failed by an API that
/// does not answer.
pub proof fn remote_checks_follow_the_api(c: PartiriConfig, a: RemoteAnswers)
    ensures
        ({
            let rows = remote_rows(c, a);
            let s = c.service;
            let verdict = |found: bool| if found { Status::Pass } else { Status::Fail };
            &&& only_reports(
                rows,
                "remote.fk_workspace"@,
                verdict(lists_workspace(a, c.fk_workspace@)),
            )
            &&& if c.fk_workspace@.len() > 0 {
                &&& only_reports(
                    rows,
                    "remote.fk_project"@,
                    verdict(lists_project(a, c.fk_project@)),
                )
                &&& only_reports(rows, "remote.fk_region"@, verdict(lists_region(a, s.fk_region@)))
                &&& only_reports(rows, "remote.fk_pod"@, verdict(lists_pod(a, s.fk_pod@)))
                &&& only_reports(
                    rows,
                    "remote.balance"@,
                    if a.balance matches Ok(b) && !b.exhausted {
                        Status::Pass
                    } else {
                        Status::Warn
                    },
                )
            } else {
                &&& silent_on(rows, "remote.fk_project"@)
                &&& silent_on(rows, "remote.fk_region"@)
                &&& silent_on(rows, "remote.fk_pod"@)
                &&& silent_on(rows, "remote.balance"@)
            }
            &&& if name_is_looked_up(c) {
                only_reports(
                    rows,
                    "remote.service_name"@,
                    if a.services is Err {
                        Status::Warn
                    } else {
                        verdict(!lists_name(a, s.name@))
                    },
                )
            } else {
                silent_on(rows, "remote.service_name"@)
            }
            &&& if has_text(s.repository_url) {
                only_reports(rows, "remote.repository_url"@, verdict(a.branches is Ok))
            } else {
                silent_on(rows, "remote.repository_url"@)
            }
            &&& if has_text(s.repository_url) && a.branches is Ok && has_text(
                s.repository_branch,
            ) {
                only_reports(
                    rows,
                    "remote.repository_branch"@,
                    verdict(lists_branch(a, s.repository_branch->0@)),
                )
            } else {
                silent_on(rows, "remote.repository_branch"@)
            }
            &&& if has_text(s.registry_url) {
                only_reports(rows, "remote.registry_url"@, verdict(a.registry is Ok))
            } else {
                silent_on(rows, "remote.registry_url"@)
            }
            &&& if has_text(s.health_check_path) {
                only_reports(
                    rows,
                    "remote.health_check_path"@,
                    if is_probed(c) && (a.health matches Ok(h) && h.ok) {
                        Status::Pass
                    } else {
                        Status::Warn
                    },
                )
            } else {
                silent_on(rows, "remote.health_check_path"@)
            }
        }),
{
    field_shapes();
    let r0 = workspace_rows(c, a.workspaces);
    let r1 = scope_rows(c, a);
    let r2 = name_rows(c, a.services);
    let r3 = repository_rows(c, a.branches);
    let r4 = registry_rows(c, a.registry);
    let r5 = balance_rows(c, a.balance);
    let r6 = health_rows(c, a.health);
    workspace_piece(c, a);
    scope_piece(c, a);
    name_piece(c, a);
    source_piece(c, a);
    money_and_health_piece(c, a);
    join(r0, r1, r2, r3, r4, r5, r6, "remote.fk_workspace"@);
    join(r0, r1, r2, r3, r4, r5, r6, "remote.fk_project"@);
    join(r0, r1, r2, r3, r4, r5, r6, "remote.fk_region"@);
    join(r0, r1, r2, r3, r4, r5, r6, "remote.fk_pod"@);
    join(r0, r1, r2, r3, r4, r5, r6, "remote.service_name"@);
    join(r0, r1, r2, r3, r4, r5, r6, "remote.repository_url"@);
    join(r0, r1, r2, r3, r4, r5, r6, "remote.repository_branch"@);
    join(r0, r1, r2, r3, r4, r5, r6, "remote.registry_url"@);
    join(r0, r1, r2, r3, r4, r5, r6, "remote.balance"@);
    join(r0, r1, r2, r3, r4, r5, r6, "remote.health_check_path"@);
    assert(remote_rows(c, a) == r0 + r1 + r2 + r3 + r4 + r5 + r6);
}

/// What seven lists of rows say together of a field that at most one of them
/// speaks of.
proof fn join(
    r0: Seq<RowView>,
    r1: Seq<RowView>,
    r2: Seq<RowView>,
    r3: Seq<RowView>,
    r4: Seq<RowView>,
    r5: Seq<RowView>,
    r6: Seq<RowView>,
    field: Seq<char>,
)
    ensures
        ({
            let all = r0 + r1 + r2 + r3 + r4 + r5 + r6;
            let quiet = |k: int|
                {
                    &&& k != 0 ==> silent_on(r0, field)
                    &&& k != 1 ==> silent_on(r1, field)
                    &&& k != 2 ==> silent_on(r2, field)
                    &&& k != 3 ==> silent_on(r3, field)
                    &&& k != 4 ==> silent_on(r4, field)
                    &&& k != 5 ==> silent_on(r5, field)
                    &&& k != 6 ==> silent_on(r6, field)
                };
            &&& quiet(-1) ==> silent_on(all, field)
            &&& forall|s: Status| quiet(0) && #[trigger] only_reports(r0, field, s) ==> only_reports(all, field, s)
            &&& forall|s: Status| quiet(1) && #[trigger] only_reports(r1, field, s) ==> only_reports(all, field, s)
            &&& forall|s: Status| quiet(2) && #[trigger] only_reports(r2, field, s) ==> only_reports(all, field, s)
            &&& forall|s: Status| quiet(3) && #[trigger] only_reports(r3, field, s) ==> only_reports(all, field, s)
            &&& forall|s: Status| quiet(4) && #[trigger] only_reports(r4, field, s) ==> only_reports(all, field, s)
            &&& forall|s: Status| quiet(5) && #[trigger] only_reports(r5, field, s) ==> only_reports(all, field, s)
            &&& forall|s: Status| quiet(6) && #[trigger] only_reports(r6, field, s) ==> only_reports(all, field, s)
        }),
{
    let t1 = r0 + r1;
    let t2 = t1 + r2;
    let t3 = t2 + r3;
    let t4 = t3 + r4;
    let t5 = t4 + r5;
    silent_concat(r0, r1, field);
    silent_concat(t1, r2, field);
    silent_concat(t2, r3, field);
    silent_concat(t3, r4, field);
    silent_concat(t4, r5, field);
    silent_concat(t5, r6, field);
    only_concat(r0, r1, field, Status::Pass);
    only_concat(t1, r2, field, Status::Pass);
    only_concat(t2, r3, field, Status::Pass);
    only_concat(t3, r4, field, Status::Pass);
    only_concat(t4, r5, field, Status::Pass);
    only_concat(t5, r6, field, Status::Pass);
    only_concat(r0, r1, field, Status::Warn);
    only_concat(t1, r2, field, Status::Warn);
    only_concat(t2, r3, field, Status::Warn);
    only_concat(t3, r4, field, Status::Warn);
    only_concat(t4, r5, field, Status::Warn);
    only_concat(t5, r6, field, Status::Warn);
    only_concat(r0, r1, field, Status::Fail);
    only_concat(t1, r2, field, Status::Fail);
    only_concat(t2, r3, field, Status::Fail);
    only_concat(t3, r4, field, Status::Fail);
    only_concat(t4, r5, field, Status::Fail);
    only_concat(t5, r6, field, Status::Fail);
}

proof fn one_row(r: RowView, field: Seq<char>)
    ensures
        r.field == field ==> only_reports(seq![r], field, r.status),
        r.field != field ==> silent_on(seq![r], field),
{
    let m = seq![r];
    assert(m[0] == r);
}

proof fn no_row(field: Seq<char>)
    ensures
        silent_on(Seq::<RowView>::empty(), field),
{
}

spec fn quiet_but(rows: Seq<RowView>, f: Seq<char>) -> bool {
    forall|i: int| 0 <= i < rows.len() ==> (#[trigger] rows[i]).field == f
}

proof fn workspace_piece(c: PartiriConfig, a: RemoteAnswers)
    ensures
        ({
            let r = workspace_rows(c, a.workspaces);
            &&& quiet_but(r, "remote.fk_workspace"@)
            &&& only_reports(
                r,
                "remote.fk_workspace"@,
                if lists_workspace(a, c.fk_workspace@) { Status::Pass } else { Status::Fail },
            )
        }),
{
    let r = workspace_rows(c, a.workspaces);
    one_row(r[0], "remote.fk_workspace"@);
    assert(r =~= seq![r[0]]);
}

proof fn scope_piece(c: PartiriConfig, a: RemoteAnswers)
    ensures
        ({
            let r = scope_rows(c, a);
            let s = c.service;
            &&& forall|i: int| 0 <= i < r.len() ==> {
                let f = (#[trigger] r[i]).field;
                f == "remote.fk_project"@ || f == "remote.fk_region"@ || f == "remote.fk_pod"@
            }
            &&& c.fk_workspace@.len() == 0 ==> r.len() == 0
            &&& c.fk_workspace@.len() > 0 ==> {
                &&& only_reports(
                    r,
                    "remote.fk_project"@,
                    if lists_project(a, c.fk_project@) { Status::Pass } else { Status::Fail },
                )
                &&& only_reports(
                    r,
                    "remote.fk_region"@,
                    if lists_region(a, s.fk_region@) { Status::Pass } else { Status::Fail },
                )
                &&& only_reports(
                    r,
                    "remote.fk_pod"@,
                    if lists_pod(a, s.fk_pod@) { Status::Pass } else { Status::Fail },
                )
            }
        }),
{
    field_shapes();
    if c.fk_workspace@.len() > 0 {
        let r = scope_rows(c, a);
        let p = project_rows(c, a.projects);
        let g = region_rows(c, a.regions);
        let d = pod_rows(c, a.pods);
        assert(r =~= seq![p[0], g[0], d[0]]);
        assert(r[0] == p[0] && r[1] == g[0] && r[2] == d[0]);
    }
}

proof fn name_piece(c: PartiriConfig, a: RemoteAnswers)
    ensures
        ({
            let r = name_rows(c, a.services);
            &&& quiet_but(r, "remote.service_name"@)
            &&& !name_is_looked_up(c) ==> r.len() == 0
            &&& name_is_looked_up(c) ==> only_reports(
                r,
                "remote.service_name"@,
                if a.services is Err {
                    Status::Warn
                } else if lists_name(a, c.service.name@) {
                    Status::Fail
                } else {
                    Status::Pass
                },
            )
        }),
{
    let r = name_rows(c, a.services);
    if name_is_looked_up(c) {
        one_row(r[0], "remote.service_name"@);
        assert(r =~= seq![r[0]]);
    }
}

proof fn source_piece(c: PartiriConfig, a: RemoteAnswers)
    ensures
        ({
            let r = repository_rows(c, a.branches);
            let g = registry_rows(c, a.registry);
            let s = c.service;
            &&& forall|i: int| 0 <= i < r.len() ==> {
                let f = (#[trigger] r[i]).field;
                f == "remote.repository_url"@ || f == "remote.repository_branch"@
            }
            &&& quiet_but(g, "remote.registry_url"@)
            &&& if has_text(s.repository_url) {
                only_reports(
                    r,
                    "remote.repository_url"@,
                    if a.branches is Ok { Status::Pass } else { Status::Fail },
                )
            } else {
                r.len() == 0
            }
            &&& if has_text(s.repository_url) && a.branches is Ok && has_text(
                s.repository_branch,
            ) {
                only_reports(
                    r,
                    "remote.repository_branch"@,
                    if lists_branch(a, s.repository_branch->0@) { Status::Pass } else { Status::Fail },
                )
            } else {
                silent_on(r, "remote.repository_branch"@)
            }
            &&& if has_text(s.registry_url) {
                only_reports(
                    g,
                    "remote.registry_url"@,
                    if a.registry is Ok { Status::Pass } else { Status::Fail },
                )
            } else {
                g.len() == 0
            }
        }),
{
    field_shapes();
    let s = c.service;
    let r = repository_rows(c, a.branches);
    let g = registry_rows(c, a.registry);
    if has_text(s.registry_url) {
        one_row(g[0], "remote.registry_url"@);
        assert(g =~= seq![g[0]]);
    }
    if has_text(s.repository_url) {
        if let Ok(v) = a.branches {
            let b = branch_rows(c, views(v@));
            assert(r[0].field == "remote.repository_url"@);
            if has_text(s.repository_branch) {
                let name = s.repository_branch->0@;
                assert(r =~= seq![r[0], b[0]]);
                assert(r[1] == b[0]);
                assert(views(v@).contains(name) <==> lists_branch(a, name)) by {
                    if views(v@).contains(name) {
                        let k = views(v@).index_of(name);
                        assert(v@[k]@ == name);
                    }
                    if lists_branch(a, name) {
                        let k = choose|k: int| 0 <= k < v@.len() && (#[trigger] v@[k])@ == name;
                        assert(views(v@)[k] == name);
                    }
                }
            } else {
                assert(r =~= seq![r[0]]);
            }
        } else {
            one_row(r[0], "remote.repository_url"@);
            assert(r =~= seq![r[0]]);
        }
    }
}

proof fn money_and_health_piece(c: PartiriConfig, a: RemoteAnswers)
    ensures
        ({
            let b = balance_rows(c, a.balance);
            let h = health_rows(c, a.health);
            &&& quiet_but(b, "remote.balance"@)
            &&& quiet_but(h, "remote.health_check_path"@)
            &&& if c.fk_workspace@.len() > 0 {
                only_reports(
                    b,
                    "remote.balance"@,
                    if a.balance matches Ok(x) && !x.exhausted {
                        Status::Pass
                    } else {
                        Status::Warn
                    },
                )
            } else {
                b.len() == 0
            }
            &&& if has_text(c.service.health_check_path) {
                only_reports(
                    h,
                    "remote.health_check_path"@,
                    if is_probed(c) && (a.health matches Ok(x) && x.ok) {
                        Status::Pass
                    } else {
                        Status::Warn
                    },
                )
            } else {
                h.len() == 0
            }
        }),
{
    let b = balance_rows(c, a.balance);
    let h = health_rows(c, a.health);
    if c.fk_workspace@.len() > 0 {
        one_row(b[0], "remote.balance"@);
        assert(b =~= seq![b[0]]);
    }
    if has_text(c.service.health_check_path) {
        let p = c.service.health_check_path->0@;
        absolute_urls(p);
        one_row(h[0], "remote.health_check_path"@);
        assert(h =~= seq![h[0]]);
    }
}

proof fn absolute_urls(p: Seq<char>)
    ensures
        crate::validate::is_absolute_url(p) <==> starts(p, "http://"@) || starts(p, "https://"@),
{
    starts_is_a_prefix(p, "http://"@);
    starts_is_a_prefix(p, "https://"@);
}

proof fn starts_is_a_prefix(s: Seq<char>, head: Seq<char>)
    ensures
        starts(s, head) <==> head.is_prefix_of(s),
{
    if head.is_prefix_of(s) {
        assert(s =~= head + s.skip(head.len() as int));
    }
    if starts(s, head) {
        let rest = choose|rest: Seq<char>| s == #[trigger] (head + rest);
        assert(head =~= (head + rest).take(head.len() as int));
    }
}

/// When remote validation passes: the file is valid, everything that it names
/// is listed, its source can be reached and holds the branch, and no other
/// service of the project has the name.
pub proof fn remote_validation_passes_when(c: PartiriConfig, a: RemoteAnswers)
    ensures
        !has_failure(static_rows(c) + remote_rows(c, a)) <==> {
            let s = c.service;
            &&& is_valid(c)
            &&& lists_workspace(a, c.fk_workspace@)
            &&& c.fk_workspace@.len() > 0 ==> {
                &&& lists_project(a, c.fk_project@)
                &&& lists_region(a, s.fk_region@)
                &&& lists_pod(a, s.fk_pod@)
            }
            &&& name_is_looked_up(c) ==> !lists_name(a, s.name@)
            &&& has_text(s.repository_url) ==> a.branches is Ok && (has_text(s.repository_branch)
                ==> lists_branch(a, s.repository_branch->0@))
            &&& has_text(s.registry_url) ==> a.registry is Ok
        },
{
    field_shapes();
    remote_checks_follow_the_api(c, a);
    valid_means_no_failure(c);
    let local = static_rows(c);
    let rows = remote_rows(c, a);
    let all = local + rows;
    let w = workspace_rows(c, a.workspaces);
    workspace_piece(c, a);
    scope_piece(c, a);
    name_piece(c, a);
    source_piece(c, a);
    money_and_health_piece(c, a);
    every_row_has_a_known_field(c, a);
    if has_failure(all) {
        let i = choose|i: int| 0 <= i < all.len() && (#[trigger] all[i]).status == Status::Fail;
        if i < local.len() {
            assert(local[i] == all[i]);
            assert(has_failure(local));
        } else {
            let r = rows[i - local.len()];
            assert(r == all[i]);
        }
    } else {
        assert(!has_failure(local)) by {
            if has_failure(local) {
                let i = choose|i: int|
                    0 <= i < local.len() && (#[trigger] local[i]).status == Status::Fail;
                assert(all[i] == local[i]);
            }
        }
        assert forall|f: Seq<char>| !reports(rows, f, Status::Fail) by {
            if reports(rows, f, Status::Fail) {
                let i = choose|i: int|
                    0 <= i < rows.len() && (#[trigger] rows[i]).field == f && rows[i].status
                        == Status::Fail;
                assert(all[local.len() + i] == rows[i]);
            }
        }
        assert(!reports(rows, "remote.fk_workspace"@, Status::Fail));
        assert(!reports(rows, "remote.fk_project"@, Status::Fail));
        assert(!reports(rows, "remote.fk_region"@, Status::Fail));
        assert(!reports(rows, "remote.fk_pod"@, Status::Fail));
        assert(!reports(rows, "remote.service_name"@, Status::Fail));
        assert(!reports(rows, "remote.repository_url"@, Status::Fail));
        assert(!reports(rows, "remote.repository_branch"@, Status::Fail));
        assert(!reports(rows, "remote.registry_url"@, Status::Fail));
    }
}

proof fn every_row_has_a_known_field(c: PartiriConfig, a: RemoteAnswers)
    ensures
        forall|i: int|
            0 <= i < remote_rows(c, a).len() ==> {
                let f = (#[trigger] remote_rows(c, a)[i]).field;
                f == "remote.fk_workspace"@
                || f == "remote.fk_project"@
                || f == "remote.fk_region"@
                || f == "remote.fk_pod"@
                || f == "remote.service_name"@
                || f == "remote.repository_url"@
                || f == "remote.repository_branch"@
                || f == "remote.registry_url"@
                || f == "remote.balance"@
                || f == "remote.health_check_path"@
            },
{
    workspace_piece(c, a);
    scope_piece(c, a);
    name_piece(c, a);
    source_piece(c, a);
    money_and_health_piece(c, a);
    let r0 = workspace_rows(c, a.workspaces);
    let r1 = scope_rows(c, a);
    let r2 = name_rows(c, a.services);
    let r3 = repository_rows(c, a.branches);
    let r4 = registry_rows(c, a.registry);
    let r5 = balance_rows(c, a.balance);
    let r6 = health_rows(c, a.health);
    let n1 = r0.len() as int;
    let n2 = n1 + r1.len();
    let n3 = n2 + r2.len();
    let n4 = n3 + r3.len();
    let n5 = n4 + r4.len();
    let n6 = n5 + r5.len();
    let all = remote_rows(c, a);
    assert forall|i: int| 0 <= i < all.len() implies {
        let f = (#[trigger] all[i]).field;
        f == "remote.fk_workspace"@
        || f == "remote.fk_project"@
        || f == "remote.fk_region"@
        || f == "remote.fk_pod"@
        || f == "remote.service_name"@
        || f == "remote.repository_url"@
        || f == "remote.repository_branch"@
        || f == "remote.registry_url"@
        || f == "remote.balance"@
        || f == "remote.health_check_path"@
    } by {
        if i < n1 {
            assert(all[i] == r0[i]);
        } else if i < n2 {
            assert(all[i] == r1[i - n1]);
        } else if i < n3 {
            assert(all[i] == r2[i - n2]);
        } else if i < n4 {
            assert(all[i] == r3[i - n3]);
        } else if i < n5 {
            assert(all[i] == r4[i - n4]);
        } else if i < n6 {
            assert(all[i] == r5[i - n5]);
        } else {
            assert(all[i] == r6[i - n6]);
        }
    }
}

} // verus!
