//! What an editor is shown: problems where they are, names that can be typed,
//! and edits that mend.
use vstd::prelude::*;
use vstd::string::*;

use crate::config::{checks_of, PartiriConfig, ValidationView};
use crate::lsp::diagnostics::{
    anchor_of, diag_view, failing_checks, first_range, is_problem, local_of, paths_for, remote_of,
    row_diag, unknown_keys, DiagView, Severity, SOURCE_LOCAL,
};
use crate::lsp::documents::position_of;
use crate::lsp::locate::{
    cursor_in, hit, name_range_at, prop_index, prop_of, range_at, value_at, CursorView, NodeView,
    ParsedView, PropView, Span,
};
use crate::schema::{disk_rows, root_rows, service_rows, table_of};
use crate::validate::{RowView, Status};

verus! {

/// Whether `p` is the property `k` of an object: the first of that name.
pub open spec fn has_prop(n: NodeView, k: Seq<char>, p: PropView) -> bool {
    n matches NodeView::Object(_, props) && exists|i: int|
        {
            &&& 0 <= i < props.len()
            &&& #[trigger] props[i] == p
            &&& p.name == k
            &&& forall|j: int| 0 <= j < i ==> (#[trigger] props[j]).name != k
        }
}

/// Whether an object has no property `k`, or there is no object.
pub open spec fn lacks_prop(n: NodeView, k: Seq<char>) -> bool {
    n matches NodeView::Object(_, props) ==> forall|j: int|
        0 <= j < props.len() ==> (#[trigger] props[j]).name != k
}

/// Where a value stands.
pub open spec fn place(n: NodeView) -> Span {
    match n {
        NodeView::Text(span, _) => span,
        NodeView::Scalar(span) => span,
        NodeView::Object(span, _) => span,
        NodeView::Array(span) => span,
    }
}

proof fn index_is_first(v: Seq<PropView>, k: Seq<char>, i: int, from: int)
    requires
        0 <= from <= i < v.len(),
        v[i].name == k,
        forall|j: int| 0 <= j < i ==> (#[trigger] v[j]).name != k,
    ensures
        prop_index(v, k, from) == i,
    decreases i - from,
{
    if from < i {
        assert(v[from].name != k);
        index_is_first(v, k, i, from + 1);
    }
}

proof fn index_is_none(v: Seq<PropView>, k: Seq<char>, from: int)
    requires
        0 <= from <= v.len(),
        forall|j: int| 0 <= j < v.len() ==> (#[trigger] v[j]).name != k,
    ensures
        prop_index(v, k, from) == v.len(),
    decreases v.len() - from,
{
    if from < v.len() {
        index_is_none(v, k, from + 1);
    }
}

/// The property that an object has is the one that is found, and none is found
/// where it has none.
pub proof fn props_are_found(n: NodeView, k: Seq<char>)
    ensures
        forall|p: PropView| #[trigger] has_prop(n, k, p) ==> prop_of(n, k) == Some(p),
        lacks_prop(n, k) ==> prop_of(n, k) is None,
{
    assert forall|p: PropView| #[trigger] has_prop(n, k, p) implies prop_of(n, k) == Some(p) by {
        let props = n->Object_1;
        let i = choose|i: int|
            {
                &&& 0 <= i < props.len()
                &&& #[trigger] props[i] == p
                &&& p.name == k
                &&& forall|j: int| 0 <= j < i ==> (#[trigger] props[j]).name != k
            };
        index_is_first(props, k, i, 0);
    }
    if lacks_prop(n, k) && n is Object {
        index_is_none(n->Object_1, k, 0);
    }
}

/// A path of one or two names leads to the value of the property of that name.
pub proof fn paths_lead(n: NodeView, a: Seq<char>, b: Seq<char>)
    ensures
        forall|p: PropView| #[trigger] has_prop(n, a, p) ==> {
            &&& range_at(n, seq![a]) == Some(place(p.value))
            &&& name_range_at(n, seq![a]) == Some(p.name_span)
        },
        lacks_prop(n, a) ==> range_at(n, seq![a]) is None && range_at(n, seq![a, b]) is None
            && name_range_at(n, seq![a]) is None && name_range_at(n, seq![a, b]) is None,
        forall|p: PropView, q: PropView|
            #![trigger has_prop(n, a, p), has_prop(p.value, b, q)]
            has_prop(n, a, p) && has_prop(p.value, b, q) ==> {
                &&& range_at(n, seq![a, b]) == Some(place(q.value))
                &&& name_range_at(n, seq![a, b]) == Some(q.name_span)
            },
        forall|p: PropView|
            #![trigger has_prop(n, a, p)]
            has_prop(n, a, p) && lacks_prop(p.value, b) ==> range_at(n, seq![a, b]) is None
                && name_range_at(n, seq![a, b]) is None,
{
    props_are_found(n, a);
    let one = seq![a];
    let two = seq![a, b];
    assert(one.drop_first() =~= Seq::<Seq<char>>::empty());
    assert(one.drop_last() =~= Seq::<Seq<char>>::empty());
    assert(two.drop_first() =~= seq![b]);
    assert(two.drop_last() =~= seq![a]);
    assert(seq![b].drop_first() =~= Seq::<Seq<char>>::empty());
    reveal_with_fuel(value_at, 3);
    if let Some(p) = prop_of(n, a) {
        props_are_found(p.value, b);
    }
}

/// The names of checks and of properties differ from each other.
pub proof fn name_shapes()
    ensures
        "name"@.len() == 4,
        "name_length"@.len() == 11 && "name_length"@[0] == 'n',
        "remote.service_name"@.len() == 19 && "remote.service_name"@[7] == 's',
        "deploy_type"@.len() == 11 && "deploy_type"@[0] == 'd',
        "runtime"@.len() == 7 && "runtime"@[0] == 'r',
        "root_path"@.len() == 9 && "root_path"@[0] == 'r',
        "fk_region"@.len() == 9 && "fk_region"@[0] == 'f',
        "remote.fk_region"@.len() == 16,
        "fk_pod"@.len() == 6 && "fk_pod"@[0] == 'f',
        "remote.fk_pod"@.len() == 13 && "remote.fk_pod"@[0] == 'r',
        "source"@.len() == 6 && "source"@[0] == 's',
        "remote.repository_url"@.len() == 21,
        "deploy_type/static"@.len() == 18,
        "remote.registry_url"@.len() == 19 && "remote.registry_url"@[7] == 'r',
        "repository_branch"@.len() == 17 && "repository_branch"@[0] == 'r'
            && "repository_branch"@[2] == 'p',
        "remote.repository_branch"@.len() == 24 && "remote.repository_branch"@[7] == 'r',
        "build_command"@.len() == 13 && "build_command"@[0] == 'b',
        "run_command"@.len() == 11 && "run_command"@[0] == 'r',
        "remote.health_check_path"@.len() == 24 && "remote.health_check_path"@[7] == 'h',
        "repository_url"@.len() == 14 && "repository_url"@[2] == 'p',
        "registry_url"@.len() == 12 && "registry_url"@[0] == 'r',
        "health_check_path"@.len() == 17 && "health_check_path"@[0] == 'h',
        "service"@.len() == 7 && "service"@[0] == 's',
        "fk_workspace"@.len() == 12 && "fk_workspace"@[0] == 'f',
        "fk_project"@.len() == 10,
        "remote.fk_workspace"@.len() == 19 && "remote.fk_workspace"@[7] == 'f',
        "remote.balance"@.len() == 14 && "remote.balance"@[2] == 'm',
        "remote.fk_project"@.len() == 17 && "remote.fk_project"@[0] == 'r'
            && "remote.fk_project"@[2] == 'm',
        ""@.len() == 0,
{
    reveal_strlit("name");
    reveal_strlit("name_length");
    reveal_strlit("remote.service_name");
    reveal_strlit("deploy_type");
    reveal_strlit("runtime");
    reveal_strlit("root_path");
    reveal_strlit("fk_region");
    reveal_strlit("remote.fk_region");
    reveal_strlit("fk_pod");
    reveal_strlit("remote.fk_pod");
    reveal_strlit("source");
    reveal_strlit("remote.repository_url");
    reveal_strlit("deploy_type/static");
    reveal_strlit("remote.registry_url");
    reveal_strlit("repository_branch");
    reveal_strlit("remote.repository_branch");
    reveal_strlit("build_command");
    reveal_strlit("run_command");
    reveal_strlit("remote.health_check_path");
    reveal_strlit("repository_url");
    reveal_strlit("registry_url");
    reveal_strlit("health_check_path");
    reveal_strlit("service");
    reveal_strlit("fk_workspace");
    reveal_strlit("fk_project");
    reveal_strlit("remote.fk_workspace");
    reveal_strlit("remote.balance");
    reveal_strlit("remote.fk_project");
    reveal_strlit("");
    assert("name"@.len() == 4);
    assert("name_length"@.len() == 11);
    assert("remote.service_name"@.len() == 19);
    assert("deploy_type"@.len() == 11);
    assert("runtime"@.len() == 7);
    assert("root_path"@.len() == 9);
    assert("fk_region"@.len() == 9);
    assert("remote.fk_region"@.len() == 16);
    assert("fk_pod"@.len() == 6);
    assert("remote.fk_pod"@.len() == 13);
    assert("source"@.len() == 6);
    assert("remote.repository_url"@.len() == 21);
    assert("deploy_type/static"@.len() == 18);
    assert("remote.registry_url"@.len() == 19);
    assert("repository_branch"@.len() == 17);
    assert("remote.repository_branch"@.len() == 24);
    assert("build_command"@.len() == 13);
    assert("run_command"@.len() == 11);
    assert("remote.health_check_path"@.len() == 24);
    assert("repository_url"@.len() == 14);
    assert("registry_url"@.len() == 12);
    assert("health_check_path"@.len() == 17);
    assert("service"@.len() == 7);
    assert("fk_workspace"@.len() == 12);
    assert("fk_project"@.len() == 10);
    assert("remote.fk_workspace"@.len() == 19);
    assert("remote.balance"@.len() == 14);
    assert("remote.fk_project"@.len() == 17);
    assert(""@.len() == 0);
}

/// Which property of the service a check is about.
pub open spec fn is_about(field: Seq<char>, key: Seq<char>) -> bool {
    ||| field == "name"@ && key == "name"@
    ||| field == "name_length"@ && key == "name"@
    ||| field == "remote.service_name"@ && key == "name"@
    ||| field == "deploy_type"@ && key == "deploy_type"@
    ||| field == "runtime"@ && key == "runtime"@
    ||| field == "root_path"@ && key == "root_path"@
    ||| field == "fk_region"@ && key == "fk_region"@
    ||| field == "remote.fk_region"@ && key == "fk_region"@
    ||| field == "fk_pod"@ && key == "fk_pod"@
    ||| field == "remote.fk_pod"@ && key == "fk_pod"@
    ||| field == "source"@ && key == "repository_url"@
    ||| field == "remote.repository_url"@ && key == "repository_url"@
    ||| field == "deploy_type/static"@ && key == "registry_url"@
    ||| field == "remote.registry_url"@ && key == "registry_url"@
    ||| field == "repository_branch"@ && key == "repository_branch"@
    ||| field == "remote.repository_branch"@ && key == "repository_branch"@
    ||| field == "build_command"@ && key == "build_command"@
    ||| field == "run_command"@ && key == "run_command"@
    ||| field == "remote.health_check_path"@ && key == "health_check_path"@
}

/// A problem is shown on the value of the property that it is about.
pub proof fn problem_is_shown_on_its_value(
    field: Seq<char>,
    key: Seq<char>,
    n: NodeView,
    service: PropView,
    p: PropView,
)
    requires
        is_about(field, key),
        has_prop(n, "service"@, service),
        has_prop(service.value, key, p),
    ensures
        anchor_of(field, Some(n)) == place(p.value),
{
    name_shapes();
    paths_lead(n, "service"@, key);
    assert(paths_for(field)[0] == seq!["service"@, key]);
    reveal_with_fuel(first_range, 2);
}

/// A problem with the source of a service that names no repository is shown on
/// its registry.
pub proof fn source_problem_falls_to_the_registry(n: NodeView, service: PropView, p: PropView)
    requires
        has_prop(n, "service"@, service),
        lacks_prop(service.value, "repository_url"@),
        has_prop(service.value, "registry_url"@, p),
    ensures
        anchor_of("source"@, Some(n)) == place(p.value),
{
    name_shapes();
    paths_lead(n, "service"@, "repository_url"@);
    paths_lead(n, "service"@, "registry_url"@);
    let paths = paths_for("source"@);
    assert(paths[0] == seq!["service"@, "repository_url"@]);
    assert(paths[1] == seq!["service"@, "registry_url"@]);
    reveal_with_fuel(first_range, 3);
}

/// A problem with the workspace or the project is shown on the reference to it.
pub proof fn reference_problem_is_shown_on_the_reference(n: NodeView, p: PropView)
    ensures
        has_prop(n, "fk_workspace"@, p) ==> {
            &&& anchor_of("remote.fk_workspace"@, Some(n)) == place(p.value)
            &&& anchor_of("remote.balance"@, Some(n)) == place(p.value)
        },
        has_prop(n, "fk_project"@, p) ==> anchor_of("remote.fk_project"@, Some(n)) == place(
            p.value,
        ),
{
    name_shapes();
    paths_lead(n, "fk_workspace"@, "name"@);
    paths_lead(n, "fk_project"@, "name"@);
    assert(paths_for("remote.fk_workspace"@)[0] == seq!["fk_workspace"@]);
    assert(paths_for("remote.balance"@)[0] == seq!["fk_workspace"@]);
    assert(paths_for("remote.fk_project"@)[0] == seq!["fk_project"@]);
    reveal_with_fuel(first_range, 2);
}

/// A problem with a property that is not there is shown on the name of the
/// service block, and without a document at the start.
pub proof fn problem_without_a_value_is_shown_on_the_service(
    field: Seq<char>,
    key: Seq<char>,
    n: NodeView,
    service: PropView,
)
    requires
        is_about(field, key),
        field != "source"@,
        has_prop(n, "service"@, service),
        lacks_prop(service.value, key),
    ensures
        anchor_of(field, Some(n)) == service.name_span,
        anchor_of(field, None) == (Span { start: 0, end: 0 }),
{
    name_shapes();
    paths_lead(n, "service"@, key);
    assert(paths_for(field) =~= seq![seq!["service"@, key]]);
    reveal_with_fuel(first_range, 3);
}

/// What a problem looks like at a place of the document.
pub open spec fn shown(
    text: Seq<char>,
    span: Span,
    severity: Severity,
    source: Seq<char>,
    message: Seq<char>,
) -> DiagView {
    DiagView {
        range: (position_of(text, span.start as int), position_of(text, span.end as int)),
        severity,
        source,
        message,
    }
}

/// Every check that fails is shown as an error, at its place and with its
/// message; no error is shown that is not of such a check; and a valid
/// configuration of known properties shows nothing.
pub proof fn failing_checks_are_shown(text: Seq<char>, n: NodeView, c: PartiriConfig)
    ensures
        ({
            let all = local_of(text, ParsedView::Value(n), Ok(c));
            let checks = checks_of(c);
            &&& forall|i: int|
                0 <= i < checks.len() && !(#[trigger] checks[i]).ok ==> all.contains(
                    shown(
                        text,
                        anchor_of(checks[i].field, Some(n)),
                        Severity::Error,
                        "partiri"@,
                        checks[i].message,
                    ),
                )
            &&& forall|k: int|
                0 <= k < all.len() && (#[trigger] all[k]).severity == Severity::Error ==> exists|
                    i: int,
                |
                    0 <= i < checks.len() && !(#[trigger] checks[i]).ok && all[k] == shown(
                        text,
                        anchor_of(checks[i].field, Some(n)),
                        Severity::Error,
                        "partiri"@,
                        checks[i].message,
                    )
        }),
{
    let all = local_of(text, ParsedView::Value(n), Ok(c));
    let checks = checks_of(c);
    let bad = |v: ValidationView| !v.ok;
    let show = |v: ValidationView|
        diag_view(text, anchor_of(v.field, Some(n)), Severity::Error, SOURCE_LOCAL@, v.message);
    let kept = checks.filter(bad);
    let f = failing_checks(text, n, c);
    assert(f =~= kept.map_values(show));
    let u0 = unknown_keys(text, n, seq![], table_of(root_rows()));
    let u1 = unknown_keys(text, n, seq!["service"@], table_of(service_rows()));
    let u2 = unknown_keys(text, n, seq!["service"@, "disk"@], table_of(disk_rows()));
    assert(all == f + u0 + u1 + u2);
    assert forall|i: int| 0 <= i < checks.len() && !(#[trigger] checks[i]).ok implies all.contains(
        shown(
            text,
            anchor_of(checks[i].field, Some(n)),
            Severity::Error,
            "partiri"@,
            checks[i].message,
        ),
    ) by {
        checks.lemma_filter_contains(bad, i);
        let k = kept.index_of(checks[i]);
        assert(kept[k] == checks[i]);
        assert(all[k] == f[k]);
        assert(f[k] == show(checks[i]));
        assert(all[k] == shown(
            text,
            anchor_of(checks[i].field, Some(n)),
            Severity::Error,
            "partiri"@,
            checks[i].message,
        ));
    }
    assert forall|k: int|
        0 <= k < all.len() && (#[trigger] all[k]).severity == Severity::Error implies exists|i: int|
        0 <= i < checks.len() && !(#[trigger] checks[i]).ok && all[k] == shown(
            text,
            anchor_of(checks[i].field, Some(n)),
            Severity::Error,
            "partiri"@,
            checks[i].message,
        ) by {
        if k < f.len() {
            assert(all[k] == f[k]);
            checks.lemma_filter_pred(bad, k);
            assert(kept.contains(kept[k]));
            checks.lemma_filter_contains_rev(bad, kept[k]);
            let i = checks.index_of(kept[k]);
            assert(checks[i] == kept[k]);
            assert(!checks[i].ok);
        } else if k < f.len() + u0.len() {
            assert(all[k] == u0[k - f.len()]);
            assert(u0[k - f.len()].severity == Severity::Warning);
        } else if k < f.len() + u0.len() + u1.len() {
            assert(all[k] == u1[k - f.len() - u0.len()]);
            assert(u1[k - f.len() - u0.len()].severity == Severity::Warning);
        } else {
            assert(all[k] == u2[k - f.len() - u0.len() - u1.len()]);
            assert(u2[k - f.len() - u0.len() - u1.len()].severity == Severity::Warning);
        }
    }
}

/// Whether a diagnostic is of a row that does not pass.
pub open spec fn is_of_a_problem(d: DiagView, rows: Seq<RowView>) -> bool {
    exists|i: int|
        0 <= i < rows.len() && (#[trigger] rows[i]).status != Status::Pass && d.message
            == rows[i].message
}

/// A row of remote validation that passes is not shown; one that warns is shown
/// as a warning and one that fails as an error, at its place.
pub proof fn remote_rows_are_shown(rows: Seq<RowView>, text: Seq<char>, n: NodeView)
    ensures
        ({
            let all = remote_of(rows, text, ParsedView::Value(n));
            &&& forall|i: int|
                0 <= i < rows.len() && (#[trigger] rows[i]).status != Status::Pass
                    ==> all.contains(
                    shown(
                        text,
                        anchor_of(rows[i].field, Some(n)),
                        if rows[i].status == Status::Fail {
                            Severity::Error
                        } else {
                            Severity::Warning
                        },
                        "partiri-remote"@,
                        rows[i].message,
                    ),
                )
            &&& forall|k: int| 0 <= k < all.len() ==> is_of_a_problem(#[trigger] all[k], rows)
        }),
{
    let all = remote_of(rows, text, ParsedView::Value(n));
    let bad = |r: RowView| is_problem(r);
    let kept = rows.filter(bad);
    let show = |r: RowView| row_diag(text, Some(n), r);
    assert(all =~= kept.map_values(show));
    assert forall|i: int| 0 <= i < rows.len() && (#[trigger] rows[i]).status
        != Status::Pass implies all.contains(
        shown(
            text,
            anchor_of(rows[i].field, Some(n)),
            if rows[i].status == Status::Fail {
                Severity::Error
            } else {
                Severity::Warning
            },
            "partiri-remote"@,
            rows[i].message,
        ),
    ) by {
        rows.lemma_filter_contains(bad, i);
        let k = kept.index_of(rows[i]);
        assert(kept[k] == rows[i]);
        assert(all[k] == show(rows[i]));
    }
    assert forall|k: int| 0 <= k < all.len() implies is_of_a_problem(#[trigger] all[k], rows) by {
        rows.lemma_filter_pred(bad, k);
        assert(kept.contains(kept[k]));
        rows.lemma_filter_contains_rev(bad, kept[k]);
        let i = rows.index_of(kept[k]);
        assert(rows[i] == kept[k]);
    }
}

/// A document that does not parse shows one error, which begins where the
/// parser stopped.
pub proof fn syntax_error_is_shown(
    text: Seq<char>,
    span: Span,
    kind: Seq<char>,
    config: Result<PartiriConfig, String>,
)
    ensures
        ({
            let all = local_of(text, ParsedView::Error(span, kind), config);
            &&& all.len() == 1
            &&& all[0].severity == Severity::Error
            &&& all[0].source == "partiri"@
            &&& all[0].range.0 == position_of(text, span.start as int)
            &&& all[0].message == "Syntax error: "@ + kind
        }),
{
}

/// The cursor on the name of a property is on that name, in the object that
/// holds it.
pub proof fn cursor_on_a_name(
    span: Span,
    props: Seq<PropView>,
    i: int,
    offset: int,
    path: Seq<Seq<char>>,
)
    requires
        span.start <= offset <= span.end,
        0 <= i < props.len(),
        props[i].name_span.start <= offset <= props[i].name_span.end,
        forall|j: int| 0 <= j < i ==> place((#[trigger] props[j]).value).end < offset
            && props[j].name_span.end < offset,
    ensures
        cursor_in(NodeView::Object(span, props), offset, path) == (CursorView::Name {
            path,
            key: Some(props[i].name),
            range: Some(props[i].name_span),
        }),
{
    hit_is(props, offset, i, 0);
}

proof fn hit_is(v: Seq<PropView>, offset: int, i: int, from: int)
    requires
        0 <= from <= i < v.len(),
        forall|j: int| 0 <= j < i ==> place((#[trigger] v[j]).value).end < offset
            && v[j].name_span.end < offset,
        v[i].name_span.start <= offset <= v[i].name_span.end || v[i].name_span.end < offset
            <= place(v[i].value).end,
    ensures
        hit(v, offset, from) == i,
    decreases i - from,
{
    if from < i {
        assert(place(v[from].value).end < offset);
        hit_is(v, offset, i, from + 1);
    }
}

/// The cursor in the value of a property is on that value: its text where it is
/// a string, and inside the object where it is one.
pub proof fn cursor_on_a_value(
    span: Span,
    props: Seq<PropView>,
    i: int,
    offset: int,
    path: Seq<Seq<char>>,
)
    requires
        span.start <= offset <= span.end,
        0 <= i < props.len(),
        props[i].name_span.end < offset <= place(props[i].value).end,
        forall|j: int| 0 <= j < i ==> place((#[trigger] props[j]).value).end < offset
            && props[j].name_span.end < offset,
    ensures
        cursor_in(NodeView::Object(span, props), offset, path) == match props[i].value {
            NodeView::Text(at, t) => CursorView::Value {
                path,
                key: props[i].name,
                range: at,
                text: Some(t),
            },
            NodeView::Scalar(at) => CursorView::Value {
                path,
                key: props[i].name,
                range: at,
                text: None,
            },
            NodeView::Object(_, _) => cursor_in(
                props[i].value,
                offset,
                path.push(props[i].name),
            ),
            NodeView::Array(_) => CursorView::Nothing,
        },
{
    hit_is(props, offset, i, 0);
}

} // verus!
