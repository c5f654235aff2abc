//! What agents are told: the context, the state of things, and the next step.
use vstd::prelude::*;
use vstd::string::*;

use crate::client::{primary_region_of, Job, Pod, Project, Region, RegionPricing, WorkspaceSecret};
use crate::config::{config_flag_suffix_of, PartiriConfig};
use crate::jobs::{newest_first, newest_first_is_a_permutation, newest_first_is_sorted, older};
use crate::json::{first_member_is_found, member_of, JsonView};
use crate::laws::bodies::said;
use crate::laws::resources::{first_price, shown_text};
use crate::llm::{
    check_json_of, context_json_of, doctor_checks, is_deploy, latest_deploy, listed_service_json,
    next_of, pod_json_of, pod_price_of, price_json, project_json_of, region_json_of,
    some_check_fails, workspace_json_of, ApiProbe, CheckView, ConfigProbe, ContextData, Credentials,
    Health, NextConfig, PriceText, ProjectService, WorkspaceData,
};
use crate::secret::secret_json_of;
use crate::text::opt_view;

verus! {

/// The keys of what agents are told differ from each other.
pub proof fn agent_keys()
    ensures
        "id"@.len() == 2,
        "name"@.len() == 4 && "name"@[0] == 'n',
        "environment"@.len() == 11 && "environment"@[0] == 'e',
        "label"@.len() == 5 && "label"@[0] == 'l',
        "country_code"@.len() == 12,
        "cpu"@.len() == 3 && "cpu"@[0] == 'c',
        "ram"@.len() == 3 && "ram"@[0] == 'r',
        "price_eur_month"@.len() == 15,
        "fk_project"@.len() == 10 && "fk_project"@[0] == 'f',
        "fk_region"@.len() == 9,
        "fk_pod"@.len() == 6 && "fk_pod"@[0] == 'f',
        "deploy_type"@.len() == 11 && "deploy_type"@[0] == 'd',
        "runtime"@.len() == 7 && "runtime"@[0] == 'r' && "runtime"@[1] == 'u',
        "email"@.len() == 5 && "email"@[0] == 'e',
        "projects"@.len() == 8 && "projects"@[0] == 'p',
        "regions"@.len() == 7 && "regions"@[0] == 'r' && "regions"@[1] == 'e',
        "pods"@.len() == 4 && "pods"@[0] == 'p',
        "volume_price_per_gb"@.len() == 19,
        "balance_eur"@.len() == 11 && "balance_eur"@[0] == 'b',
        "registry_secrets"@.len() == 16,
        "repository_secrets"@.len() == 18,
        "services"@.len() == 8 && "services"@[0] == 's',
        "user"@.len() == 4 && "user"@[0] == 'u',
        "workspaces"@.len() == 10 && "workspaces"@[0] == 'w',
        "status"@.len() == 6 && "status"@[0] == 's',
        "message"@.len() == 7 && "message"@[0] == 'm',
        "fix"@.len() == 3 && "fix"@[0] == 'f',
{
    reveal_strlit("id");
    reveal_strlit("name");
    reveal_strlit("environment");
    reveal_strlit("label");
    reveal_strlit("country_code");
    reveal_strlit("cpu");
    reveal_strlit("ram");
    reveal_strlit("price_eur_month");
    reveal_strlit("fk_project");
    reveal_strlit("fk_region");
    reveal_strlit("fk_pod");
    reveal_strlit("deploy_type");
    reveal_strlit("runtime");
    reveal_strlit("email");
    reveal_strlit("projects");
    reveal_strlit("regions");
    reveal_strlit("pods");
    reveal_strlit("volume_price_per_gb");
    reveal_strlit("balance_eur");
    reveal_strlit("registry_secrets");
    reveal_strlit("repository_secrets");
    reveal_strlit("services");
    reveal_strlit("user");
    reveal_strlit("workspaces");
    reveal_strlit("status");
    reveal_strlit("message");
    reveal_strlit("fix");
    assert("id"@.len() == 2);
    assert("name"@.len() == 4);
    assert("environment"@.len() == 11);
    assert("label"@.len() == 5);
    assert("country_code"@.len() == 12);
    assert("cpu"@.len() == 3);
    assert("ram"@.len() == 3);
    assert("price_eur_month"@.len() == 15);
    assert("fk_project"@.len() == 10);
    assert("fk_region"@.len() == 9);
    assert("fk_pod"@.len() == 6);
    assert("deploy_type"@.len() == 11);
    assert("runtime"@.len() == 7);
    assert("email"@.len() == 5);
    assert("projects"@.len() == 8);
    assert("regions"@.len() == 7);
    assert("pods"@.len() == 4);
    assert("volume_price_per_gb"@.len() == 19);
    assert("balance_eur"@.len() == 11);
    assert("registry_secrets"@.len() == 16);
    assert("repository_secrets"@.len() == 18);
    assert("services"@.len() == 8);
    assert("user"@.len() == 4);
    assert("workspaces"@.len() == 10);
    assert("status"@.len() == 6);
    assert("message"@.len() == 7);
    assert("fix"@.len() == 3);
}

/// The states differ from each other, and so do the outcomes of jobs.
pub proof fn state_names()
    ensures
        "needs_auth"@.len() == 10 && "needs_auth"@[6] == 'a',
        "needs_init"@.len() == 10 && "needs_init"@[6] == 'i',
        "config_broken"@.len() == 13 && "config_broken"@[0] == 'c',
        "needs_uuids"@.len() == 11 && "needs_uuids"@[0] == 'n',
        "needs_create"@.len() == 12 && "needs_create"@[6] == 'c',
        "deployed"@.len() == 8,
        "deploying"@.len() == 9 && "deploying"@[0] == 'd',
        "deploy_failed"@.len() == 13 && "deploy_failed"@[0] == 'd',
        "needs_deploy"@.len() == 12 && "needs_deploy"@[6] == 'd',
        "succeeded"@.len() == 9 && "succeeded"@[0] == 's',
        "open"@.len() == 4,
        "in_progress"@.len() == 11 && "in_progress"@[0] == 'i',
        "failed"@.len() == 6,
        "timed_out"@.len() == 9 && "timed_out"@[0] == 't',
{
    reveal_strlit("needs_auth");
    reveal_strlit("needs_init");
    reveal_strlit("config_broken");
    reveal_strlit("needs_uuids");
    reveal_strlit("needs_create");
    reveal_strlit("deployed");
    reveal_strlit("deploying");
    reveal_strlit("deploy_failed");
    reveal_strlit("needs_deploy");
    reveal_strlit("succeeded");
    reveal_strlit("open");
    reveal_strlit("in_progress");
    reveal_strlit("failed");
    reveal_strlit("timed_out");
    assert("needs_auth"@.len() == 10);
    assert("needs_init"@.len() == 10);
    assert("config_broken"@.len() == 13);
    assert("needs_uuids"@.len() == 11);
    assert("needs_create"@.len() == 12);
    assert("deployed"@.len() == 8);
    assert("deploying"@.len() == 9);
    assert("deploy_failed"@.len() == 13);
    assert("needs_deploy"@.len() == 12);
    assert("succeeded"@.len() == 9);
    assert("open"@.len() == 4);
    assert("in_progress"@.len() == 11);
    assert("failed"@.len() == 6);
    assert("timed_out"@.len() == 9);
}

/// A project is told with each field under its name.
pub proof fn context_says_each_field_of_a_project(p: Project)
    ensures
        ({
            let j = project_json_of(p);
            &&& member_of(j, "id"@) == said(p.id@)
            &&& member_of(j, "name"@) == said(p.name@)
            &&& member_of(j, "environment"@) == said(p.environment@)
        }),
{
    agent_keys();
    let m = (project_json_of(p))->Obj_0;
    first_member_is_found(m, "id"@, 0);
    first_member_is_found(m, "name"@, 1);
    first_member_is_found(m, "environment"@, 2);
}

/// A region is told with each field under its name.
pub proof fn context_says_each_field_of_a_region(x: Region)
    ensures
        ({
            let j = region_json_of(x);
            &&& member_of(j, "id"@) == said(x.id@)
            &&& member_of(j, "name"@) == said(x.name@)
            &&& member_of(j, "label"@) == shown_text(x.label)
            &&& member_of(j, "country_code"@) == shown_text(x.country_code)
        }),
{
    agent_keys();
    let m = (region_json_of(x))->Obj_0;
    first_member_is_found(m, "id"@, 0);
    first_member_is_found(m, "name"@, 1);
    first_member_is_found(m, "label"@, 2);
    first_member_is_found(m, "country_code"@, 3);
}

/// A pod is told with each field under its name, and without a price where
/// there are no prices.
pub proof fn context_says_each_field_of_a_pod(p: Pod, pricing: Option<RegionPricing<PriceText>>)
    ensures
        ({
            let j = pod_json_of(p, pricing);
            &&& member_of(j, "id"@) == said(p.id@)
            &&& member_of(j, "name"@) == said(p.name@)
            &&& member_of(j, "label"@) == shown_text(p.label)
            &&& member_of(j, "cpu"@) == shown_text(p.cpu)
            &&& member_of(j, "ram"@) == shown_text(p.ram)
            &&& member_of(j, "price_eur_month"@) == Some(price_json(pod_price_of(pricing, p.id@)))
            &&& pricing is None ==> member_of(j, "price_eur_month"@) == Some(JsonView::Null)
            &&& pricing matches Some(pr) ==> forall|i: int|
                0 <= i < pr.pods@.len() && (#[trigger] pr.pods@[i]).fk_pod@ == p.id@ && (forall|k: int|
                    0 <= k < i ==> (#[trigger] pr.pods@[k]).fk_pod@ != p.id@)
                    ==> member_of(j, "price_eur_month"@) == Some(
                    JsonView::Num(pr.pods@[i].price.number@),
                )
        }),
{
    agent_keys();
    let m = (pod_json_of(p, pricing))->Obj_0;
    first_member_is_found(m, "id"@, 0);
    first_member_is_found(m, "name"@, 1);
    first_member_is_found(m, "label"@, 2);
    first_member_is_found(m, "cpu"@, 3);
    first_member_is_found(m, "ram"@, 4);
    first_member_is_found(m, "price_eur_month"@, 5);
    if let Some(pr) = pricing {
        assert forall|i: int|
            0 <= i < pr.pods@.len() && (#[trigger] pr.pods@[i]).fk_pod@ == p.id@ && (forall|k: int|
                0 <= k < i ==> (#[trigger] pr.pods@[k]).fk_pod@ != p.id@) implies price_json(
            pod_price_of(pricing, p.id@),
        ) == JsonView::Num(pr.pods@[i].price.number@) by {
            first_price(pr.pods@, p.id@, i, 0);
        }
    }
}

/// A service is told with each field under its name, its project and the
/// region of its home.
pub proof fn context_says_each_field_of_a_service(s: ProjectService)
    ensures
        ({
            let j = listed_service_json(s);
            &&& member_of(j, "id"@) == said(s.service.id@)
            &&& member_of(j, "name"@) == said(s.service.name@)
            &&& member_of(j, "fk_project"@) == said(s.fk_project@)
            &&& member_of(j, "fk_region"@) == Some(match primary_region_of(s.service) { Some(x) => JsonView::Str(x), None => JsonView::Null })
            &&& member_of(j, "fk_pod"@) == shown_text(s.service.fk_pod)
            &&& member_of(j, "deploy_type"@) == said(s.service.deploy_type@)
            &&& member_of(j, "runtime"@) == said(s.service.runtime@)
        }),
{
    agent_keys();
    let m = (listed_service_json(s))->Obj_0;
    first_member_is_found(m, "id"@, 0);
    first_member_is_found(m, "name"@, 1);
    first_member_is_found(m, "fk_project"@, 2);
    first_member_is_found(m, "fk_region"@, 3);
    first_member_is_found(m, "fk_pod"@, 4);
    first_member_is_found(m, "deploy_type"@, 5);
    first_member_is_found(m, "runtime"@, 6);
}

/// A workspace is told with everything that is in it, each kind under its own
/// key and in its order.
pub proof fn context_says_each_part_of_a_workspace(w: WorkspaceData)
    ensures
        ({
            let j = workspace_json_of(w);
            &&& member_of(j, "id"@) == said(w.workspace.id@)
            &&& member_of(j, "name"@) == said(w.workspace.name@)
            &&& member_of(j, "email"@) == shown_text(w.workspace.email)
            &&& member_of(j, "projects"@) == Some(JsonView::Arr(Seq::new(w.projects@.len(), |i: int| project_json_of(w.projects@[i]))))
            &&& member_of(j, "regions"@) == Some(JsonView::Arr(Seq::new(w.regions@.len(), |i: int| region_json_of(w.regions@[i]))))
            &&& member_of(j, "pods"@) == Some(JsonView::Arr(Seq::new(w.pods@.len(), |i: int| pod_json_of(w.pods@[i], w.pricing))))
            &&& member_of(j, "volume_price_per_gb"@) == Some(match w.pricing { Some(pr) => JsonView::Num(pr.volume_price_per_gb.number@), None => JsonView::Null })
            &&& member_of(j, "balance_eur"@) == Some(match w.balance { Some(b) => JsonView::Num(b@), None => JsonView::Null })
            &&& member_of(j, "registry_secrets"@) == Some(JsonView::Arr(Seq::new(w.registry_secrets@.len(), |i: int| secret_json_of(w.registry_secrets@[i]))))
            &&& member_of(j, "repository_secrets"@) == Some(JsonView::Arr(Seq::new(w.repository_secrets@.len(), |i: int| secret_json_of(w.repository_secrets@[i]))))
            &&& member_of(j, "services"@) == Some(JsonView::Arr(Seq::new(w.services@.len(), |i: int| listed_service_json(w.services@[i]))))
        }),
{
    agent_keys();
    let m = (workspace_json_of(w))->Obj_0;
    first_member_is_found(m, "id"@, 0);
    first_member_is_found(m, "name"@, 1);
    first_member_is_found(m, "email"@, 2);
    first_member_is_found(m, "projects"@, 3);
    first_member_is_found(m, "regions"@, 4);
    first_member_is_found(m, "pods"@, 5);
    first_member_is_found(m, "volume_price_per_gb"@, 6);
    first_member_is_found(m, "balance_eur"@, 7);
    first_member_is_found(m, "registry_secrets"@, 8);
    first_member_is_found(m, "repository_secrets"@, 9);
    first_member_is_found(m, "services"@, 10);
    assert(w.projects@.map_values(|p: Project| project_json_of(p)) =~= Seq::new(
        w.projects@.len(),
        |i: int| project_json_of(w.projects@[i]),
    ));
    assert(w.regions@.map_values(|x: Region| region_json_of(x)) =~= Seq::new(
        w.regions@.len(),
        |i: int| region_json_of(w.regions@[i]),
    ));
    assert(w.pods@.map_values(|p: Pod| pod_json_of(p, w.pricing)) =~= Seq::new(
        w.pods@.len(),
        |i: int| pod_json_of(w.pods@[i], w.pricing),
    ));
    assert(w.registry_secrets@.map_values(|s: WorkspaceSecret| secret_json_of(s)) =~= Seq::new(
        w.registry_secrets@.len(),
        |i: int| secret_json_of(w.registry_secrets@[i]),
    ));
    assert(w.repository_secrets@.map_values(|s: WorkspaceSecret| secret_json_of(s)) =~= Seq::new(
        w.repository_secrets@.len(),
        |i: int| secret_json_of(w.repository_secrets@[i]),
    ));
    assert(w.services@.map_values(|s: ProjectService| listed_service_json(s)) =~= Seq::new(
        w.services@.len(),
        |i: int| listed_service_json(w.services@[i]),
    ));
}

/// The context tells the user by email, and every workspace in order.
pub proof fn context_says_the_user_and_the_workspaces(c: ContextData)
    ensures
        ({
            let j = context_json_of(c);
            &&& member_of(j, "user"@) is Some
            &&& member_of(member_of(j, "user"@)->0, "email"@) == shown_text(c.user_email)
            &&& member_of(j, "workspaces"@) == Some(
                JsonView::Arr(
                    Seq::new(c.workspaces@.len(), |i: int| workspace_json_of(c.workspaces@[i])),
                ),
            )
        }),
{
    agent_keys();
    let m = context_json_of(c)->Obj_0;
    first_member_is_found(m, "user"@, 0);
    first_member_is_found(m, "workspaces"@, 1);
    let u = seq![("email"@, crate::json::opt_string_view(opt_view(c.user_email)))];
    first_member_is_found(u, "email"@, 0);
    assert(c.workspaces@.map_values(|w: WorkspaceData| workspace_json_of(w)) =~= Seq::new(
        c.workspaces@.len(),
        |i: int| workspace_json_of(c.workspaces@[i]),
    ));
}

/// A check of the doctor is told with its name, how it came out, and what mends it.
pub proof fn doctor_says_each_check(c: CheckView)
    ensures
        ({
            let j = check_json_of(c);
            &&& member_of(j, "name"@) == said(c.name)
            &&& member_of(j, "status"@) == said(match c.status { Health::Fine => "ok"@, Health::Warn => "warn"@, Health::Fail => "fail"@ })
            &&& member_of(j, "message"@) == said(c.message)
            &&& member_of(j, "fix"@) == Some(match c.fix { Some(f) => JsonView::Str(f), None => JsonView::Null })
        }),
{
    agent_keys();
    let m = (check_json_of(c))->Obj_0;
    first_member_is_found(m, "name"@, 0);
    first_member_is_found(m, "status"@, 1);
    first_member_is_found(m, "message"@, 2);
    first_member_is_found(m, "fix"@, 3);
}

/// The doctor fails exactly where there are no credentials, no key can be read,
/// the API does not answer to the key, or the configuration does not parse; every
/// check that fails says what mends it, and one that is fine says nothing.
pub proof fn doctor_fails_when(
    credentials: Credentials,
    loaded: bool,
    api: ApiProbe,
    config: ConfigProbe,
    over: Option<Seq<char>>,
)
    ensures
        ({
            let all = doctor_checks(credentials, loaded, api, config, over);
            &&& some_check_fails(all) <==> !(credentials is Found) || !loaded || !(api is Workspaces)
                || config is Broken
            &&& all.len() == 4
            &&& forall|i: int|
                0 <= i < all.len() && (#[trigger] all[i]).status == Health::Fail ==> all[i].fix
                    is Some
            &&& forall|i: int|
                0 <= i < all.len() && (#[trigger] all[i]).status == Health::Fine ==> all[i].fix
                    is None
            &&& all[0].status == Health::Fine <==> credentials is Found
            &&& all[1].status == Health::Fine <==> loaded
            &&& all[2].status == Health::Fine <==> loaded && api is Workspaces
            &&& all[3].status == Health::Fine <==> config is Parses
        }),
{
    let all = doctor_checks(credentials, loaded, api, config, over);
    assert(all[0] == all[0] && all[1] == all[1] && all[2] == all[2] && all[3] == all[3]);
}

/// What the next step is follows from what is there: a key, then a file, then a
/// file that parses, then its references, then the service, then a deploy.
pub proof fn next_step_is_the_first_that_is_open(
    key: bool,
    config: NextConfig,
    over: Option<Seq<char>>,
)
    ensures
        ({
            let s = next_of(key, config, over).state;
            &&& s == "needs_auth"@ <==> !key
            &&& s == "needs_init"@ <==> key && config is Missing
            &&& s == "config_broken"@ <==> key && config is Broken
            &&& s == "needs_uuids"@ <==> key && (config matches NextConfig::Loaded(c, _)
                && misses_a_reference(c))
            &&& s == "needs_create"@ <==> key && (config matches NextConfig::Loaded(c, _)
                && !misses_a_reference(c) && c.id is None)
            &&& s == "deployed"@ <==> key && (config matches NextConfig::Loaded(c, jobs)
                && !misses_a_reference(c) && c.id is Some && (c.deploy_tag is Some || ends_as(
                jobs,
                "succeeded"@,
            )))
            &&& s == "deploying"@ <==> key && (config matches NextConfig::Loaded(c, jobs)
                && !misses_a_reference(c) && c.id is Some && c.deploy_tag is None && (ends_as(
                jobs,
                "open"@,
            ) || ends_as(jobs, "in_progress"@)))
            &&& s == "deploy_failed"@ <==> key && (config matches NextConfig::Loaded(c, jobs)
                && !misses_a_reference(c) && c.id is Some && c.deploy_tag is None && (ends_as(
                jobs,
                "failed"@,
            ) || ends_as(jobs, "timed_out"@)))
            &&& s == "needs_deploy"@ <==> key && (config matches NextConfig::Loaded(c, jobs)
                && !misses_a_reference(c) && c.id is Some && c.deploy_tag is None && !ends_as(
                jobs,
                "succeeded"@,
            ) && !ends_as(jobs, "open"@) && !ends_as(jobs, "in_progress"@) && !ends_as(
                jobs,
                "failed"@,
            ) && !ends_as(jobs, "timed_out"@))
        }),
{
    state_names();
    if let NextConfig::Loaded(c, jobs) = config {
        latest_is_the_newest(jobs);
        assert forall|s: Seq<char>| #[trigger] ends_as(jobs, s) <==> latest_deploy(jobs) == Some(
            s,
        ) by {}
    }
}

/// Whether a reference of a configuration is empty.
pub open spec fn misses_a_reference(c: PartiriConfig) -> bool {
    c.fk_workspace@.len() == 0 || c.fk_project@.len() == 0 || c.service.fk_region@.len() == 0
        || c.service.fk_pod@.len() == 0
}

/// Whether the newest deploy among some jobs has a status.
pub open spec fn ends_as(jobs: Option<Vec<Job>>, status: Seq<char>) -> bool {
    latest_deploy(jobs) == Some(status)
}

/// The deploy that counts is the newest: a deploy of those that came, and none of
/// them is newer. Without any deploy none counts.
pub proof fn latest_is_the_newest(jobs: Option<Vec<Job>>)
    ensures
        latest_deploy(jobs) matches Some(s) ==> jobs is Some && exists|i: int|
            {
                &&& 0 <= i < jobs->0@.len()
                &&& (#[trigger] jobs->0@[i]).job_type@ == "deploy"@
                &&& jobs->0@[i].status@ == s
                &&& forall|k: int|
                    0 <= k < jobs->0@.len() && (#[trigger] jobs->0@[k]).job_type@ == "deploy"@
                        ==> !older(jobs->0@[i], jobs->0@[k])
            },
        latest_deploy(jobs) is None <==> (jobs matches Some(v) ==> forall|k: int|
            0 <= k < v@.len() ==> (#[trigger] v@[k]).job_type@ != "deploy"@),
{
    if let Some(v) = jobs {
        let p = |j: Job| is_deploy(j);
        let d = v@.filter(p);
        let out = newest_first(d);
        newest_first_is_sorted(d);
        newest_first_is_a_permutation(d);
        broadcast use vstd::seq_lib::group_to_multiset_ensures;

        if d.len() > 0 {
            let x = out[0];
            assert(out.to_multiset().contains(x));
            assert(d.to_multiset().contains(x));
            assert(d.contains(x));
            let n = d.index_of(x);
            v@.lemma_filter_pred(p, n);
            v@.lemma_filter_contains_rev(p, x);
            let i = v@.index_of(x);
            assert(v@[i] == x);
            assert forall|k: int|
                0 <= k < v@.len() && (#[trigger] v@[k]).job_type@ == "deploy"@ implies !older(
                v@[i],
                v@[k],
            ) by {
                v@.lemma_filter_contains(p, k);
                assert(d.to_multiset().contains(v@[k]));
                assert(out.contains(v@[k]));
                let m = out.index_of(v@[k]);
                if m > 0 {
                    assert(!older(out[0], out[m]));
                } else if older(v@[i], v@[k]) {
                    if x.created_at is Some {
                        crate::text::text_lt_irreflexive(x.created_at->0@);
                    }
                }
            }
            assert(v@[i].job_type@ == "deploy"@);
            assert(exists|k: int| 0 <= k < v@.len() && (#[trigger] v@[k]).job_type@ == "deploy"@);
        } else {
            assert forall|k: int| 0 <= k < v@.len() implies (#[trigger] v@[k]).job_type@
                != "deploy"@ by {
                if v@[k].job_type@ == "deploy"@ {
                    v@.lemma_filter_contains(p, k);
                    assert(d.contains(v@[k]));
                }
            }
        }
    }
}

/// Each state is followed by the command that leads on from it.
pub proof fn next_command_leads_on(key: bool, config: NextConfig, over: Option<Seq<char>>)
    ensures
        ({
            let a = next_of(key, config, over);
            let flag = config_flag_suffix_of(over);
            &&& a.state == "needs_auth"@ ==> a.next_command == "partiri auth set-apikey --key <KEY>"@
            &&& a.state == "needs_init"@ ==> a.next_command == "partiri init --template"@ + flag
            &&& a.state == "config_broken"@ ==> a.next_command == "partiri validate"@ + flag
            &&& a.state == "needs_uuids"@ ==> a.next_command == "partiri -j llm context"@
            &&& a.state == "needs_create"@ ==> a.next_command == "partiri -j validate --remote"@
                + flag + " && partiri -j -y service create"@ + flag
            &&& a.state == "needs_deploy"@ ==> a.next_command == "partiri -j -y service deploy"@
                + flag
            &&& a.state == "deploying"@ || a.state == "deploy_failed"@ ==> a.next_command
                == "partiri -j service jobs"@ + flag
            &&& a.state == "deployed"@ ==> a.next_command == "partiri -j service jobs"@ + flag
                || a.next_command == "partiri service pull"@ + flag
        }),
{
    state_names();
}

} // verus!
