//! The tables of services, regions, pods, workspaces and projects.
use vstd::prelude::*;
use vstd::string::*;

use crate::client::{Pod, Project, Region, RegionPricing, Service, Workspace};
use crate::output::{Ctx, Listing};
use crate::seqs::{first_item, first_where};
use crate::service::push::price_of_pod;
use crate::text::{or_empty, str_eq, text_or_empty};

verus! {

/// How many services of a project are asked for. Without a limit the API gives
/// ten and does not say that there are more.
pub const SERVICE_LIMIT: usize = 50;

/// A row of `service list`.
#[derive(Debug)]
pub struct ServiceListRow {
    pub name: String,
    pub runtime: String,
    pub deploy_type: String,
    pub id: String,
}

pub open spec fn is_service_row(row: ServiceListRow, s: Service) -> bool {
    row.name == s.name && row.runtime == s.runtime && row.deploy_type == s.deploy_type && row.id
        == s.id
}

/// `service list`: the services of a project.
pub fn list_services(services: &Vec<Service>, ctx: Ctx) -> (r: Listing<ServiceListRow>)
    ensures
        services@.len() == 0 && !ctx.json ==> r is Message && r->Message_0@
            == "No services found in this project."@,
        services@.len() > 0 || ctx.json ==> r is Rows && r->Rows_0@.len() == services@.len()
            && forall|i: int|
            0 <= i < services@.len() ==> is_service_row(#[trigger] r->Rows_0@[i], services@[i]),
{
    let mut rows: Vec<ServiceListRow> = Vec::new();
    for i in 0..services.len()
        invariant
            rows@.len() == i,
            forall|k: int| 0 <= k < i ==> is_service_row(#[trigger] rows@[k], services@[k]),
    {
        let s = &services[i];
        rows.push(
            ServiceListRow {
                name: s.name.clone(),
                runtime: s.runtime.clone(),
                deploy_type: s.deploy_type.clone(),
                id: s.id.clone(),
            },
        );
    }
    if rows.len() == 0 && !ctx.json {
        return Listing::Message("No services found in this project.".to_owned());
    }
    Listing::Rows(rows)
}

/// A row of `regions list`.
#[derive(Debug)]
pub struct RegionRow {
    pub name: String,
    pub label: String,
    pub country: String,
    pub id: String,
}

pub open spec fn is_region_row(row: RegionRow, x: Region) -> bool {
    row.name == x.name && row.label@ == or_empty(x.label) && row.country@ == or_empty(
        x.country_code,
    ) && row.id == x.id
}

/// `regions list`: the regions of a workspace.
pub fn list_regions(regions: &Vec<Region>, ctx: Ctx) -> (r: Listing<RegionRow>)
    ensures
        regions@.len() == 0 && !ctx.json ==> r is Message && r->Message_0@
            == "No regions available in this workspace."@,
        regions@.len() > 0 || ctx.json ==> r is Rows && r->Rows_0@.len() == regions@.len()
            && forall|i: int|
            0 <= i < regions@.len() ==> is_region_row(#[trigger] r->Rows_0@[i], regions@[i]),
{
    let mut rows: Vec<RegionRow> = Vec::new();
    for i in 0..regions.len()
        invariant
            rows@.len() == i,
            forall|k: int| 0 <= k < i ==> is_region_row(#[trigger] rows@[k], regions@[k]),
    {
        let x = &regions[i];
        rows.push(
            RegionRow {
                name: x.name.clone(),
                label: text_or_empty(&x.label),
                country: text_or_empty(&x.country_code),
                id: x.id.clone(),
            },
        );
    }
    if rows.len() == 0 && !ctx.json {
        return Listing::Message("No regions available in this workspace.".to_owned());
    }
    Listing::Rows(rows)
}

/// A row of `pods list`; with a price where a region was named.
#[derive(Debug)]
pub struct PodRow {
    pub name: String,
    pub label: String,
    pub cpu: String,
    pub ram: String,
    pub price_eur_month: Option<String>,
    pub id: String,
}

/// The price shown for a pod: a dash where it has none.
pub open spec fn shown_price(pricing: Option<RegionPricing<String>>, id: Seq<char>) -> Seq<char> {
    match pricing {
        Some(pr) => match first_item(pr.pods@, price_of_pod(id)) {
            Some(p) => p.price@,
            None => "—"@,
        },
        None => "—"@,
    }
}

pub open spec fn is_pod_row(
    row: PodRow,
    p: Pod,
    priced: bool,
    pricing: Option<RegionPricing<String>>,
) -> bool {
    &&& row.name == p.name
    &&& row.label@ == or_empty(p.label)
    &&& row.cpu@ == or_empty(p.cpu)
    &&& row.ram@ == or_empty(p.ram)
    &&& row.id == p.id
    &&& crate::text::opt_view(row.price_eur_month) == if priced {
        Some(shown_price(pricing, p.id@))
    } else {
        None
    }
}

fn price_text(pricing: &Option<RegionPricing<String>>, id: &str) -> (r: String)
    ensures
        r@ == shown_price(*pricing, id@),
{
    match pricing {
        Some(pr) => {
            let ghost p = price_of_pod::<String>(id@);
            let mut i: usize = 0;
            while i < pr.pods.len()
                invariant
                    i <= pr.pods@.len(),
                    *pricing == Some(*pr),
                    p == price_of_pod::<String>(id@),
                    first_where(pr.pods@, p, 0) == first_where(pr.pods@, p, i as int),
                decreases pr.pods@.len() - i,
            {
                if str_eq(pr.pods[i].fk_pod.as_str(), id) {
                    assert(p(pr.pods@[i as int]));
                    return pr.pods[i].price.clone();
                }
                assert(!p(pr.pods@[i as int]));
                i += 1;
            }
            "—".to_owned()
        },
        None => "—".to_owned(),
    }
}

/// `pods list`: the compute pods of a workspace. With a region the rows carry
/// its prices, each as a text; they may be missing.
pub fn list_pods(
    pods: &Vec<Pod>,
    priced: bool,
    pricing: &Option<RegionPricing<String>>,
    ctx: Ctx,
) -> (r: Listing<PodRow>)
    ensures
        pods@.len() == 0 && !ctx.json ==> r is Message && r->Message_0@
            == "No compute pods available in this workspace."@,
        pods@.len() == 0 && ctx.json ==> r is Nothing,
        pods@.len() > 0 ==> r is Rows && r->Rows_0@.len() == pods@.len() && forall|i: int|
            0 <= i < pods@.len() ==> is_pod_row(
                #[trigger] r->Rows_0@[i],
                pods@[i],
                priced,
                *pricing,
            ),
{
    if pods.len() == 0 {
        if ctx.json {
            return Listing::Nothing;
        }
        return Listing::Message("No compute pods available in this workspace.".to_owned());
    }
    let mut rows: Vec<PodRow> = Vec::new();
    for i in 0..pods.len()
        invariant
            rows@.len() == i,
            forall|k: int| 0 <= k < i ==> is_pod_row(#[trigger] rows@[k], pods@[k], priced, *pricing),
    {
        let p = &pods[i];
        rows.push(
            PodRow {
                name: p.name.clone(),
                label: text_or_empty(&p.label),
                cpu: text_or_empty(&p.cpu),
                ram: text_or_empty(&p.ram),
                price_eur_month: if priced {
                    Some(price_text(pricing, p.id.as_str()))
                } else {
                    None
                },
                id: p.id.clone(),
            },
        );
    }
    Listing::Rows(rows)
}

/// A row of `workspaces list`.
#[derive(Debug)]
pub struct WorkspaceRow {
    pub name: String,
    pub id: String,
}

/// `workspaces list`.
pub fn list_workspaces(workspaces: &Vec<Workspace>, ctx: Ctx) -> (r: Listing<WorkspaceRow>)
    ensures
        workspaces@.len() == 0 && !ctx.json ==> r is Message && r->Message_0@
            == "No workspaces found."@,
        workspaces@.len() > 0 || ctx.json ==> r is Rows && r->Rows_0@.len() == workspaces@.len()
            && forall|i: int|
            0 <= i < workspaces@.len() ==> (#[trigger] r->Rows_0@[i]).name == workspaces@[i].name
                && r->Rows_0@[i].id == workspaces@[i].id,
{
    let mut rows: Vec<WorkspaceRow> = Vec::new();
    for i in 0..workspaces.len()
        invariant
            rows@.len() == i,
            forall|k: int|
                0 <= k < i ==> (#[trigger] rows@[k]).name == workspaces@[k].name && rows@[k].id
                    == workspaces@[k].id,
    {
        rows.push(
            WorkspaceRow { name: workspaces[i].name.clone(), id: workspaces[i].id.clone() },
        );
    }
    if rows.len() == 0 && !ctx.json {
        return Listing::Message("No workspaces found.".to_owned());
    }
    Listing::Rows(rows)
}

/// A row of `projects list`.
#[derive(Debug)]
pub struct ProjectRow {
    pub name: String,
    pub environment: String,
    pub id: String,
}

pub open spec fn is_project_row(row: ProjectRow, p: Project) -> bool {
    row.name == p.name && row.environment == p.environment && row.id == p.id
}

/// `projects list`: the projects of a workspace.
pub fn list_projects(projects: &Vec<Project>, ctx: Ctx) -> (r: Listing<ProjectRow>)
    ensures
        projects@.len() == 0 && !ctx.json ==> r is Message && r->Message_0@
            == "No projects found in this workspace."@,
        projects@.len() > 0 || ctx.json ==> r is Rows && r->Rows_0@.len() == projects@.len()
            && forall|i: int|
            0 <= i < projects@.len() ==> is_project_row(#[trigger] r->Rows_0@[i], projects@[i]),
{
    let mut rows: Vec<ProjectRow> = Vec::new();
    for i in 0..projects.len()
        invariant
            rows@.len() == i,
            forall|k: int| 0 <= k < i ==> is_project_row(#[trigger] rows@[k], projects@[k]),
    {
        let p = &projects[i];
        rows.push(
            ProjectRow {
                name: p.name.clone(),
                environment: p.environment.clone(),
                id: p.id.clone(),
            },
        );
    }
    if rows.len() == 0 && !ctx.json {
        return Listing::Message("No projects found in this workspace.".to_owned());
    }
    Listing::Rows(rows)
}

} // verus!
