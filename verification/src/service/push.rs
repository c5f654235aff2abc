//! `partiri service push`: send the local service definition to the API. The
//! volume of the service is looked at, for a hint, and never touched.
use vstd::prelude::*;
use vstd::string::*;

use crate::client::{
    service_members, with_body, ApiClient, ApiRequest, Method, PodPrice, RegionPricing, Volume,
};
use crate::config::{not_created, PartiriConfig};
use crate::error::Failure;
use crate::json::{opt_string_view, Json, JsonView};
use crate::output::{Report, ReportView};
use crate::seqs::{first_item, first_where};
use crate::storage::{canonical_mount_path, same_disk};
use crate::text::{
    cat3, cat5, cat7, decimal, decimal_of, opt_str_view, opt_view, str_eq,
};

verus! {

pub open spec fn price_of_pod<P>(pod_id: Seq<char>) -> spec_fn(PodPrice<P>) -> bool {
    |p: PodPrice<P>| p.fk_pod@ == pod_id
}

/// The monthly price of a pod: `zero` for a pod without a price, none where
/// the pod or the prices are unknown.
pub open spec fn pod_cost<P>(
    pod_id: Option<Seq<char>>,
    pricing: Option<RegionPricing<P>>,
    zero: P,
) -> Option<P> {
    match (pricing, pod_id) {
        (Some(pr), Some(id)) => match first_item(pr.pods@, price_of_pod(id)) {
            Some(p) => Some(p.price),
            None => Some(zero),
        },
        _ => None,
    }
}

/// The monthly price of a pod in the prices of a region.
pub fn compute_pod_monthly_cost<P: Copy>(
    pod_id: Option<&str>,
    pricing: Option<&RegionPricing<P>>,
    zero: P,
) -> (r: Option<P>)
    ensures
        r == pod_cost(
            opt_str_view(pod_id),
            match pricing {
                Some(p) => Some(*p),
                None => None,
            },
            zero,
        ),
{
    match pricing {
        Some(pr) => match pod_id {
            Some(id) => {
                let ghost p = price_of_pod::<P>(id@);
                let mut i: usize = 0;
                while i < pr.pods.len()
                    invariant
                        i <= pr.pods@.len(),
                        pricing == Some(pr),
                        pod_id == Some(id),
                        p == price_of_pod::<P>(id@),
                        first_where(pr.pods@, p, 0) == first_where(pr.pods@, p, i as int),
                    decreases pr.pods@.len() - i,
                {
                    if str_eq(pr.pods[i].fk_pod.as_str(), id) {
                        assert(p(pr.pods@[i as int]));
                        return Some(pr.pods[i].price);
                    }
                    assert(!p(pr.pods@[i as int]));
                    i += 1;
                }
                Some(zero)
            },
            None => None,
        },
        None => None,
    }
}

/// The id by which the volume is named in a hint.
pub open spec fn shown_volume_id(v: Volume) -> Seq<char> {
    match v.id {
        Some(id) => id@,
        None => "<UUID>"@,
    }
}

/// How the disk block and the live volume differ: the command that would bring
/// them together.
pub open spec fn divergence(config: PartiriConfig, vol: Option<Volume>) -> Option<Seq<char>> {
    match (config.service.disk, vol) {
        (Some(d), None) => Some(
            "`.partiri.jsonc` declares a disk ("@ + decimal_of(d.size as nat) + " GB at "@
                + d.mount_path@
                + ") but the service has no volume; run `partiri storage create` to provision it."@,
        ),
        (Some(d), Some(v)) => if same_disk(v, d) {
            None
        } else {
            Some(
                "`.partiri.jsonc` disk ("@ + decimal_of(d.size as nat) + " GB at "@ + d.mount_path@
                    + ") differs from the live volume ("@ + decimal_of(v.size as nat) + " GB at "@
                    + v.mount_path@ + "); run `partiri storage update` to apply it."@,
            )
        },
        (None, Some(v)) => Some(
            "the service still has a volume ("@ + shown_volume_id(v)
                + ") but `.partiri.jsonc` has no disk block; push left it in place — run `partiri storage detach "@
                + shown_volume_id(v) + "` then `partiri storage delete "@ + shown_volume_id(v)
                + "` to remove it."@,
        ),
        (None, None) => None,
    }
}

/// Describe how the disk block differs from the live volume, if at all.
pub fn disk_divergence_hint(config: &PartiriConfig, current_vol: Option<&Volume>) -> (r: Option<
    String,
>)
    ensures
        opt_view(r) == divergence(
            *config,
            match current_vol {
                Some(v) => Some(*v),
                None => None,
            },
        ),
{
    match (&config.service.disk, current_vol) {
        (Some(disk), None) => {
            let size = decimal(disk.size as u64);
            Some(
                cat5(
                    "`.partiri.jsonc` declares a disk (",
                    size.as_str(),
                    " GB at ",
                    disk.mount_path.as_str(),
                    ") but the service has no volume; run `partiri storage create` to provision it.",
                ),
            )
        },
        (Some(disk), Some(vol)) => {
            let same = disk.size == vol.size && str_eq(
                canonical_mount_path(disk.mount_path.as_str()),
                canonical_mount_path(vol.mount_path.as_str()),
            );
            if same {
                None
            } else {
                let want = decimal(disk.size as u64);
                let have = decimal(vol.size as u64);
                let mut out = cat7(
                    "`.partiri.jsonc` disk (",
                    want.as_str(),
                    " GB at ",
                    disk.mount_path.as_str(),
                    ") differs from the live volume (",
                    have.as_str(),
                    " GB at ",
                );
                out.append(vol.mount_path.as_str());
                out.append("); run `partiri storage update` to apply it.");
                Some(out)
            }
        },
        (None, Some(vol)) => {
            let id = match &vol.id {
                Some(id) => id.as_str(),
                None => "<UUID>",
            };
            Some(
                cat7(
                    "the service still has a volume (",
                    id,
                    ") but `.partiri.jsonc` has no disk block; push left it in place — run `partiri storage detach ",
                    id,
                    "` then `partiri storage delete ",
                    id,
                    "` to remove it.",
                ),
            )
        },
        (None, None) => None,
    }
}

/// The request that sends the local definition.
pub fn run(config: &PartiriConfig) -> (r: Result<ApiRequest, Failure>)
    ensures
        r is Ok <==> config.id is Some,
        r is Ok ==> r->Ok_0@ == with_body(
            Method::Put,
            "/services/"@ + config.id->0@,
            JsonView::Obj(service_members(config.service)),
        ),
        r is Err ==> r->Err_0@ == not_created(),
{
    match config.id_or_err() {
        Ok(id) => Ok(ApiClient::update_service(id, &config.service)),
        Err(e) => Err(e),
    }
}

/// The monthly costs before and after, and their difference, as JSON numbers;
/// `shown` is the difference with its sign and four decimals.
#[derive(Debug)]
pub struct CostChange {
    pub current: Option<String>,
    pub desired: Option<String>,
    pub delta: Option<String>,
    pub shown: Option<String>,
}

pub open spec fn number_json(o: Option<String>) -> JsonView {
    match o {
        Some(s) => JsonView::Num(s@),
        None => JsonView::Null,
    }
}

fn number(o: &Option<String>) -> (r: Json)
    ensures
        r@ == number_json(*o),
{
    match o {
        Some(s) => Json::Num(s.clone()),
        None => Json::Null,
    }
}

/// What is reported of a push.
pub open spec fn pushed_view(id: Seq<char>, cost: CostChange, hint: Option<String>) -> ReportView {
    ReportView {
        message: "Service "@ + id + " updated successfully."@,
        data: Some(
            JsonView::Obj(
                seq![
                    ("id"@, JsonView::Str(id)),
                    ("current_monthly_pod_cost_eur"@, number_json(cost.current)),
                    ("desired_monthly_pod_cost_eur"@, number_json(cost.desired)),
                    ("cost_delta_eur"@, number_json(cost.delta)),
                    ("disk_hint"@, opt_string_view(opt_view(hint))),
                ],
            ),
        ),
        notes: (match cost.shown {
            Some(d) => seq!["Monthly pod cost change: "@ + d@],
            None => seq![],
        }) + (match hint {
            Some(h) => seq!["info: "@ + h@],
            None => seq![],
        }),
    }
}

/// The report on a push.
pub fn pushed_report(id: &str, cost: &CostChange, hint: &Option<String>) -> (r: Report)
    ensures
        r@ == pushed_view(id@, *cost, *hint),
{
    let data = Json::object().with("id", Json::str(id)).with(
        "current_monthly_pod_cost_eur",
        number(&cost.current),
    ).with("desired_monthly_pod_cost_eur", number(&cost.desired)).with(
        "cost_delta_eur",
        number(&cost.delta),
    ).with("disk_hint", Json::opt(hint));
    assert(data@->Obj_0 =~= pushed_view(id@, *cost, *hint).data->0->Obj_0);
    let mut notes: Vec<String> = Vec::new();
    match &cost.shown {
        Some(d) => {
            notes.push(crate::text::cat2("Monthly pod cost change: ", d.as_str()));
        },
        None => {},
    }
    match hint {
        Some(h) => {
            notes.push(crate::text::cat2("info: ", h.as_str()));
        },
        None => {},
    }
    let r = Report {
        message: cat3("Service ", id, " updated successfully."),
        data: Some(data),
        notes,
    };
    assert(r@.notes =~= pushed_view(id@, *cost, *hint).notes);
    r
}

/// There is a hint exactly where disk block and volume do not agree.
pub proof fn hint_only_on_divergence(config: PartiriConfig, vol: Option<Volume>)
    ensures
        divergence(config, vol) is None <==> match (config.service.disk, vol) {
            (Some(d), Some(v)) => same_disk(v, d),
            (None, None) => true,
            _ => false,
        },
{
}

} // verus!
