//! `partiri service create`: register a new service.
use vstd::prelude::*;
use vstd::string::*;

use crate::client::{service_members, with_body, ApiClient, ApiRequest, Method, Service, Volume};
use crate::config::{
    checks_of, is_valid, outcomes, validate_config, ConfigOverride, PartiriConfig, ValidationView,
};
use crate::error::{bare, enriched_of, hinted, validation_error_with_hint, validation_hint_of};
use crate::error::{CliError, CliErrorView, Failure, FailureView};
use crate::json::{opt_string_view, Json, JsonView};
use crate::output::{Report, ReportView};
use crate::seqs::filter_take;
use crate::text::{
    ascii_lower, cat2, cat3, chars_of, is_alnum_char, is_ascii_alnum, is_digit_char, is_lower_char,
    is_upper_char, opt_view, views,
};

verus! {

// ─── The volume name ───────────────────────────────────────────────────────

/// The lowercase form of a text, as `str::to_lowercase` gives it.
pub uninterp spec fn lowercased(s: Seq<char>) -> Seq<char>;

/// `str::to_lowercase`, which depends on the characters alone. Each ASCII
/// capital becomes its small letter, so none is left in the result, and an
/// ASCII text is lowered letter by letter. What becomes of other characters
/// is left to the name.
#[verifier::external_body]
fn to_lowercase(s: &str) -> (r: String)
    ensures
        r@ == lowercased(s@),
        forall|i: int| 0 <= i < r@.len() ==> !is_upper_char(#[trigger] r@[i]),
        vstd::utf8::is_ascii_chars(s@) ==> r@ == ascii_lower(s@),
{
    s.to_lowercase()
}

/// A character that a DNS label admits stays; any other becomes a hyphen.
pub open spec fn label_char(c: char) -> char {
    if is_alnum_char(c) || c == '-' {
        c
    } else {
        '-'
    }
}

/// Each run of hyphens made one hyphen.
pub open spec fn collapsed(s: Seq<char>) -> Seq<char>
    decreases s.len(),
{
    if s.len() == 0 {
        s
    } else if s.len() > 1 && s.last() == '-' && s[s.len() - 2] == '-' {
        collapsed(s.drop_last())
    } else {
        collapsed(s.drop_last()).push(s.last())
    }
}

pub open spec fn strip_start(s: Seq<char>, c: char) -> Seq<char>
    decreases s.len(),
{
    if s.len() > 0 && s[0] == c {
        strip_start(s.drop_first(), c)
    } else {
        s
    }
}

pub open spec fn strip_end(s: Seq<char>, c: char) -> Seq<char>
    decreases s.len(),
{
    if s.len() > 0 && s.last() == c {
        strip_end(s.drop_last(), c)
    } else {
        s
    }
}

/// At most the first 48 characters.
pub open spec fn capped(s: Seq<char>) -> Seq<char> {
    if s.len() > 48 {
        s.take(48)
    } else {
        s
    }
}

/// The part of a volume name that comes from the (lowered) service name.
pub open spec fn volume_base(lower: Seq<char>) -> Seq<char> {
    let safe = lower.map_values(|c: char| label_char(c));
    strip_end(capped(strip_end(strip_start(collapsed(safe), '-'), '-')), '-')
}

/// The volume name for a service name that is in lower case.
pub open spec fn volume_name_of(lower: Seq<char>) -> Seq<char> {
    volume_base(lower) + "-disk"@
}

fn safe_chars(lower: &str) -> (r: Vec<char>)
    ensures
        r@ == collapsed(lower@.map_values(|c: char| label_char(c))),
{
    let cs = chars_of(lower);
    let ghost safe = lower@.map_values(|c: char| label_char(c));
    let mut out: Vec<char> = Vec::new();
    let mut prev_hyphen: bool = false;
    for i in 0..cs.len()
        invariant
            cs@ == lower@,
            safe == lower@.map_values(|c: char| label_char(c)),
            out@ == collapsed(safe.take(i as int)),
            prev_hyphen == (i > 0 && safe[i - 1] == '-'),
    {
        let c = if is_ascii_alnum(cs[i]) || cs[i] == '-' {
            cs[i]
        } else {
            '-'
        };
        assert(c == safe[i as int]);
        assert(safe.take(i + 1).drop_last() =~= safe.take(i as int));
        if c == '-' {
            if !prev_hyphen {
                out.push(c);
            }
            prev_hyphen = true;
        } else {
            out.push(c);
            prev_hyphen = false;
        }
    }
    assert(safe.take(safe.len() as int) =~= safe);
    out
}

/// The end of `cs[from..to]` without the hyphens before it.
fn end_without(cs: &Vec<char>, from: usize, to: usize, c: char) -> (r: usize)
    requires
        from <= to <= cs@.len(),
    ensures
        from <= r <= to,
        cs@.subrange(from as int, r as int) == strip_end(cs@.subrange(from as int, to as int), c),
{
    let mut end: usize = to;
    while end > from && cs[end - 1] == c
        invariant
            from <= end <= to <= cs@.len(),
            strip_end(cs@.subrange(from as int, end as int), c) == strip_end(
                cs@.subrange(from as int, to as int),
                c,
            ),
        decreases end,
    {
        assert(cs@.subrange(from as int, end as int).drop_last() =~= cs@.subrange(
            from as int,
            end - 1,
        ));
        end -= 1;
    }
    end
}

/// The volume name for a service name that is in lower case: characters that a
/// DNS label does not admit become hyphens, runs of hyphens collapse, hyphens
/// at the ends go, at most 48 characters stay, and `-disk` follows.
pub fn volume_name(lower: &str) -> (r: String)
    ensures
        r@ == volume_name_of(lower@),
{
    let cs = safe_chars(lower);
    let n: usize = cs.len();
    let mut from: usize = 0;
    assert(cs@.subrange(0, n as int) =~= cs@);
    while from < n && cs[from] == '-'
        invariant
            n == cs@.len(),
            from <= n,
            strip_start(cs@, '-') == strip_start(cs@.subrange(from as int, n as int), '-'),
        decreases n - from,
    {
        assert(cs@.subrange(from as int, n as int).drop_first() =~= cs@.subrange(
            from + 1,
            n as int,
        ));
        from += 1;
    }
    let end: usize = end_without(&cs, from, n, '-');
    let cut: usize = if end - from > 48 {
        from + 48
    } else {
        end
    };
    proof {
        let trimmed = cs@.subrange(from as int, end as int);
        assert(cs@.subrange(from as int, cut as int) =~= capped(trimmed));
    }
    let last: usize = end_without(&cs, from, cut, '-');
    let base = crate::text::string_of(&cs, from, last);
    cat2(base.as_str(), "-disk")
}

/// Derive the name of a service's volume from the name of the service. It is a
/// label, whatever the service is called.
pub fn derive_volume_name(service_name: &str) -> (r: String)
    ensures
        r@ == volume_name_of(lowercased(service_name@)),
        vstd::utf8::is_ascii_chars(service_name@) ==> r@ == volume_name_of(
            ascii_lower(service_name@),
        ),
        r@.len() <= 53,
        all_label_chars(r@),
{
    let lower = to_lowercase(service_name);
    proof {
        volume_name_is_a_label(lower@);
    }
    volume_name(lower.as_str())
}

/// Whether a character may stand in the name of a volume.
pub open spec fn is_label_char(c: char) -> bool {
    is_lower_char(c) || is_digit_char(c) || c == '-'
}

pub open spec fn all_label_chars(s: Seq<char>) -> bool {
    forall|i: int| 0 <= i < s.len() ==> is_label_char(#[trigger] s[i])
}

proof fn collapsed_keeps_chars(s: Seq<char>)
    requires
        all_label_chars(s),
    ensures
        all_label_chars(collapsed(s)),
    decreases s.len(),
{
    if s.len() > 0 {
        assert forall|i: int| 0 <= i < s.drop_last().len() implies is_label_char(
            #[trigger] s.drop_last()[i],
        ) by {
            assert(s[i] == s.drop_last()[i]);
        }
        collapsed_keeps_chars(s.drop_last());
        assert(is_label_char(s[s.len() - 1]));
    }
}

proof fn strip_start_keeps(s: Seq<char>, c: char)
    requires
        all_label_chars(s),
    ensures
        all_label_chars(strip_start(s, c)),
        strip_start(s, c).len() > 0 ==> strip_start(s, c)[0] != c,
    decreases s.len(),
{
    if s.len() > 0 && s[0] == c {
        assert forall|i: int| 0 <= i < s.drop_first().len() implies is_label_char(
            #[trigger] s.drop_first()[i],
        ) by {
            assert(s[i + 1] == s.drop_first()[i]);
        }
        strip_start_keeps(s.drop_first(), c);
    }
}

proof fn strip_end_keeps(s: Seq<char>, c: char)
    requires
        all_label_chars(s),
    ensures
        all_label_chars(strip_end(s, c)),
        strip_end(s, c).len() <= s.len(),
        strip_end(s, c).len() > 0 ==> strip_end(s, c).last() != c && strip_end(s, c)[0] == s[0],
    decreases s.len(),
{
    if s.len() > 0 && s.last() == c {
        assert forall|i: int| 0 <= i < s.drop_last().len() implies is_label_char(
            #[trigger] s.drop_last()[i],
        ) by {
            assert(s[i] == s.drop_last()[i]);
        }
        strip_end_keeps(s.drop_last(), c);
    }
}

/// A volume name holds at most 53 characters, all of them small letters,
/// digits or hyphens; and unless nothing of the service name is left it starts
/// and ends with a letter or a digit.
pub proof fn volume_name_is_a_label(lower: Seq<char>)
    requires
        forall|i: int| 0 <= i < lower.len() ==> !is_upper_char(#[trigger] lower[i]),
    ensures
        volume_name_of(lower).len() <= 53,
        all_label_chars(volume_name_of(lower)),
        volume_base(lower).len() > 0 ==> volume_name_of(lower)[0] != '-',
        volume_name_of(lower).last() == 'k',
{
    let safe = lower.map_values(|c: char| label_char(c));
    assert forall|i: int| 0 <= i < safe.len() implies is_label_char(#[trigger] safe[i]) by {
        assert(!is_upper_char(lower[i]));
    }
    collapsed_keeps_chars(safe);
    let a = collapsed(safe);
    strip_start_keeps(a, '-');
    let b = strip_start(a, '-');
    strip_end_keeps(b, '-');
    let c = strip_end(b, '-');
    let d = capped(c);
    assert forall|i: int| 0 <= i < d.len() implies is_label_char(#[trigger] d[i]) by {
        assert(d[i] == c[i]);
    }
    strip_end_keeps(d, '-');
    reveal_strlit("-disk");
    assert("-disk"@.len() == 5);
    let name = volume_name_of(lower);
    assert forall|i: int| 0 <= i < name.len() implies is_label_char(#[trigger] name[i]) by {
        if i < volume_base(lower).len() {
            assert(name[i] == volume_base(lower)[i]);
        } else {
            assert(name[i] == "-disk"@[i - volume_base(lower).len()]);
        }
    }
}

// ─── Creating the service ──────────────────────────────────────────────────

/// `field: message` of each check that fails, in order.
pub open spec fn failed_causes(c: PartiriConfig) -> Seq<Seq<char>> {
    checks_of(c).filter(|v: ValidationView| !v.ok).map_values(
        |v: ValidationView| v.field + ": "@ + v.message,
    )
}

/// `field: message` of each check of `config` that fails.
pub fn failed_checks(config: &PartiriConfig) -> (r: Vec<String>)
    ensures
        views(r@) == failed_causes(*config),
        r@.len() == 0 <==> is_valid(*config),
{
    let results = validate_config(config);
    let ghost all = checks_of(*config);
    let ghost bad = |v: ValidationView| !v.ok;
    let ghost shown = |v: ValidationView| v.field + ": "@ + v.message;
    let mut out: Vec<String> = Vec::new();
    assert(all.take(0).filter(bad) =~= seq![]) by {
        reveal(Seq::filter);
    }
    assert(views(out@) =~= all.take(0).filter(bad).map_values(shown));
    for i in 0..results.len()
        invariant
            all == checks_of(*config),
            outcomes(results@) == all,
            bad == (|v: ValidationView| !v.ok),
            shown == (|v: ValidationView| v.field + ": "@ + v.message),
            views(out@) == all.take(i as int).filter(bad).map_values(shown),
            out@.len() == 0 <==> forall|k: int| 0 <= k < i ==> (#[trigger] all[k]).ok,
    {
        let ghost before = all.take(i as int).filter(bad);
        proof {
            filter_take(all, i as int, bad);
            assert(all[i as int] == results@[i as int]@);
        }
        if !results[i].ok {
            out.push(cat3(results[i].field.as_str(), ": ", results[i].message.as_str()));
            proof {
                let now = before.push(all[i as int]);
                assert(now.map_values(shown) =~= before.map_values(shown).push(
                    shown(all[i as int]),
                ));
                assert(views(out@) =~= now.map_values(shown));
            }
        }
    }
    assert(all.take(all.len() as int) =~= all);
    out
}

/// The error for a configuration with failing checks: their list stands as
/// the likely causes.
pub open spec fn invalid_config_error(causes: Seq<Seq<char>>) -> CliErrorView {
    let e = hinted(
        bare("validation"@, "Config validation failed. Run 'partiri validate' for details."@),
        "Fix the listed fields, then retry. 'partiri llm next' suggests the next step."@,
    );
    enriched_of(CliErrorView { likely_causes: causes, ..e }, None)
}

/// The request that registers the service: refused where the configuration
/// already has an id, or where it fails a check.
pub fn run(config: &PartiriConfig) -> (r: Result<ApiRequest, Failure>)
    ensures
        r is Ok <==> config.id is None && is_valid(*config),
        r is Ok ==> r->Ok_0@ == with_body(
            Method::Post,
            "/services"@,
            JsonView::Obj(
                service_members(config.service).push(
                    ("fk_project"@, JsonView::Str(config.fk_project@)),
                ).push(("fk_workspace"@, JsonView::Str(config.fk_workspace@))),
            ),
        ),
        config.id matches Some(id) ==> r->Err_0@ == FailureView::Cli(
            validation_hint_of(
                "Service already created (id: "@ + id@ + ")."@,
                "Use 'partiri service push' to update it."@,
            ),
        ),
        config.id is None && !is_valid(*config) ==> r->Err_0@ == FailureView::Cli(
            invalid_config_error(failed_causes(*config)),
        ),
{
    match &config.id {
        Some(id) => {
            let message = cat3("Service already created (id: ", id.as_str(), ").");
            return Err(
                validation_error_with_hint(
                    message.as_str(),
                    "Use 'partiri service push' to update it.",
                ),
            );
        },
        None => {},
    }
    let causes = failed_checks(config);
    if causes.len() > 0 {
        let e = CliError::new(
            "validation",
            "Config validation failed. Run 'partiri validate' for details.",
        ).with_hint(
            "Fix the listed fields, then retry. 'partiri llm next' suggests the next step.",
        );
        let full = CliError {
            code: e.code,
            message: e.message,
            hint: e.hint,
            likely_causes: causes,
            suggested_commands: e.suggested_commands,
        };
        return Err(Failure::Cli(full.enriched(&ConfigOverride::none())));
    }
    Ok(
        ApiClient::create_service(
            &config.service,
            config.fk_project.as_str(),
            config.fk_workspace.as_str(),
        ),
    )
}

/// The configuration with the id that the API assigned.
pub fn with_assigned_id(config: PartiriConfig, service: &Service) -> (r: PartiriConfig)
    ensures
        r == (PartiriConfig { id: Some(service.id), ..config }),
{
    PartiriConfig {
        id: Some(service.id.clone()),
        deploy_tag: config.deploy_tag,
        fk_workspace: config.fk_workspace,
        fk_project: config.fk_project,
        service: config.service,
    }
}

/// The volume for the disk block of a service that was just created: bound to
/// the service, so that it attaches once it is provisioned.
pub fn disk_volume(config: &PartiriConfig, service_id: &str) -> (r: Option<Volume>)
    ensures
        r is Some <==> config.service.disk is Some,
        r is Some ==> {
            let v = r->0;
            let d = config.service.disk->0;
            &&& v.id is None
            &&& v.name@ == volume_name_of(lowercased(config.service.name@))
            &&& v.fk_project == config.fk_project
            &&& v.fk_workspace == config.fk_workspace
            &&& v.fk_region == config.service.fk_region
            &&& opt_view(v.fk_service) == Some(service_id@)
            &&& v.mount_path == d.mount_path
            &&& v.size == d.size
            &&& v.status@ == "pending"@
            &&& v.created_at is None
        },
{
    match &config.service.disk {
        Some(disk) => Some(
            Volume {
                id: None,
                name: derive_volume_name(config.service.name.as_str()),
                fk_project: config.fk_project.clone(),
                fk_workspace: config.fk_workspace.clone(),
                fk_region: config.service.fk_region.clone(),
                fk_service: Some(service_id.to_owned()),
                mount_path: disk.mount_path.clone(),
                size: disk.size,
                status: "pending".to_owned(),
                created_at: None,
            },
        ),
        None => None,
    }
}

/// The warning for a disk that could not be created; the service stays.
pub fn disk_warning(why: &str) -> (r: String)
    ensures
        r@ == "disk creation failed: "@ + why@ + ". Run 'partiri service push' to retry."@,
{
    cat3("disk creation failed: ", why, ". Run 'partiri service push' to retry.")
}

/// A monthly cost in euros, as its JSON number and as its text with four
/// decimals.
#[derive(Debug)]
pub struct Cost {
    pub number: String,
    pub shown: String,
}

pub open spec fn cost_json(cost: Option<Cost>) -> JsonView {
    match cost {
        Some(c) => JsonView::Num(c.number@),
        None => JsonView::Null,
    }
}

/// What is reported of a service that was created.
pub open spec fn created_view(service: Service, cost: Option<Cost>) -> ReportView {
    ReportView {
        message: "Service created — ID: "@ + service.id@,
        data: Some(
            JsonView::Obj(
                seq![
                    ("id"@, JsonView::Str(service.id@)),
                    ("external_sd_url"@, opt_string_view(opt_view(service.external_sd_url))),
                    ("monthly_cost_eur"@, cost_json(cost)),
                ],
            ),
        ),
        notes: (match service.external_sd_url {
            Some(url) => seq!["External URL: "@ + url@],
            None => seq![],
        }) + (match cost {
            Some(c) => seq!["Estimated monthly cost: €"@ + c.shown@],
            None => seq![],
        }) + seq!["Run 'partiri service deploy' to deploy."@],
    }
}

/// The report on a service that was created, with its estimated monthly cost
/// where prices could be had.
pub fn created_report(service: &Service, cost: &Option<Cost>) -> (r: Report)
    ensures
        r@ == created_view(*service, *cost),
{
    let number = match cost {
        Some(c) => Json::Num(c.number.clone()),
        None => Json::Null,
    };
    let data = Json::object().with("id", Json::str(service.id.as_str())).with(
        "external_sd_url",
        Json::opt(&service.external_sd_url),
    ).with("monthly_cost_eur", number);
    assert(data@->Obj_0 =~= created_view(*service, *cost).data->0->Obj_0);
    let mut notes: Vec<String> = Vec::new();
    match &service.external_sd_url {
        Some(url) => {
            notes.push(cat2("External URL: ", url.as_str()));
        },
        None => {},
    }
    match cost {
        Some(c) => {
            notes.push(cat2("Estimated monthly cost: €", c.shown.as_str()));
        },
        None => {},
    }
    notes.push("Run 'partiri service deploy' to deploy.".to_owned());
    let r = Report {
        message: cat2("Service created — ID: ", service.id.as_str()),
        data: Some(data),
        notes,
    };
    assert(r@.notes =~= created_view(*service, *cost).notes);
    r
}

} // verus!
