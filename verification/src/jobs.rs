//! `partiri service jobs`: the jobs of a service, newest first.
use vstd::prelude::*;
use vstd::string::*;

use crate::client::{plain, ApiClient, ApiRequest, Job, Method};
use crate::config::{not_created, PartiriConfig};
use crate::error::Failure;
use crate::output::{Ctx, Listing};
use crate::seqs::{filter_insert, filter_push, first_where, first_where_range};
use crate::text::{
    byte_len, byte_len_concat, chars_of, clone_opt, comes_before, len_utf8, opt_view, string_of,
    text_lt, text_lt_irreflexive, text_lt_total, text_lt_transitive,
};

verus! {

/// The order of creation times: none comes first.
pub open spec fn time_lt(a: Option<Seq<char>>, b: Option<Seq<char>>) -> bool {
    match (a, b) {
        (None, None) => false,
        (None, Some(_)) => true,
        (Some(_), None) => false,
        (Some(x), Some(y)) => text_lt(x, y),
    }
}

/// Whether job `a` was created before job `b`.
pub open spec fn older(a: Job, b: Job) -> bool {
    time_lt(opt_view(a.created_at), opt_view(b.created_at))
}

pub open spec fn older_than(b: Job) -> spec_fn(Job) -> bool {
    |a: Job| older(a, b)
}

/// A job put before the first older one.
pub open spec fn with_job(s: Seq<Job>, job: Job) -> Seq<Job> {
    s.insert(first_where(s, older_than(job), 0), job)
}

/// The jobs with the newest first; jobs of the same time keep their order.
pub open spec fn newest_first(s: Seq<Job>) -> Seq<Job>
    decreases s.len(),
{
    if s.len() == 0 {
        s
    } else {
        with_job(newest_first(s.drop_last()), s.last())
    }
}

fn is_older(a: &Job, b: &Job) -> (r: bool)
    ensures
        r == older(*a, *b),
{
    match (&a.created_at, &b.created_at) {
        (None, None) => false,
        (None, Some(_)) => true,
        (Some(_), None) => false,
        (Some(x), Some(y)) => comes_before(x.as_str(), y.as_str()),
    }
}

/// Sort jobs by creation time, newest first.
pub fn sort_newest_first(jobs: Vec<Job>) -> (r: Vec<Job>)
    ensures
        r@ == newest_first(jobs@),
{
    let ghost all = jobs@;
    let mut rest = jobs;
    let mut out: Vec<Job> = Vec::new();
    assert(all.take(0) =~= out@);
    assert(all.skip(0) =~= all);
    while rest.len() > 0
        invariant
            rest@.len() <= all.len(),
            rest@ == all.skip(all.len() - rest@.len()),
            out@ == newest_first(all.take(all.len() - rest@.len())),
            out@.len() == all.len() - rest@.len(),
        decreases rest@.len(),
    {
        let ghost done = all.len() - rest@.len();
        let ghost before = out@;
        let job = rest.remove(0);
        let ghost p = older_than(job);
        let mut i: usize = 0;
        while i < out.len() && !is_older(&out[i], &job)
            invariant
                out@ == before,
                p == older_than(job),
                i <= out@.len(),
                first_where(before, p, 0) == first_where(before, p, i as int),
            decreases out@.len() - i,
        {
            assert(!p(before[i as int]));
            i += 1;
        }
        proof {
            if i < before.len() {
                assert(p(before[i as int]));
            }
            assert(job == all[done]);
            assert(all.take(done + 1).drop_last() =~= all.take(done));
            assert(rest@ =~= all.skip(done + 1));
        }
        out.insert(i, job);
    }
    assert(all.take(all.len() as int) =~= all);
    out
}

/// The first seven bytes of a deploy reference, where they end between two
/// characters; all of it otherwise.
pub open spec fn short_ref_of(s: Seq<char>) -> Seq<char> {
    if exists|k: int| 0 <= k <= s.len() && byte_len(#[trigger] s.take(k)) == 7 {
        s.take(choose|k: int| 0 <= k <= s.len() && byte_len(#[trigger] s.take(k)) == 7)
    } else {
        s
    }
}

proof fn byte_len_grows(s: Seq<char>, a: int, b: int)
    requires
        0 <= a < b <= s.len(),
    ensures
        byte_len(s.take(a)) < byte_len(s.take(b)),
{
    assert(s.take(b) =~= s.take(a) + s.subrange(a, b));
    byte_len_concat(s.take(a), s.subrange(a, b));
    let mid = s.subrange(a, b);
    assert(byte_len(mid) >= 1);
}

pub fn short_ref(s: &str) -> (r: String)
    ensures
        r@ == short_ref_of(s@),
{
    let cs = chars_of(s);
    let mut used: usize = 0;
    let mut i: usize = 0;
    assert(s@.take(0) =~= Seq::<char>::empty());
    while i < cs.len() && used < 7
        invariant
            cs@ == s@,
            i <= cs@.len(),
            used == byte_len(s@.take(i as int)),
            used <= 10,
            forall|k: int| 0 <= k < i ==> byte_len(#[trigger] s@.take(k)) < 7,
        decreases cs@.len() - i,
    {
        assert(s@.take(i + 1).drop_last() =~= s@.take(i as int));
        used += len_utf8(cs[i]);
        i += 1;
    }
    proof {
        assert forall|k: int| i < k <= s@.len() implies byte_len(#[trigger] s@.take(k)) > used by {
            byte_len_grows(s@, i as int, k);
        }
    }
    if used == 7 {
        let r = string_of(&cs, 0, i);
        proof {
            assert(byte_len(s@.take(i as int)) == 7);
            let k = choose|k: int| 0 <= k <= s@.len() && byte_len(#[trigger] s@.take(k)) == 7;
            assert(k == i);
            assert(s@.subrange(0, i as int) =~= s@.take(i as int));
        }
        r
    } else {
        s.to_owned()
    }
}

/// A row of the table of jobs. The creation time is as the API gave it.
#[derive(Debug)]
pub struct JobRow {
    pub job_type: String,
    pub deploy_ref: String,
    pub status: String,
    pub created_at: Option<String>,
}

pub open spec fn is_job_row(row: JobRow, job: Job) -> bool {
    &&& row.job_type == job.job_type
    &&& row.deploy_ref@ == match job.deploy_ref {
        Some(d) => short_ref_of(d@),
        None => "—"@,
    }
    &&& row.status == job.status
    &&& row.created_at == job.created_at
}

fn job_row(job: &Job) -> (r: JobRow)
    ensures
        is_job_row(r, *job),
{
    JobRow {
        job_type: job.job_type.clone(),
        deploy_ref: match &job.deploy_ref {
            Some(d) => short_ref(d.as_str()),
            None => "—".to_owned(),
        },
        status: job.status.clone(),
        created_at: clone_opt(&job.created_at),
    }
}

/// How many jobs are listed: all in JSON mode, at most five in a table.
pub open spec fn listed(n: nat, json: bool) -> nat {
    if json || n < 5 {
        n
    } else {
        5
    }
}

/// The request for the jobs of the service.
pub fn jobs_request(config: &PartiriConfig) -> (r: Result<ApiRequest, Failure>)
    ensures
        r is Ok <==> config.id is Some,
        r is Ok ==> r->Ok_0@ == plain(Method::Get, "/jobs/services/"@ + config.id->0@),
        r is Err ==> r->Err_0@ == not_created(),
{
    match config.id_or_err() {
        Ok(id) => Ok(ApiClient::list_service_jobs(id)),
        Err(e) => Err(e),
    }
}

/// The listing of the jobs of a service.
pub fn run_list(jobs: Vec<Job>, ctx: Ctx) -> (r: Listing<JobRow>)
    ensures
        jobs@.len() == 0 && !ctx.json ==> r is Message && r->Message_0@
            == "No jobs found for this service."@,
        jobs@.len() > 0 || ctx.json ==> {
            &&& r is Rows
            &&& r->Rows_0@.len() == listed(jobs@.len(), ctx.json)
            &&& forall|i: int|
                0 <= i < r->Rows_0@.len() ==> is_job_row(
                    #[trigger] r->Rows_0@[i],
                    newest_first(jobs@)[i],
                )
        },
{
    let ghost n = jobs@.len();
    proof {
        newest_first_is_a_permutation(jobs@);
    }
    let sorted = sort_newest_first(jobs);
    let count: usize = if ctx.json || sorted.len() < 5 {
        sorted.len()
    } else {
        5
    };
    let mut rows: Vec<JobRow> = Vec::new();
    for i in 0..count
        invariant
            count <= sorted@.len(),
            rows@.len() == i,
            forall|k: int| 0 <= k < i ==> is_job_row(#[trigger] rows@[k], sorted@[k]),
    {
        rows.push(job_row(&sorted[i]));
    }
    if rows.len() == 0 && !ctx.json {
        return Listing::Message("No jobs found for this service.".to_owned());
    }
    Listing::Rows(rows)
}

// ─── Laws ──────────────────────────────────────────────────────────────────

/// Sorting neither drops nor repeats a job.
pub proof fn newest_first_is_a_permutation(s: Seq<Job>)
    ensures
        newest_first(s).len() == s.len(),
        newest_first(s).to_multiset() =~= s.to_multiset(),
    decreases s.len(),
{
    broadcast use vstd::seq_lib::group_to_multiset_ensures;

    if s.len() > 0 {
        let front = newest_first(s.drop_last());
        newest_first_is_a_permutation(s.drop_last());
        let i = first_where(front, older_than(s.last()), 0);
        first_where_range(front, older_than(s.last()), 0);
        let out = front.insert(i, s.last());
        assert(s.drop_last().push(s.last()) =~= s);
        assert(out =~= front.take(i).push(s.last()) + front.skip(i));
        assert(front =~= front.take(i) + front.skip(i));
        vstd::seq_lib::lemma_multiset_commutative(front.take(i).push(s.last()), front.skip(i));
        vstd::seq_lib::lemma_multiset_commutative(front.take(i), front.skip(i));
    }
}

/// No job stands before a newer one.
pub proof fn newest_first_is_sorted(s: Seq<Job>)
    ensures
        forall|i: int, j: int|
            0 <= i < j < newest_first(s).len() ==> !#[trigger] older(
                newest_first(s)[i],
                newest_first(s)[j],
            ),
    decreases s.len(),
{
    if s.len() > 0 {
        let front = newest_first(s.drop_last());
        let x = s.last();
        newest_first_is_sorted(s.drop_last());
        let p = older_than(x);
        let at = first_where(front, p, 0);
        first_where_range(front, p, 0);
        let out = newest_first(s);
        assert forall|i: int, j: int| 0 <= i < j < out.len() implies !#[trigger] older(
            out[i],
            out[j],
        ) by {
            if j < at {
                assert(out[i] == front[i] && out[j] == front[j]);
            } else if j == at {
                assert(out[i] == front[i]);
                assert(!p(front[i]));
            } else if i < at {
                assert(out[i] == front[i] && out[j] == front[j - 1]);
            } else if i == at {
                assert(out[j] == front[j - 1]);
                assert(p(front[at]));
                if older(x, front[j - 1]) {
                    older_is_transitive(front[at], x, front[j - 1]);
                    if j - 1 == at {
                        older_is_irreflexive(front[at]);
                    }
                }
            } else {
                assert(out[i] == front[i - 1] && out[j] == front[j - 1]);
            }
        }
    }
}

pub open spec fn created_at(t: Option<Seq<char>>) -> spec_fn(Job) -> bool {
    |j: Job| opt_view(j.created_at) == t
}

/// Jobs of the same time, or without one, keep the order that they came in.
pub proof fn newest_first_keeps_ties(s: Seq<Job>, t: Option<Seq<char>>)
    ensures
        newest_first(s).filter(created_at(t)) == s.filter(created_at(t)),
    decreases s.len(),
{
    if s.len() > 0 {
        let front = newest_first(s.drop_last());
        let x = s.last();
        let tie = created_at(t);
        newest_first_keeps_ties(s.drop_last(), t);
        newest_first_is_sorted(s.drop_last());
        let p = older_than(x);
        let at = first_where(front, p, 0);
        first_where_range(front, p, 0);
        assert forall|k: int| tie(x) && at <= k < front.len() implies !tie(#[trigger] front[k]) by {
            assert(p(front[at]));
            if k > at {
                assert(!older(front[at], front[k]));
                older_is_weak(front[at], front[k], x);
            }
            if tie(front[k]) {
                older_is_irreflexive(x);
            }
        }
        filter_insert(front, at, x, tie);
        assert(s =~= s.drop_last().push(x));
        filter_push(s.drop_last(), x, tie);
    }
}

/// A job that is older than another is older than a third, or the third is
/// older than the other.
proof fn older_is_weak(a: Job, b: Job, c: Job)
    requires
        older(a, c),
    ensures
        older(a, b) || older(b, c),
{
    if a.created_at is Some && b.created_at is Some && !older(a, b) {
        text_lt_total(a.created_at->0@, b.created_at->0@);
        if text_lt(b.created_at->0@, a.created_at->0@) {
            text_lt_transitive(b.created_at->0@, a.created_at->0@, c.created_at->0@);
        }
    }
}

proof fn older_is_transitive(a: Job, b: Job, c: Job)
    requires
        older(a, b),
        older(b, c),
    ensures
        older(a, c),
{
    if a.created_at is Some {
        text_lt_transitive(a.created_at->0@, b.created_at->0@, c.created_at->0@);
    }
}

proof fn older_is_irreflexive(a: Job)
    ensures
        !older(a, a),
{
    if a.created_at is Some {
        text_lt_irreflexive(a.created_at->0@);
    }
}

} // verus!
