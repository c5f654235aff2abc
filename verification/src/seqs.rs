//! Facts about sequences that several modules use.
use vstd::prelude::*;

verus! {

/// The first index at or after `from` whose item satisfies `p`, or the length.
pub open spec fn first_where<T>(s: Seq<T>, p: spec_fn(T) -> bool, from: int) -> int
    decreases s.len() - from,
{
    if from >= s.len() {
        s.len() as int
    } else if p(s[from]) {
        from
    } else {
        first_where(s, p, from + 1)
    }
}

/// The first item that satisfies `p`.
pub open spec fn first_item<T>(s: Seq<T>, p: spec_fn(T) -> bool) -> Option<T> {
    if first_where(s, p, 0) < s.len() {
        Some(s[first_where(s, p, 0)])
    } else {
        None
    }
}

pub proof fn first_where_range<T>(s: Seq<T>, p: spec_fn(T) -> bool, from: int)
    requires
        0 <= from <= s.len(),
    ensures
        from <= first_where(s, p, from) <= s.len(),
        first_where(s, p, from) < s.len() ==> p(s[first_where(s, p, from)]),
        forall|k: int| from <= k < first_where(s, p, from) ==> !p(#[trigger] s[k]),
    decreases s.len() - from,
{
    if from < s.len() && !p(s[from]) {
        first_where_range(s, p, from + 1);
    }
}

/// Filtering one more item at the end.
pub proof fn filter_push<T>(s: Seq<T>, x: T, p: spec_fn(T) -> bool)
    ensures
        s.push(x).filter(p) == if p(x) {
            s.filter(p).push(x)
        } else {
            s.filter(p)
        },
{
    reveal(Seq::filter);
    assert(s.push(x).drop_last() =~= s);
}

/// Filtering a prefix that is one longer.
pub proof fn filter_take<T>(s: Seq<T>, i: int, p: spec_fn(T) -> bool)
    requires
        0 <= i < s.len(),
    ensures
        s.take(i + 1).filter(p) == if p(s[i]) {
            s.take(i).filter(p).push(s[i])
        } else {
            s.take(i).filter(p)
        },
{
    assert(s.take(i + 1) =~= s.take(i).push(s[i]));
    filter_push(s.take(i), s[i], p);
}

/// Filtering where one more item was put in, behind every other that satisfies
/// `p`.
pub proof fn filter_insert<T>(s: Seq<T>, at: int, x: T, p: spec_fn(T) -> bool)
    requires
        0 <= at <= s.len(),
        p(x) ==> forall|k: int| at <= k < s.len() ==> !p(#[trigger] s[k]),
    ensures
        s.insert(at, x).filter(p) == if p(x) {
            s.filter(p).push(x)
        } else {
            s.filter(p)
        },
{
    let a = s.take(at);
    let b = s.skip(at);
    assert(s =~= a + b);
    assert(s.insert(at, x) =~= a.push(x) + b);
    Seq::filter_distributes_over_add(a, b, p);
    Seq::filter_distributes_over_add(a.push(x), b, p);
    filter_push(a, x, p);
    if p(x) {
        assert forall|k: int| 0 <= k < b.len() implies !p(#[trigger] b[k]) by {
            assert(b[k] == s[at + k]);
        }
        filter_none(b, p);
    }
    assert(s.insert(at, x).filter(p) =~= if p(x) {
        s.filter(p).push(x)
    } else {
        s.filter(p)
    });
}

/// Filtering where no item satisfies `p`.
proof fn filter_none<T>(s: Seq<T>, p: spec_fn(T) -> bool)
    requires
        forall|k: int| 0 <= k < s.len() ==> !p(#[trigger] s[k]),
    ensures
        s.filter(p) == Seq::<T>::empty(),
    decreases s.len(),
{
    reveal(Seq::filter);
    if s.len() > 0 {
        filter_none(s.drop_last(), p);
    }
}

} // verus!
