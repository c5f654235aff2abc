//! JSON values, and the texts that they are read from and written to.
use vstd::prelude::*;
use vstd::string::*;

use crate::text::{decimal, decimal_of, opt_view, str_eq};

verus! {

/// A JSON value. A number is kept as its text; an object keeps its members in
/// the order in which they were put in.
#[derive(Debug)]
pub enum Json {
    Null,
    Bool(bool),
    Num(String),
    Str(String),
    Arr(Vec<Json>),
    Obj(Vec<Member>),
}

/// One member of a JSON object.
#[derive(Debug)]
pub struct Member {
    pub key: String,
    pub value: Json,
}

/// What a [`Json`] says.
pub ghost enum JsonView {
    Null,
    Bool(bool),
    Num(Seq<char>),
    Str(Seq<char>),
    Arr(Seq<JsonView>),
    Obj(Seq<(Seq<char>, JsonView)>),
}

pub open spec fn json_view(j: Json) -> JsonView
    decreases j,
{
    match j {
        Json::Null => JsonView::Null,
        Json::Bool(b) => JsonView::Bool(b),
        Json::Num(s) => JsonView::Num(s@),
        Json::Str(s) => JsonView::Str(s@),
        Json::Arr(items) => JsonView::Arr(
            Seq::new(
                items.len() as nat,
                |i: int|
                    if 0 <= i < items.len() {
                        json_view(items[i])
                    } else {
                        JsonView::Null
                    },
            ),
        ),
        Json::Obj(members) => JsonView::Obj(
            Seq::new(
                members.len() as nat,
                |i: int|
                    if 0 <= i < members.len() {
                        (members[i].key@, json_view(members[i].value))
                    } else {
                        (Seq::empty(), JsonView::Null)
                    },
            ),
        ),
    }
}

/// What the members of an object say.
pub open spec fn members_view(m: Seq<Member>) -> Seq<(Seq<char>, JsonView)> {
    m.map_values(|x: Member| (x.key@, json_view(x.value)))
}

/// What the items of an array say.
pub open spec fn items_view(v: Seq<Json>) -> Seq<JsonView> {
    v.map_values(|x: Json| json_view(x))
}

pub proof fn object_view(m: Vec<Member>)
    ensures
        json_view(Json::Obj(m)) == JsonView::Obj(members_view(m@)),
{
    assert(json_view(Json::Obj(m))->Obj_0 =~= members_view(m@));
}

pub proof fn array_view(v: Vec<Json>)
    ensures
        json_view(Json::Arr(v)) == JsonView::Arr(items_view(v@)),
{
    assert(json_view(Json::Arr(v))->Arr_0 =~= items_view(v@));
}

impl View for Json {
    type V = JsonView;

    open spec fn view(&self) -> JsonView {
        json_view(*self)
    }
}

/// The first position at or after `from` of a member named `key`, or the
/// number of members.
pub open spec fn member_index(m: Seq<(Seq<char>, JsonView)>, key: Seq<char>, from: int) -> int
    decreases m.len() - from,
{
    if from >= m.len() {
        m.len() as int
    } else if m[from].0 == key {
        from
    } else {
        member_index(m, key, from + 1)
    }
}

pub proof fn member_index_range(m: Seq<(Seq<char>, JsonView)>, key: Seq<char>, from: int)
    requires
        0 <= from <= m.len(),
    ensures
        from <= member_index(m, key, from) <= m.len(),
        member_index(m, key, from) < m.len() ==> m[member_index(m, key, from)].0 == key,
        forall|k: int| from <= k < member_index(m, key, from) ==> m[k].0 != key,
    decreases m.len() - from,
{
    if from < m.len() && m[from].0 != key {
        member_index_range(m, key, from + 1);
    }
}

/// The value of the member `key` of an object.
pub open spec fn member_of(j: JsonView, key: Seq<char>) -> Option<JsonView> {
    match j {
        JsonView::Obj(m) => if member_index(m, key, 0) < m.len() {
            Some(m[member_index(m, key, 0)].1)
        } else {
            None
        },
        _ => None,
    }
}

/// The text of a JSON string.
pub open spec fn string_of_json(j: JsonView) -> Option<Seq<char>> {
    match j {
        JsonView::Str(s) => Some(s),
        _ => None,
    }
}

/// The text of the member `key`, where it is a string.
pub open spec fn member_string(j: JsonView, key: Seq<char>) -> Option<Seq<char>> {
    match member_of(j, key) {
        Some(v) => string_of_json(v),
        None => None,
    }
}

/// `null` for an absent text, the string otherwise.
pub open spec fn opt_string_view(o: Option<Seq<char>>) -> JsonView {
    match o {
        Some(s) => JsonView::Str(s),
        None => JsonView::Null,
    }
}

/// The JSON array of some texts.
pub open spec fn strings_view(v: Seq<Seq<char>>) -> JsonView {
    JsonView::Arr(v.map_values(|s: Seq<char>| JsonView::Str(s)))
}

/// The first position of a member named `key`, or the number of members.
fn find_member(m: &Vec<Member>, key: &str) -> (r: usize)
    ensures
        r as int == member_index(members_view(m@), key@, 0),
        r <= m@.len(),
{
    let mut i: usize = 0;
    while i < m.len() && !str_eq(m[i].key.as_str(), key)
        invariant
            i <= m@.len(),
            member_index(members_view(m@), key@, 0) == member_index(
                members_view(m@),
                key@,
                i as int,
            ),
        decreases m@.len() - i,
    {
        i += 1;
    }
    i
}

impl Json {
    /// The empty object.
    pub fn object() -> (r: Json)
        ensures
            r@ == JsonView::Obj(Seq::empty()),
    {
        let m: Vec<Member> = Vec::new();
        proof {
            object_view(m);
            assert(members_view(m@) =~= Seq::empty());
        }
        Json::Obj(m)
    }

    /// The object with one more member at its end. A value that is no object
    /// stays as it is.
    pub fn with(self, key: &str, value: Json) -> (r: Json)
        ensures
            self@ matches JsonView::Obj(m) ==> r@ == JsonView::Obj(m.push((key@, value@))),
            !(self@ is Obj) ==> r == self,
    {
        match self {
            Json::Obj(members) => {
                let mut out = members;
                let ghost before = out@;
                proof {
                    object_view(out);
                }
                out.push(Member { key: key.to_owned(), value });
                proof {
                    object_view(out);
                    assert(members_view(out@) =~= members_view(before).push((key@, value@)));
                }
                Json::Obj(out)
            },
            other => other,
        }
    }

    /// A JSON string.
    pub fn str(s: &str) -> (r: Json)
        ensures
            r@ == JsonView::Str(s@),
    {
        Json::Str(s.to_owned())
    }

    /// A JSON string, or `null` where there is none.
    pub fn opt(o: &Option<String>) -> (r: Json)
        ensures
            r@ == opt_string_view(opt_view(*o)),
    {
        match o {
            Some(s) => Json::Str(s.clone()),
            None => Json::Null,
        }
    }

    /// A whole number.
    pub fn num(n: u64) -> (r: Json)
        ensures
            r@ == JsonView::Num(decimal_of(n as nat)),
    {
        Json::Num(decimal(n))
    }

    /// An array of strings.
    pub fn strings(v: &Vec<String>) -> (r: Json)
        ensures
            r@ == strings_view(crate::text::views(v@)),
    {
        let mut out: Vec<Json> = Vec::new();
        for i in 0..v.len()
            invariant
                out@.len() == i,
                forall|k: int| 0 <= k < i ==> json_view(#[trigger] out@[k]) == JsonView::Str(v@[k]@),
        {
            out.push(Json::Str(v[i].clone()));
        }
        proof {
            array_view(out);
            assert(items_view(out@) =~= strings_view(crate::text::views(v@))->Arr_0);
        }
        Json::Arr(out)
    }

    /// The value of the member `key`, where this is an object that has it.
    pub fn get(&self, key: &str) -> (r: Option<&Json>)
        ensures
            r is Some <==> member_of(self@, key@) is Some,
            r is Some ==> r->0@ == member_of(self@, key@)->0,
    {
        match self {
            Json::Obj(m) => {
                proof {
                    object_view(*m);
                }
                let i: usize = find_member(m, key);
                if i < m.len() {
                    Some(&m[i].value)
                } else {
                    None
                }
            },
            _ => None,
        }
    }

    /// The text of a JSON string.
    pub fn as_str(&self) -> (r: Option<&str>)
        ensures
            crate::text::opt_str_view(r) == string_of_json(self@),
    {
        match self {
            Json::Str(s) => Some(s.as_str()),
            _ => None,
        }
    }

    /// The text of the member `key`, where it is a string.
    pub fn get_str(&self, key: &str) -> (r: Option<&str>)
        ensures
            crate::text::opt_str_view(r) == member_string(self@, key@),
    {
        match self.get(key) {
            Some(v) => v.as_str(),
            None => None,
        }
    }
}

/// The value of an object with `key` set to `value`: in place where the member
/// is there, at the end where it is not.
pub open spec fn set_in(m: Seq<(Seq<char>, JsonView)>, key: Seq<char>, value: JsonView) -> Seq<
    (Seq<char>, JsonView),
> {
    let i = member_index(m, key, 0);
    if i < m.len() {
        m.update(i, (key, value))
    } else {
        m.push((key, value))
    }
}

/// Set the member `key`: in place where it is there, at the end where not.
pub fn set_member(m: &mut Vec<Member>, key: &str, value: Json)
    ensures
        members_view(final(m)@) == set_in(members_view(old(m)@), key@, value@),
{
    let i: usize = find_member(m, key);
    let ghost before = members_view(m@);
    let member = Member { key: key.to_owned(), value };
    if i < m.len() {
        m.set(i, member);
        assert(members_view(m@) =~= before.update(i as int, (key@, value@)));
    } else {
        m.push(member);
        assert(members_view(m@) =~= before.push((key@, value@)));
    }
}

/// Take the member `key` out of the list, where it is there.
pub fn take_member(m: &mut Vec<Member>, key: &str) -> (r: Option<Json>)
    ensures
        ({
            let before = members_view(old(m)@);
            let i = member_index(before, key@, 0);
            if i < before.len() {
                &&& r is Some
                &&& r->0@ == before[i].1
                &&& members_view(final(m)@) == before.remove(i)
            } else {
                r is None && final(m)@ == old(m)@
            }
        }),
{
    let i: usize = find_member(m, key);
    let ghost before = members_view(m@);
    if i < m.len() {
        let member = m.remove(i);
        assert(members_view(m@) =~= before.remove(i as int));
        Some(member.value)
    } else {
        None
    }
}

/// What is looked up is the value of the first member of that key.
pub proof fn first_member_is_found(m: Seq<(Seq<char>, JsonView)>, key: Seq<char>, i: int)
    requires
        0 <= i < m.len(),
        m[i].0 == key,
        forall|j: int| 0 <= j < i ==> (#[trigger] m[j]).0 != key,
    ensures
        member_of(JsonView::Obj(m), key) == Some(m[i].1),
{
    member_index_range(m, key, 0);
    let k = member_index(m, key, 0);
    if k < i {
        assert(m[k].0 == key);
    } else if k > i {
        assert(m[i].0 != key);
    }
}

/// Nothing is found under a key that no member has.
pub proof fn absent_member_is_not_found(m: Seq<(Seq<char>, JsonView)>, key: Seq<char>)
    requires
        forall|j: int| 0 <= j < m.len() ==> (#[trigger] m[j]).0 != key,
    ensures
        member_of(JsonView::Obj(m), key) is None,
{
    member_index_range(m, key, 0);
}

/// What is looked up in two lists of members one after the other is in the
/// first, or else in the second.
pub proof fn lookup_concat(
    a: Seq<(Seq<char>, JsonView)>,
    b: Seq<(Seq<char>, JsonView)>,
    key: Seq<char>,
)
    ensures
        member_of(JsonView::Obj(a + b), key) == match member_of(JsonView::Obj(a), key) {
            Some(v) => Some(v),
            None => member_of(JsonView::Obj(b), key),
        },
{
    member_index_range(a, key, 0);
    member_index_range(b, key, 0);
    let m = a + b;
    let i = member_index(a, key, 0);
    let j = member_index(b, key, 0);
    if i < a.len() {
        assert forall|k: int| 0 <= k < i implies (#[trigger] m[k]).0 != key by {
            assert(m[k] == a[k]);
        }
        first_member_is_found(m, key, i);
    } else if j < b.len() {
        assert forall|k: int| 0 <= k < a.len() + j implies (#[trigger] m[k]).0 != key by {
            if k < a.len() {
                assert(m[k] == a[k]);
            } else {
                assert(m[k] == b[k - a.len()]);
            }
        }
        first_member_is_found(m, key, a.len() + j);
    } else {
        assert forall|k: int| 0 <= k < m.len() implies (#[trigger] m[k]).0 != key by {
            if k < a.len() {
                assert(m[k] == a[k]);
            } else {
                assert(m[k] == b[k - a.len()]);
            }
        }
        absent_member_is_not_found(m, key);
    }
}

/// What is looked up where one member follows others.
pub proof fn lookup_push(
    a: Seq<(Seq<char>, JsonView)>,
    k: Seq<char>,
    v: JsonView,
    key: Seq<char>,
)
    ensures
        member_of(JsonView::Obj(a.push((k, v))), key) == match member_of(JsonView::Obj(a), key) {
            Some(x) => Some(x),
            None => if k == key {
                Some(v)
            } else {
                None
            },
        },
{
    let b = seq![(k, v)];
    assert(a.push((k, v)) =~= a + b);
    lookup_concat(a, b, key);
    if k == key {
        first_member_is_found(b, key, 0);
    } else {
        absent_member_is_not_found(b, key);
    }
}

/// Reading back what was set gives the value that was set.
pub proof fn set_then_get(m: Seq<(Seq<char>, JsonView)>, key: Seq<char>, value: JsonView)
    ensures
        member_of(JsonView::Obj(set_in(m, key, value)), key) == Some(value),
{
    let i = member_index(m, key, 0);
    member_index_range(m, key, 0);
    let after = set_in(m, key, value);
    member_index_range(after, key, 0);
    let j = member_index(after, key, 0);
    assert(after[i].0 == key);
    if j < i {
        assert(after[j].0 == m[j].0);
    }
}

/// Setting a member leaves every other member as it was.
pub proof fn set_keeps_the_others(
    m: Seq<(Seq<char>, JsonView)>,
    key: Seq<char>,
    value: JsonView,
    other: Seq<char>,
)
    requires
        other != key,
    ensures
        member_of(JsonView::Obj(set_in(m, key, value)), other) == member_of(
            JsonView::Obj(m),
            other,
        ),
{
    let after = set_in(m, key, value);
    member_index_range(m, key, 0);
    member_index_range(m, other, 0);
    member_index_range(after, other, 0);
    let i = member_index(m, key, 0);
    let a = member_index(m, other, 0);
    let b = member_index(after, other, 0);
    if a < m.len() {
        assert(after[a] == m[a]);
        if b < a {
            assert(after[b].0 == m[b].0);
        }
    } else if b < after.len() {
        if b < m.len() && b != i {
            assert(after[b] == m[b]);
        }
    }
}

// ─── JSON text ─────────────────────────────────────────────────────────────

#[verifier::external_type_specification]
#[verifier::external_body]
pub struct ExJsonValue(serde_json::Value);

/// The value that a JSON text stands for, as `serde_json::from_str` reads it;
/// none for a text that it refuses.
pub uninterp spec fn parsed_json(text: Seq<char>) -> Option<JsonView>;

/// The indented text of a value, as `serde_json::to_string_pretty` writes it;
/// none where a number is not the text of a JSON number.
pub uninterp spec fn pretty_json(j: JsonView) -> Option<Seq<char>>;

/// The library's form of a `serde_json::Value`, variant by variant.
#[verifier::external_body]
fn json_of_value(value: serde_json::Value) -> Json {
    match value {
        serde_json::Value::Null => Json::Null,
        serde_json::Value::Bool(b) => Json::Bool(b),
        serde_json::Value::Number(n) => Json::Num(n.to_string()),
        serde_json::Value::String(s) => Json::Str(s),
        serde_json::Value::Array(items) => Json::Arr(items.into_iter().map(json_of_value).collect()),
        serde_json::Value::Object(map) => Json::Obj(
            map.into_iter().map(|(key, v)| Member { key, value: json_of_value(v) }).collect(),
        ),
    }
}

/// The `serde_json::Value` of a library value, variant by variant.
#[verifier::external_body]
fn value_of_json(j: &Json) -> Result<serde_json::Value, serde_json::Error> {
    Ok(match j {
        Json::Null => serde_json::Value::Null,
        Json::Bool(b) => serde_json::Value::Bool(*b),
        Json::Num(n) => serde_json::Value::Number(n.parse()?),
        Json::Str(s) => serde_json::Value::String(s.clone()),
        Json::Arr(items) => items.iter().map(value_of_json).collect::<Result<_, _>>()?,
        Json::Obj(m) => m.iter().map(|x| Ok((x.key.clone(), value_of_json(&x.value)?))).collect::<
            Result<_, serde_json::Error>,
        >()?,
    })
}

/// `serde_json::from_str` into a `serde_json::Value`. Whether it reads the text
/// and what it makes of it depend on the characters of `text` alone.
#[verifier::external_body]
pub(crate) fn parse_json(text: &str) -> (r: Result<Json, serde_json::Error>)
    ensures
        r is Ok <==> parsed_json(text@) is Some,
        r is Ok ==> r->Ok_0@ == parsed_json(text@)->0,
{
    serde_json::from_str::<serde_json::Value>(text).map(json_of_value)
}

/// `serde_json::to_string_pretty` on the value. The text depends on the value
/// alone.
#[verifier::external_body]
pub(crate) fn write_pretty(j: &Json) -> (r: Result<String, serde_json::Error>)
    ensures
        r is Ok <==> pretty_json(j@) is Some,
        r is Ok ==> r->Ok_0@ == pretty_json(j@)->0,
{
    serde_json::to_string_pretty(&value_of_json(j)?)
}

} // verus!
