//! A JSON value model.
//!
//! Numbers are held as their canonical decimal text; object members are held
//! in ascending key order (code-point order), each key at most once, the way
//! an ordered JSON map keeps them.

use vstd::prelude::*;
use vstd::string::*;
use crate::support::text::{chars_of, decimal, str_eq, u64_to_decimal};

verus! {

/// A JSON value.
#[derive(Debug)]
pub enum Json {
    /// `null`.
    Null,
    /// `true` or `false`.
    Bool(bool),
    /// A number, as its canonical decimal text.
    Number(String),
    /// A string.
    Str(String),
    /// An array.
    Array(Vec<Json>),
    /// An object: members in ascending key order.
    Object(Vec<(String, Json)>),
}

/// The mathematical view of a JSON value.
pub enum JsonView {
    Null,
    Bool(bool),
    Number(Seq<char>),
    Str(Seq<char>),
    Array(Seq<JsonView>),
    Object(Seq<(Seq<char>, JsonView)>),
}

/// The view of a JSON value, built member by member.
pub open spec fn json_view(j: Json) -> JsonView
    decreases j,
{
    match j {
        Json::Null => JsonView::Null,
        Json::Bool(b) => JsonView::Bool(b),
        Json::Number(n) => JsonView::Number(n@),
        Json::Str(s) => JsonView::Str(s@),
        Json::Array(v) => JsonView::Array(
            Seq::new(
                v@.len(),
                |i: int|
                    if 0 <= i < v@.len() {
                        json_view(v@[i])
                    } else {
                        JsonView::Null
                    },
            ),
        ),
        Json::Object(v) => JsonView::Object(
            Seq::new(
                v@.len(),
                |i: int|
                    if 0 <= i < v@.len() {
                        (v@[i].0@, json_view(v@[i].1))
                    } else {
                        (Seq::empty(), JsonView::Null)
                    },
            ),
        ),
    }
}

impl View for Json {
    type V = JsonView;

    open spec fn view(&self) -> JsonView {
        json_view(*self)
    }
}

/// Code-point lexicographic order on keys.
pub open spec fn key_lt(a: Seq<char>, b: Seq<char>) -> bool
    decreases a.len(),
{
    if a.len() == 0 {
        b.len() > 0
    } else if b.len() == 0 {
        false
    } else if (a[0] as u32) < (b[0] as u32) {
        true
    } else if a[0] == b[0] {
        key_lt(a.drop_first(), b.drop_first())
    } else {
        false
    }
}

/// The members after setting `key` to `value`: the member with that key is
/// replaced in place, or a new member is placed at its position in key order.
pub open spec fn members_insert(
    es: Seq<(Seq<char>, JsonView)>,
    key: Seq<char>,
    value: JsonView,
) -> Seq<(Seq<char>, JsonView)>
    decreases es.len(),
{
    if es.len() == 0 {
        seq![(key, value)]
    } else if es[0].0 == key {
        es.update(0, (key, value))
    } else if key_lt(key, es[0].0) {
        seq![(key, value)] + es
    } else {
        seq![es[0]] + members_insert(es.drop_first(), key, value)
    }
}

/// The value of the first member with the given key.
pub open spec fn members_get(es: Seq<(Seq<char>, JsonView)>, key: Seq<char>) -> Option<JsonView>
    decreases es.len(),
{
    if es.len() == 0 {
        None
    } else if es[0].0 == key {
        Some(es[0].1)
    } else {
        members_get(es.drop_first(), key)
    }
}

/// `v[key]` for an object, `None` for anything else.
pub open spec fn json_get(v: JsonView, key: Seq<char>) -> Option<JsonView> {
    match v {
        JsonView::Object(es) => members_get(es, key),
        _ => None,
    }
}

/// The empty object `{}`.
pub open spec fn empty_object() -> JsonView {
    JsonView::Object(Seq::empty())
}

/// `{"type": t}`.
pub open spec fn type_schema(t: Seq<char>) -> JsonView {
    JsonView::Object(seq![("type"@, JsonView::Str(t))])
}

/// Exec key order.
pub fn key_less(a: &str, b: &str) -> (r: bool)
    ensures
        r == key_lt(a@, b@),
{
    let x = chars_of(a);
    let y = chars_of(b);
    let mut i: usize = 0;
    assert(a@.skip(0) =~= a@);
    assert(b@.skip(0) =~= b@);
    while i < x.len() && i < y.len()
        invariant
            i <= x.len(),
            i <= y.len(),
            x@ == a@,
            y@ == b@,
            key_lt(a@, b@) == key_lt(a@.skip(i as int), b@.skip(i as int)),
        decreases x.len() - i,
    {
        let ghost sa = a@.skip(i as int);
        let ghost sb = b@.skip(i as int);
        assert(sa[0] == x@[i as int]);
        assert(sb[0] == y@[i as int]);
        if (x[i] as u32) < (y[i] as u32) {
            return true;
        }
        if x[i] != y[i] {
            return false;
        }
        assert(sa.drop_first() =~= a@.skip(i + 1));
        assert(sb.drop_first() =~= b@.skip(i + 1));
        i = i + 1;
    }
    assert(a@.skip(i as int).len() == 0 || b@.skip(i as int).len() == 0);
    i >= x.len() && i < y.len()
}

/// The view of a list of object members.
pub open spec fn members_view(v: Seq<(String, Json)>) -> Seq<(Seq<char>, JsonView)> {
    Seq::new(v.len(), |i: int| (v[i].0@, json_view(v[i].1)))
}

/// Sets member `key` of a member list to `value`: the member with that key
/// is replaced in place, or a new member is placed at its position in key
/// order.
pub fn insert_member(es: Vec<(String, Json)>, key: String, value: Json) -> (r: Vec<(String, Json)>)
    ensures
        members_view(r@) == members_insert(members_view(es@), key@, value@),
{
    let ghost ev = members_view(es@);
    let n = es.len();
    let mut pending = es;
    let mut rest: Vec<(String, Json)> = Vec::new();
    while pending.len() > 0
        invariant
            pending@.len() + rest@.len() == n,
            n == ev.len(),
            members_view(pending@) == ev.subrange(0, pending@.len() as int),
            forall|k: int| 0 <= k < rest@.len() ==> (#[trigger] rest@[k]).0@ == ev[n - 1 - k].0 && json_view(rest@[k].1)
                == ev[n - 1 - k].1,
        decreases pending@.len(),
    {
        let ghost before = pending@;
        let e = pending.pop().unwrap();
        proof {
            assert(members_view(before)[before.len() - 1] == (e.0@, json_view(e.1)));
            assert(members_view(pending@) =~= members_view(before).drop_last());
        }
        rest.push(e);
    }
    let mut out: Vec<(String, Json)> = Vec::new();
    let mut slot: Option<(String, Json)> = Some((key, value));
    let ghost kv = (key@, value@);
    let mut i: usize = 0;
    proof {
        assert(ev.skip(0) =~= ev);
        assert(ev.take(0) =~= Seq::<(Seq<char>, JsonView)>::empty());
        assert(members_view(out@) =~= Seq::<(Seq<char>, JsonView)>::empty());
        assert(ev.take(0) + members_insert(ev.skip(0), kv.0, kv.1) =~= members_insert(ev, kv.0, kv.1));
    }
    while rest.len() > 0
        invariant
            n == ev.len(),
            i + rest@.len() == n,
            forall|k: int| 0 <= k < rest@.len() ==> (#[trigger] rest@[k]).0@ == ev[n - 1 - k].0 && json_view(rest@[k].1)
                == ev[n - 1 - k].1,
            slot matches Some(p) ==> p.0@ == kv.0 && json_view(p.1) == kv.1,
            slot is Some ==> members_view(out@) == ev.take(i as int) && members_insert(ev, kv.0, kv.1) == ev.take(
                i as int,
            ) + members_insert(ev.skip(i as int), kv.0, kv.1),
            slot is None ==> members_view(out@) + ev.skip(i as int) == members_insert(ev, kv.0, kv.1),
        decreases rest@.len(),
    {
        let e = rest.pop().unwrap();
        let ghost sk = ev.skip(i as int);
        assert(sk[0] == ev[i as int]);
        assert((e.0@, json_view(e.1)) == ev[i as int]);
        assert(sk.drop_first() =~= ev.skip(i + 1));
        let ghost before = out@;
        match slot {
            Some(p) => {
                if crate::support::text::str_eq(e.0.as_str(), p.0.as_str()) {
                    out.push(p);
                    slot = None;
                    proof {
                        assert(members_view(out@) =~= members_view(before).push(kv));
                        assert(members_insert(sk, kv.0, kv.1) == sk.update(0, kv));
                        assert(members_view(out@) + ev.skip(i + 1) =~= ev.take(i as int) + sk.update(0, kv));
                    }
                } else if key_less(p.0.as_str(), e.0.as_str()) {
                    out.push(p);
                    out.push(e);
                    slot = None;
                    proof {
                        assert(members_view(out@) =~= members_view(before).push(kv).push(ev[i as int]));
                        assert(members_insert(sk, kv.0, kv.1) == seq![kv] + sk);
                        assert(members_view(out@) + ev.skip(i + 1) =~= ev.take(i as int) + (seq![kv] + sk));
                    }
                } else {
                    out.push(e);
                    slot = Some(p);
                    proof {
                        assert(members_view(out@) =~= members_view(before).push(ev[i as int]));
                        assert(members_insert(sk, kv.0, kv.1) == seq![sk[0]] + members_insert(sk.drop_first(), kv.0, kv.1));
                        assert(ev.take(i as int).push(ev[i as int]) =~= ev.take(i + 1));
                        assert(ev.take(i as int) + (seq![ev[i as int]] + members_insert(ev.skip(i + 1), kv.0, kv.1)) =~= ev.take(i + 1) + members_insert(ev.skip(i + 1), kv.0, kv.1));
                    }
                }
            },
            None => {
                out.push(e);
                proof {
                    assert(members_view(out@) =~= members_view(before).push(ev[i as int]));
                    assert(members_view(out@) + ev.skip(i + 1) =~= members_view(before) + ev.skip(i as int));
                }
            },
        }
        i = i + 1;
    }
    match slot {
        Some(p) => {
            let ghost before = out@;
            out.push(p);
            proof {
                assert(ev.take(n as int) =~= ev);
                assert(ev.skip(n as int) =~= Seq::<(Seq<char>, JsonView)>::empty());
                assert(members_view(out@) =~= members_view(before).push(kv));
                assert(members_view(out@) =~= ev + seq![kv]);
            }
        },
        None => {
            proof {
                assert(ev.skip(n as int) =~= Seq::<(Seq<char>, JsonView)>::empty());
                assert(members_view(out@) + ev.skip(n as int) =~= members_view(out@));
            }
        },
    }
    out
}

/// The items of an array view.
pub open spec fn array_items(j: JsonView) -> Seq<JsonView> {
    match j {
        JsonView::Array(s) => s,
        _ => Seq::empty(),
    }
}

/// The members of an object view.
pub open spec fn object_members(j: JsonView) -> Seq<(Seq<char>, JsonView)> {
    match j {
        JsonView::Object(s) => s,
        _ => Seq::empty(),
    }
}

/// A value and its view have the same kind.
pub proof fn lemma_view_variant(j: Json)
    ensures
        j is Null <==> json_view(j) is Null,
        j is Bool <==> json_view(j) is Bool,
        j is Number <==> json_view(j) is Number,
        j is Str <==> json_view(j) is Str,
        j is Array <==> json_view(j) is Array,
        j is Object <==> json_view(j) is Object,
        j matches Json::Bool(b) ==> json_view(j) == JsonView::Bool(b),
        j matches Json::Number(n) ==> json_view(j) == JsonView::Number(n@),
        j matches Json::Str(x) ==> json_view(j) == JsonView::Str(x@),
{
}

/// The view of an array holds the views of its items.
pub proof fn lemma_array_view(j: Json)
    requires
        j is Array,
    ensures
        json_view(j) is Array,
        array_items(json_view(j)).len() == j->Array_0@.len(),
        forall|k: int|
            0 <= k < j->Array_0@.len() ==> #[trigger] array_items(json_view(j))[k] == json_view(
                j->Array_0@[k],
            ),
{
}

/// The view of an object holds its keys and the views of its values.
pub proof fn lemma_object_view(j: Json)
    requires
        j is Object,
    ensures
        json_view(j) is Object,
        object_members(json_view(j)).len() == j->Object_0@.len(),
        forall|k: int|
            0 <= k < j->Object_0@.len() ==> #[trigger] object_members(json_view(j))[k] == (
                j->Object_0@[k].0@,
                json_view(j->Object_0@[k].1),
            ),
{
}

impl Json {
    /// `null`.
    pub fn null() -> (r: Json)
        ensures
            r@ == JsonView::Null,
    {
        Json::Null
    }

    /// A string value.
    pub fn string(s: &str) -> (r: Json)
        ensures
            r@ == JsonView::Str(s@),
    {
        Json::Str(String::from_str(s))
    }

    /// A boolean value.
    pub fn boolean(b: bool) -> (r: Json)
        ensures
            r@ == JsonView::Bool(b),
    {
        Json::Bool(b)
    }

    /// A non-negative integer value.
    pub fn from_u64(n: u64) -> (r: Json)
        ensures
            r@ == JsonView::Number(decimal(n as nat)),
    {
        Json::Number(u64_to_decimal(n))
    }

    /// The empty object `{}`.
    pub fn empty_object() -> (r: Json)
        ensures
            r@ == empty_object(),
    {
        let v: Vec<(String, Json)> = Vec::new();
        let r = Json::Object(v);
        proof {
            lemma_object_view(r);
            assert(object_members(r@) =~= Seq::<(Seq<char>, JsonView)>::empty());
        }
        r
    }

    /// `{"type": t}`, the schema of one basic type.
    pub fn type_schema(t: &str) -> (r: Json)
        ensures
            r@ == type_schema(t@),
    {
        let mut v: Vec<(String, Json)> = Vec::new();
        v.push((String::from_str("type"), Json::Str(String::from_str(t))));
        let r = Json::Object(v);
        proof {
            lemma_object_view(r);
            assert(object_members(r@) =~= seq![("type"@, JsonView::Str(t@))]);
        }
        r
    }

    /// Whether this is the empty object `{}`.
    pub fn is_empty_object(&self) -> (r: bool)
        ensures
            r == (self@ == empty_object()),
    {
        match self {
            Json::Object(v) => {
                proof {
                    lemma_object_view(*self);
                    if v.len() == 0 {
                        assert(object_members(self@) =~= Seq::<(Seq<char>, JsonView)>::empty());
                    } else {
                        assert(object_members(self@).len() != 0);
                    }
                }
                v.len() == 0
            },
            _ => false,
        }
    }

    /// The boolean, if this is one.
    pub fn as_bool(&self) -> (r: Option<bool>)
        ensures
            r == (match self@ {
                JsonView::Bool(b) => Some(b),
                _ => None::<bool>,
            }),
    {
        match self {
            Json::Bool(b) => Some(*b),
            _ => None,
        }
    }

    /// The value of member `key`, for an object.
    pub fn get(&self, key: &str) -> (r: Option<&Json>)
        ensures
            r is Some <==> json_get(self@, key@) is Some,
            r matches Some(x) ==> json_get(self@, key@) == Some(x@),
    {
        match self {
            Json::Object(v) => {
                proof {
                    lemma_object_view(*self);
                }
                let ghost es = object_members(self@);
                assert(es.skip(0) =~= es);
                let mut i: usize = 0;
                while i < v.len()
                    invariant
                        i <= v.len(),
                        es.len() == v@.len(),
                        forall|k: int| 0 <= k < v@.len() ==> #[trigger] es[k] == (v@[k].0@, json_view(v@[k].1)),
                        members_get(es, key@) == members_get(es.skip(i as int), key@),
                        self@ == JsonView::Object(es),
                    decreases v.len() - i,
                {
                    let ghost rest = es.skip(i as int);
                    assert(rest[0] == es[i as int]);
                    if str_eq(v[i].0.as_str(), key) {
                        return Some(&v[i].1);
                    }
                    assert(rest.drop_first() =~= es.skip(i + 1));
                    i = i + 1;
                }
                None
            },
            _ => None,
        }
    }

    /// A deep copy.
    #[verifier::loop_isolation(false)]
    pub fn deep_clone(&self) -> (r: Json)
        ensures
            r@ == self@,
        decreases self,
    {
        match self {
            Json::Null => Json::Null,
            Json::Bool(b) => Json::Bool(*b),
            Json::Number(n) => Json::Number(n.clone()),
            Json::Str(s) => Json::Str(s.clone()),
            Json::Array(v) => {
                let mut out: Vec<Json> = Vec::new();
                let mut i: usize = 0;
                while i < v.len()
                    invariant
                        i <= v.len(),
                        out@.len() == i,
                        forall|k: int| 0 <= k < i ==> json_view(#[trigger] out@[k]) == json_view(v@[k]),
                    decreases v.len() - i,
                {
                    proof {
                        assert(decreases_to!(*self => *v));
                        assert(decreases_to!(*v => v@));
                        assert(decreases_to!(v@ => v@[i as int]));
                    }
                    let c = v[i].deep_clone();
                    out.push(c);
                    i = i + 1;
                }
                let r = Json::Array(out);
                proof {
                    lemma_array_view(r);
                    lemma_array_view(*self);
                    assert(array_items(r@) =~= array_items(self@));
                }
                r
            },
            Json::Object(v) => {
                let mut out: Vec<(String, Json)> = Vec::new();
                let mut i: usize = 0;
                while i < v.len()
                    invariant
                        i <= v.len(),
                        out@.len() == i,
                        forall|k: int| 0 <= k < i ==> (#[trigger] out@[k]).0@ == v@[k].0@ && json_view(out@[k].1) == json_view(v@[k].1),
                    decreases v.len() - i,
                {
                    proof {
                        assert(decreases_to!(*self => *v));
                        assert(decreases_to!(*v => v@));
                        assert(decreases_to!(v@ => v@[i as int]));
                        assert(decreases_to!(v@[i as int] => v@[i as int].1));
                    }
                    let c = v[i].1.deep_clone();
                    out.push((v[i].0.clone(), c));
                    i = i + 1;
                }
                let r = Json::Object(out);
                proof {
                    lemma_object_view(r);
                    lemma_object_view(*self);
                    assert(object_members(r@) =~= object_members(self@));
                }
                r
            },
        }
    }

    /// Structural equality (the equality of JSON values).
    #[verifier::loop_isolation(false)]
    pub fn equals(&self, other: &Json) -> (r: bool)
        ensures
            r == (self@ == other@),
        decreases self,
    {
        proof {
            lemma_view_variant(*self);
            lemma_view_variant(*other);
        }
        match self {
            Json::Null => match other {
                Json::Null => true,
                _ => false,
            },
            Json::Bool(x) => match other {
                Json::Bool(y) => *x == *y,
                _ => false,
            },
            Json::Number(x) => match other {
                Json::Number(y) => {
                    let r = str_eq(x.as_str(), y.as_str());
                    assert(r == (self@ == other@));
                    r
                },
                _ => false,
            },
            Json::Str(x) => match other {
                Json::Str(y) => {
                    let r = str_eq(x.as_str(), y.as_str());
                    assert(r == (self@ == other@));
                    r
                },
                _ => false,
            },
            Json::Array(xs) => match other {
                Json::Array(ys) => {
                    proof {
                        lemma_array_view(*self);
                        lemma_array_view(*other);
                    }
                    let ghost a = array_items(self@);
                    let ghost b = array_items(other@);
                    assert(self@ == JsonView::Array(a));
                    assert(other@ == JsonView::Array(b));
                    if xs.len() != ys.len() {
                        assert(a.len() != b.len());
                        return false;
                    }
                    let mut i: usize = 0;
                    while i < xs.len()
                        invariant
                            i <= xs.len(),
                            xs.len() == ys.len(),
                            a.len() == xs@.len(),
                            b.len() == ys@.len(),
                            forall|k: int| 0 <= k < xs@.len() ==> #[trigger] a[k] == json_view(xs@[k]),
                            forall|k: int| 0 <= k < ys@.len() ==> #[trigger] b[k] == json_view(ys@[k]),
                            forall|k: int| 0 <= k < i ==> a[k] == b[k],
                        decreases xs.len() - i,
                    {
                        proof {
                            assert(decreases_to!(*self => *xs));
                            assert(decreases_to!(*xs => xs@));
                            assert(decreases_to!(xs@ => xs@[i as int]));
                        }
                        if !xs[i].equals(&ys[i]) {
                            assert(a[i as int] != b[i as int]);
                            return false;
                        }
                        i = i + 1;
                    }
                    assert(a =~= b);
                    true
                },
                _ => false,
            },
            Json::Object(xs) => match other {
                Json::Object(ys) => {
                    proof {
                        lemma_object_view(*self);
                        lemma_object_view(*other);
                    }
                    let ghost a = object_members(self@);
                    let ghost b = object_members(other@);
                    assert(self@ == JsonView::Object(a));
                    assert(other@ == JsonView::Object(b));
                    if xs.len() != ys.len() {
                        assert(a.len() != b.len());
                        return false;
                    }
                    let mut i: usize = 0;
                    while i < xs.len()
                        invariant
                            i <= xs.len(),
                            xs.len() == ys.len(),
                            a.len() == xs@.len(),
                            b.len() == ys@.len(),
                            forall|k: int| 0 <= k < xs@.len() ==> #[trigger] a[k] == (xs@[k].0@, json_view(xs@[k].1)),
                            forall|k: int| 0 <= k < ys@.len() ==> #[trigger] b[k] == (ys@[k].0@, json_view(ys@[k].1)),
                            forall|k: int| 0 <= k < i ==> a[k] == b[k],
                        decreases xs.len() - i,
                    {
                        if !str_eq(xs[i].0.as_str(), ys[i].0.as_str()) {
                            assert(a[i as int].0 != b[i as int].0);
                            return false;
                        }
                        proof {
                            assert(decreases_to!(*self => *xs));
                            assert(decreases_to!(*xs => xs@));
                            assert(decreases_to!(xs@ => xs@[i as int]));
                            assert(decreases_to!(xs@[i as int] => xs@[i as int].1));
                        }
                        if !xs[i].1.equals(&ys[i].1) {
                            assert(a[i as int].1 != b[i as int].1);
                            return false;
                        }
                        i = i + 1;
                    }
                    assert(a =~= b);
                    true
                },
                _ => false,
            },
        }
    }
}

impl Clone for Json {
    fn clone(&self) -> (r: Self)
        ensures
            r@ == self@,
    {
        self.deep_clone()
    }
}

/// The compact text that `serde_json` prints for a value (the `Display` of
/// `serde_json::Value`: no white space, strings escaped, members in order).
pub uninterp spec fn json_text(v: JsonView) -> Seq<char>;

/// The `serde_json` value type, carried through opaquely.
#[verifier::external_type_specification]
#[verifier::external_body]
pub struct ExSerdeValue(serde_json::Value);

/// Builds the `serde_json::Value` with the same contents: the variant for
/// each variant, numbers parsed from their text by `serde_json::Number`'s
/// `FromStr` (the library's numbers are canonical decimal text). Nothing is
/// claimed of the result; it is only printed by `compact_text`.
#[verifier::external_body]
fn serde_value(j: &Json) -> serde_json::Value {
    match j {
        Json::Null => serde_json::Value::Null,
        Json::Bool(b) => serde_json::Value::Bool(*b),
        Json::Number(n) => n.parse::<serde_json::Number>().map_or(serde_json::Value::Null, serde_json::Value::Number),
        Json::Str(s) => serde_json::Value::String(s.clone()),
        Json::Array(v) => serde_json::Value::Array(v.iter().map(serde_value).collect()),
        Json::Object(m) => serde_json::Value::Object(m.iter().map(|(k, v)| (k.clone(), serde_value(v))).collect()),
    }
}

/// `serde_json::Value`'s `Display`, on the value `serde_value` builds.
/// Claims that the text is the named compact text of `j`'s view, a function
/// of the view alone; what that text is, is left to `serde_json`.
#[verifier::external_body]
pub fn compact_text(j: &Json) -> (s: String)
    ensures
        s@ == json_text(j@),
{
    serde_value(j).to_string()
}

/// The `serde_json` value with the same contents, for encoding a value on
/// the wire.
pub fn to_serde_value(j: &Json) -> serde_json::Value {
    serde_value(j)
}

} // verus!
