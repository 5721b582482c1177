//! A JSON document model: the values that tool arguments, provider
//! payloads and MCP messages carry, with the accessors the agent reads them by.
//! Numbers keep their literal text.

use vstd::prelude::*;
use crate::text::{
    all_digits, chars_eq, chars_of, dec, digits_value, fmt_u64, owned, parse_digits_u64,
    parse_i64_text, signed_text_value,
};

verus! {

/// A JSON value. Object entries keep their order; keys are compared by text.
pub enum Json {
    Null,
    Bool(bool),
    Number(String),
    Str(String),
    Array(Vec<Json>),
    Object(Vec<(String, Json)>),
}

/// The mathematical form of a [`Json`] value.
#[verifier::ext_equal]
pub enum JsonView {
    Null,
    Bool(bool),
    Number(Seq<char>),
    Str(Seq<char>),
    Array(Seq<JsonView>),
    Object(Seq<(Seq<char>, JsonView)>),
}

/// The view of a [`Json`] value.
pub open spec fn jv(j: Json) -> JsonView
    decreases j,
{
    match j {
        Json::Null => JsonView::Null,
        Json::Bool(b) => JsonView::Bool(b),
        Json::Number(n) => JsonView::Number(n@),
        Json::Str(s) => JsonView::Str(s@),
        Json::Array(v) => JsonView::Array(Seq::new(v@.len(), |i: int| if 0 <= i < v@.len() { jv(v@[i]) } else { JsonView::Null })),
        Json::Object(v) => JsonView::Object(Seq::new(v@.len(), |i: int| if 0 <= i < v@.len() { (v@[i].0@, jv(v@[i].1)) } else { (Seq::empty(), JsonView::Null) })),
    }
}

impl View for Json {
    type V = JsonView;
    open spec fn view(&self) -> JsonView {
        jv(*self)
    }
}

/// A copy of a JSON value with the same view.
pub fn deep_copy(j: &Json) -> (r: Json)
    ensures r@ == j@,
    decreases j,
{
    match j {
        Json::Null => Json::Null,
        Json::Bool(b) => Json::Bool(*b),
        Json::Number(n) => Json::Number(n.clone()),
        Json::Str(s) => Json::Str(s.clone()),
        Json::Array(v) => {
            let mut out: Vec<Json> = Vec::new();
            let mut i: usize = 0;
            while i < v.len()
                invariant i <= v.len(), out@.len() == i, *j == Json::Array(*v),
                  forall|k: int| 0 <= k < i ==> jv(#[trigger] out@[k]) == jv(v@[k]),
                decreases v.len() - i,
            {
                proof {
                    assert(decreases_to!(*j => (*j)->Array_0));
                    assert(decreases_to!(*v => v@));
                    assert(decreases_to!(v@ => v@[i as int]));
                }
                let c = deep_copy(&v[i]);
                out.push(c);
                i += 1;
            }
            let r = Json::Array(out);
            proof { assert(jv(r)->Array_0 =~= jv(*j)->Array_0); }
            r
        }
        Json::Object(v) => {
            let mut out: Vec<(String, Json)> = Vec::new();
            let mut i: usize = 0;
            while i < v.len()
                invariant i <= v.len(), out@.len() == i, *j == Json::Object(*v),
                  forall|k: int| 0 <= k < i ==> (#[trigger] out@[k]).0@ == v@[k].0@ && jv(out@[k].1) == jv(v@[k].1),
                decreases v.len() - i,
            {
                proof {
                    assert(decreases_to!(*j => (*j)->Object_0));
                    assert(decreases_to!(*v => v@));
                    assert(decreases_to!(v@ => v@[i as int]));
                    assert(decreases_to!(v@[i as int] => v@[i as int].1));
                }
                let c = deep_copy(&v[i].1);
                out.push((v[i].0.clone(), c));
                i += 1;
            }
            let r = Json::Object(out);
            proof { assert(jv(r)->Object_0 =~= jv(*j)->Object_0); }
            r
        }
    }
}


/// The value stored under `key` in an entry list (the first entry with that key).
pub open spec fn lookup(entries: Seq<(Seq<char>, JsonView)>, key: Seq<char>) -> Option<JsonView>
    decreases entries.len(),
{
    if entries.len() == 0 {
        None
    } else if entries[0].0 == key {
        Some(entries[0].1)
    } else {
        lookup(entries.drop_first(), key)
    }
}

/// The member `key` of an object; `None` for a missing key or a non-object.
pub open spec fn field(v: JsonView, key: Seq<char>) -> Option<JsonView> {
    match v {
        JsonView::Object(e) => lookup(e, key),
        _ => None,
    }
}

/// `v.as_str()`.
pub open spec fn str_of(v: Option<JsonView>) -> Option<Seq<char>> {
    match v {
        Some(JsonView::Str(s)) => Some(s),
        _ => None,
    }
}

/// `v.as_bool()`.
pub open spec fn bool_of(v: Option<JsonView>) -> Option<bool> {
    match v {
        Some(JsonView::Bool(b)) => Some(b),
        _ => None,
    }
}

/// `v.as_u64()`: a number written with decimal digits alone that fits in a `u64`.
pub open spec fn u64_of(v: Option<JsonView>) -> Option<nat> {
    match v {
        Some(JsonView::Number(t)) => if t.len() > 0 && all_digits(t) && digits_value(t)
            <= u64::MAX {
            Some(digits_value(t))
        } else {
            None
        },
        _ => None,
    }
}

/// `v["key"].as_str()`.
pub open spec fn field_str(v: JsonView, key: Seq<char>) -> Option<Seq<char>> {
    str_of(field(v, key))
}

/// `v["key"].as_bool()`.
pub open spec fn field_bool(v: JsonView, key: Seq<char>) -> Option<bool> {
    bool_of(field(v, key))
}

/// `v["key"].as_u64()`.
pub open spec fn field_u64(v: JsonView, key: Seq<char>) -> Option<nat> {
    u64_of(field(v, key))
}

impl Json {
    /// The member `key` of an object (`None` when absent or not an object).
    pub fn get(&self, key: &str) -> (r: Option<&Json>)
        ensures
            match r {
                Some(x) => field(self@, key@) == Some(x@),
                None => field(self@, key@) is None,
            },
    {
        match self {
            Json::Object(v) => {
                let k = chars_of(key);
                let ghost e = jv(*self)->Object_0;
                let mut i: usize = 0;
                proof {
                    assert(e.skip(0) =~= e);
                }
                while i < v.len()
                    invariant
                        *self == Json::Object(*v),
                        e == jv(*self)->Object_0,
                        e.len() == v@.len(),
                        k@ == key@,
                        i <= v.len(),
                        lookup(e, key@) == lookup(e.skip(i as int), key@),
                    decreases v.len() - i,
                {
                    let name = chars_of(v[i].0.as_str());
                    proof {
                        assert(e.skip(i as int).drop_first() =~= e.skip(i + 1));
                        assert(e.skip(i as int)[0] == (v@[i as int].0@, jv(v@[i as int].1)));
                    }
                    if chars_eq(&name, &k) {
                        return Some(&v[i].1);
                    }
                    i += 1;
                }
                proof {
                    assert(e.skip(i as int).len() == 0);
                }
                None
            },
            _ => None,
        }
    }

    /// `self.as_str()`.
    pub fn as_str(&self) -> (r: Option<&str>)
        ensures
            match r {
                Some(s) => str_of(Some(self@)) == Some(s@),
                None => str_of(Some(self@)) is None,
            },
    {
        match self {
            Json::Str(s) => Some(s.as_str()),
            _ => None,
        }
    }

    /// `self.as_bool()`.
    pub fn as_bool(&self) -> (r: Option<bool>)
        ensures
            r == bool_of(Some(self@)),
    {
        match self {
            Json::Bool(b) => Some(*b),
            _ => None,
        }
    }

    /// `self.as_u64()`.
    pub fn as_u64(&self) -> (r: Option<u64>)
        ensures
            match r {
                Some(n) => u64_of(Some(self@)) == Some(n as nat),
                None => u64_of(Some(self@)) is None,
            },
    {
        match self {
            Json::Number(t) => {
                let cs = chars_of(t.as_str());
                proof {
                    assert(cs@.skip(0) =~= cs@);
                }
                parse_digits_u64(&cs, 0)
            },
            _ => None,
        }
    }
}

/// `args["key"].as_str()`.
pub fn get_str<'a>(args: &'a Json, key: &str) -> (r: Option<&'a str>)
    ensures
        match r {
            Some(s) => field_str(args@, key@) == Some(s@),
            None => field_str(args@, key@) is None,
        },
{
    match args.get(key) {
        Some(v) => v.as_str(),
        None => None,
    }
}

/// `args["key"].as_bool()`.
pub fn get_bool(args: &Json, key: &str) -> (r: Option<bool>)
    ensures
        r == field_bool(args@, key@),
{
    match args.get(key) {
        Some(v) => v.as_bool(),
        None => None,
    }
}

/// `args["key"].as_u64()`.
pub fn get_u64(args: &Json, key: &str) -> (r: Option<u64>)
    ensures
        match r {
            Some(n) => field_u64(args@, key@) == Some(n as nat),
            None => field_u64(args@, key@) is None,
        },
{
    match args.get(key) {
        Some(v) => v.as_u64(),
        None => None,
    }
}

/// `v.as_i64()`: a number written as decimal digits after an optional `-` that
/// fits in an `i64`.
pub open spec fn i64_of(v: Option<JsonView>) -> Option<int> {
    match v {
        Some(JsonView::Number(t)) => match signed_text_value(t) {
            Some(n) => if i64::MIN <= n <= i64::MAX {
                Some(n)
            } else {
                None
            },
            None => None,
        },
        _ => None,
    }
}

/// The views of an entry list.
pub open spec fn entries_view(v: Seq<(String, Json)>) -> Seq<(Seq<char>, JsonView)> {
    Seq::new(v.len(), |i: int| (v[i].0@, jv(v[i].1)))
}

/// The views of a list of values.
pub open spec fn values_view(v: Seq<Json>) -> Seq<JsonView> {
    Seq::new(v.len(), |i: int| jv(v[i]))
}

impl Json {
    /// `self.as_i64()`.
    pub fn as_i64(&self) -> (r: Option<i64>)
        ensures
            match r {
                Some(n) => i64_of(Some(self@)) == Some(n as int),
                None => i64_of(Some(self@)) is None,
            },
    {
        match self {
            Json::Number(t) => parse_i64_text(t.as_str()),
            _ => None,
        }
    }

    /// `self.as_array()`.
    pub fn as_array(&self) -> (r: Option<&Vec<Json>>)
        ensures
            match r {
                Some(v) => self@ == JsonView::Array(values_view(v@)),
                None => !(self@ is Array),
            },
    {
        match self {
            Json::Array(v) => {
                proof {
                    assert(jv(*self)->Array_0 =~= values_view(v@));
                }
                Some(v)
            },
            _ => None,
        }
    }

    /// A string value.
    pub fn string(s: &str) -> (r: Json)
        ensures
            r@ == JsonView::Str(s@),
    {
        Json::Str(owned(s))
    }

    /// A number value holding an unsigned integer.
    pub fn unsigned(n: u64) -> (r: Json)
        ensures
            r@ == JsonView::Number(dec(n as nat)),
    {
        Json::Number(fmt_u64(n))
    }

    /// An object with the given entries, in order.
    pub fn object(entries: Vec<(String, Json)>) -> (r: Json)
        ensures
            r@ == JsonView::Object(entries_view(entries@)),
    {
        let r = Json::Object(entries);
        proof {
            assert(jv(r)->Object_0 =~= entries_view(entries@));
        }
        r
    }

    /// An array with the given items, in order.
    pub fn array(items: Vec<Json>) -> (r: Json)
        ensures
            r@ == JsonView::Array(values_view(items@)),
    {
        let r = Json::Array(items);
        proof {
            assert(jv(r)->Array_0 =~= values_view(items@));
        }
        r
    }
}

/// The views of an optional value.
pub open spec fn opt_json(o: Option<Json>) -> Option<JsonView> {
    match o {
        Some(j) => Some(j@),
        None => None,
    }
}

/// An entry `key: value` of an object.
pub fn entry(key: &str, value: Json) -> (r: (String, Json))
    ensures
        r.0@ == key@,
        r.1 == value,
{
    (owned(key), value)
}

} // verus!
