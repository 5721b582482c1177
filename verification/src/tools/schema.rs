//! JSON-schema fragments for tool parameters.

use vstd::prelude::*;
use crate::json::{entries_view, entry, values_view, Json, JsonView};
use crate::text::views;

verus! {

/// A property with a type and a description.
pub open spec fn prop(ty: Seq<char>, description: Seq<char>) -> JsonView {
    JsonView::Object(seq![("type"@, JsonView::Str(ty)), ("description"@, JsonView::Str(description))])
}

/// A property with a type, a description and a default.
pub open spec fn prop_default(ty: Seq<char>, description: Seq<char>, default: JsonView) -> JsonView {
    JsonView::Object(
        seq![
            ("type"@, JsonView::Str(ty)),
            ("description"@, JsonView::Str(description)),
            ("default"@, default),
        ],
    )
}

/// The names as JSON strings.
pub open spec fn name_list(names: Seq<Seq<char>>) -> JsonView {
    JsonView::Array(Seq::new(names.len(), |i: int| JsonView::Str(names[i])))
}

/// An object schema with properties and required properties.
pub open spec fn object_schema(props: Seq<(Seq<char>, JsonView)>, required: Seq<Seq<char>>) -> JsonView {
    JsonView::Object(
        seq![
            ("type"@, JsonView::Str("object"@)),
            ("properties"@, JsonView::Object(props)),
            ("required"@, name_list(required)),
        ],
    )
}

/// An object schema with properties and no required list.
pub open spec fn open_schema(props: Seq<(Seq<char>, JsonView)>) -> JsonView {
    JsonView::Object(seq![("type"@, JsonView::Str("object"@)), ("properties"@, JsonView::Object(props))])
}

/// A property with a type and a description.
pub fn property(ty: &str, description: &str) -> (r: Json)
    ensures
        r@ == prop(ty@, description@),
{
    let mut e: Vec<(String, Json)> = Vec::new();
    e.push(entry("type", Json::string(ty)));
    e.push(entry("description", Json::string(description)));
    let r = Json::object(e);
    proof {
        assert(r@->Object_0 =~= prop(ty@, description@)->Object_0);
    }
    r
}

/// A property with a type, a description and a default.
pub fn property_with_default(ty: &str, description: &str, default: Json) -> (r: Json)
    ensures
        r@ == prop_default(ty@, description@, default@),
{
    let ghost dv = default@;
    let mut e: Vec<(String, Json)> = Vec::new();
    e.push(entry("type", Json::string(ty)));
    e.push(entry("description", Json::string(description)));
    e.push(entry("default", default));
    let r = Json::object(e);
    proof {
        assert(r@->Object_0 =~= prop_default(ty@, description@, dv)->Object_0);
    }
    r
}

/// The names as a JSON array of strings.
pub fn names_json(names: &Vec<String>) -> (r: Json)
    ensures
        r@ == name_list(views(names@)),
{
    let mut v: Vec<Json> = Vec::new();
    let mut i: usize = 0;
    while i < names.len()
        invariant
            i <= names@.len(),
            values_view(v@) == Seq::new(i as nat, |k: int| JsonView::Str(names@[k]@)),
        decreases names@.len() - i,
    {
        let ghost before = v@;
        let x = Json::string(names[i].as_str());
        let ghost xv = x@;
        v.push(x);
        proof {
            assert(values_view(v@) =~= values_view(before).push(xv));
            assert(values_view(v@) =~= Seq::new((i + 1) as nat, |k: int| JsonView::Str(names@[k]@)));
        }
        i += 1;
    }
    let r = Json::array(v);
    proof {
        assert(r@->Array_0 =~= name_list(views(names@))->Array_0);
    }
    r
}

/// An object schema.
pub fn schema(props: Vec<(String, Json)>, required: &Vec<String>) -> (r: Json)
    ensures
        r@ == object_schema(entries_view(props@), views(required@)),
{
    let mut e: Vec<(String, Json)> = Vec::new();
    e.push(entry("type", Json::string("object")));
    let ghost pv = entries_view(props@);
    e.push(entry("properties", Json::object(props)));
    e.push(entry("required", names_json(required)));
    let r = Json::object(e);
    proof {
        assert(r@->Object_0 =~= object_schema(pv, views(required@))->Object_0);
    }
    r
}

/// An object schema without a required list.
pub fn open_object(props: Vec<(String, Json)>) -> (r: Json)
    ensures
        r@ == open_schema(entries_view(props@)),
{
    let mut e: Vec<(String, Json)> = Vec::new();
    e.push(entry("type", Json::string("object")));
    let ghost pv = entries_view(props@);
    e.push(entry("properties", Json::object(props)));
    let r = Json::object(e);
    proof {
        assert(r@->Object_0 =~= open_schema(pv)->Object_0);
    }
    r
}

} // verus!
