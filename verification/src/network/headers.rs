//! HTTP header lists, read from and written to CDP JSON.
use vstd::prelude::*;

use crate::json::{members_model, values_model, Json, JsonV};

verus! {

/// The model of a header list.
pub open spec fn pairs_view(h: Seq<(String, String)>) -> Seq<(Seq<char>, Seq<char>)> {
    Seq::new(h.len(), |i: int| (h[i].0@, h[i].1@))
}

/// No name occurs twice.
pub open spec fn names_distinct<V>(f: Seq<(Seq<char>, V)>) -> bool {
    forall|i: int, j: int| 0 <= i < f.len() && 0 <= j < f.len() && i != j ==> f[i].0 != f[j].0
}

/// Every member of the object holds a string.
pub open spec fn all_strings(f: Seq<(Seq<char>, JsonV)>) -> bool {
    forall|i: int| 0 <= i < f.len() ==> (#[trigger] f[i]).1 is Str
}

/// The headers that a JSON value gives when read as a map from strings to
/// strings: the members of an object whose members all hold strings, in
/// order; nothing for any other value.
pub open spec fn string_members(v: JsonV) -> Seq<(Seq<char>, Seq<char>)> {
    match v {
        JsonV::Object(f) => if all_strings(f) {
            Seq::new(f.len(), |i: int| (f[i].0, f[i].1->Str_0))
        } else {
            Seq::empty()
        },
        _ => Seq::empty(),
    }
}

/// The JSON header entries that CDP's Fetch domain takes: one
/// `{"name", "value"}` object per header, in order.
pub open spec fn header_entries(h: Seq<(Seq<char>, Seq<char>)>) -> JsonV {
    JsonV::Array(
        Seq::new(
            h.len(),
            |i: int|
                JsonV::Object(seq![("name"@, JsonV::Str(h[i].0)), ("value"@, JsonV::Str(h[i].1))]),
        ),
    )
}

/// The headers in a JSON value, read as a map from strings to strings.
pub fn headers_from(v: &Json) -> (r: Vec<(String, String)>)
    ensures
        pairs_view(r@) == string_members(v@),
        (v@ matches JsonV::Object(f) && names_distinct(f)) ==> names_distinct(pairs_view(r@)),
{
    let mut r: Vec<(String, String)> = Vec::new();
    match v {
        Json::Object(fields) => {
            let ghost f = v@->Object_0;
            proof {
                crate::json::lemma_object_model(*fields);
            }
            let mut i: usize = 0;
            while i < fields.len()
                invariant
                    0 <= i <= fields@.len(),
                    f == members_model(fields@),
                    v@ == JsonV::Object(f),
                    r@.len() == i,
                    forall|k: int| 0 <= k < i ==> (#[trigger] f[k]).1 is Str,
                    forall|k: int|
                        0 <= k < i ==> #[trigger] r@[k].0@ == f[k].0 && r@[k].1@ == f[k].1->Str_0,
                decreases fields@.len() - i,
            {
                assert(f[i as int] == (fields@[i as int].0@, fields@[i as int].1@));
                match &fields[i].1 {
                    Json::Str(s) => {
                        r.push((fields[i].0.clone(), s.clone()));
                    },
                    _ => {
                        assert(!(f[i as int].1 is Str));
                        assert(!all_strings(f));
                        let empty: Vec<(String, String)> = Vec::new();
                        assert(pairs_view(empty@) =~= string_members(v@));
                        return empty;
                    },
                }
                i = i + 1;
            }
            assert(pairs_view(r@) =~= string_members(v@));
        },
        _ => {
            assert(pairs_view(r@) =~= string_members(v@));
        },
    }
    r
}

/// The JSON header entries for a header list.
pub fn header_entries_json(h: &Vec<(String, String)>) -> (r: Json)
    ensures
        r@ == header_entries(pairs_view(h@)),
{
    let mut items: Vec<Json> = Vec::new();
    let mut i: usize = 0;
    while i < h.len()
        invariant
            0 <= i <= h@.len(),
            items@.len() == i,
            forall|k: int|
                0 <= k < i ==> (#[trigger] items@[k])@ == header_entries(pairs_view(h@))->Array_0[k],
        decreases h@.len() - i,
    {
        let entry = Json::object(
            vec![
                Json::member("name", Json::string(h[i].0.as_str())),
                Json::member("value", Json::string(h[i].1.as_str())),
            ],
        );
        assert(entry@->Object_0 =~= header_entries(pairs_view(h@))->Array_0[i as int]->Object_0);
        items.push(entry);
        i = i + 1;
    }
    let r = Json::array(items);
    assert(values_model(items@) =~= header_entries(pairs_view(h@))->Array_0);
    r
}

} // verus!
