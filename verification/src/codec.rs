//! Shared pieces of the JSON codecs.
//!
//! Every record type in this crate encodes to an object whose fields stand
//! in a fixed order, with absent optional fields omitted, and decodes from
//! an object whose fields may stand in any order. The spec functions here
//! say what one field contributes to either direction; the exec functions
//! are their verified counterparts.

use vstd::prelude::*;

use crate::json::{get_field, jv_get, obj_view, Json, Jv};

verus! {

broadcast use vstd::std_specs::vec::group_vec_axioms, vstd::seq::group_seq_axioms, vstd::string::group_string_axioms;

/// The characters of a JSON string node.
pub open spec fn str_of_jv(j: Jv) -> Option<Seq<char>> {
    match j {
        Jv::Str(s) => Some(s),
        _ => None,
    }
}

/// The value of a JSON boolean node.
pub open spec fn bool_of_jv(j: Jv) -> Option<bool> {
    match j {
        Jv::Bool(b) => Some(b),
        _ => None,
    }
}

/// The value of a JSON integer node, when it fits in 64 bits.
pub open spec fn i64_of_jv(j: Jv) -> Option<i64> {
    match j {
        Jv::Int(n) => if i64::MIN <= n <= i64::MAX {
            Some(n as i64)
        } else {
            None
        },
        _ => None,
    }
}

/// A required field: it must be present and decode.
pub open spec fn req_field<X>(
    fs: Seq<(Seq<char>, Jv)>,
    key: Seq<char>,
    f: spec_fn(Jv) -> Option<X>,
) -> Option<X> {
    match jv_get(fs, key) {
        Some(j) => f(j),
        None => None,
    }
}

/// An optional field: absent is fine, a present field must decode.
pub open spec fn opt_field<X>(
    fs: Seq<(Seq<char>, Jv)>,
    key: Seq<char>,
    f: spec_fn(Jv) -> Option<X>,
) -> Option<Option<X>> {
    match jv_get(fs, key) {
        None => Some(None),
        Some(j) => match f(j) {
            Some(x) => Some(Some(x)),
            None => None,
        },
    }
}

/// A required string field.
pub open spec fn req_str(fs: Seq<(Seq<char>, Jv)>, key: Seq<char>) -> Option<Seq<char>> {
    req_field(fs, key, |x: Jv| str_of_jv(x))
}

/// An optional string field.
pub open spec fn opt_str(fs: Seq<(Seq<char>, Jv)>, key: Seq<char>) -> Option<Option<Seq<char>>> {
    opt_field(fs, key, |x: Jv| str_of_jv(x))
}

/// One field of an encoded object.
pub open spec fn entry(key: Seq<char>, v: Jv) -> Seq<(Seq<char>, Jv)> {
    seq![(key, v)]
}

/// An optional field of an encoded object: nothing when the value is absent.
pub open spec fn opt_entry<X>(key: Seq<char>, x: Option<X>, f: spec_fn(X) -> Jv) -> Seq<
    (Seq<char>, Jv),
> {
    match x {
        Some(v) => seq![(key, f(v))],
        None => seq![],
    }
}

/// An optional string field of an encoded object.
pub open spec fn opt_str_entry(key: Seq<char>, x: Option<Seq<char>>) -> Seq<(Seq<char>, Jv)> {
    match x {
        Some(s) => seq![(key, Jv::Str(s))],
        None => seq![],
    }
}

/// A list field that defaults to empty when absent.
pub open spec fn dft_field<X>(
    fs: Seq<(Seq<char>, Jv)>,
    key: Seq<char>,
    f: spec_fn(Jv) -> Option<Seq<X>>,
) -> Option<Seq<X>> {
    match jv_get(fs, key) {
        None => Some(Seq::empty()),
        Some(j) => f(j),
    }
}

/// The strings of an encoded string list.
pub open spec fn strings_jv(items: Seq<Seq<char>>) -> Seq<Jv> {
    Seq::new(items.len(), |i: int| Jv::Str(items[i]))
}

/// Whether every item of a JSON list is a string.
pub open spec fn strings_of_jv_ok(items: Seq<Jv>) -> bool {
    forall|i: int| 0 <= i < items.len() ==> (#[trigger] str_of_jv(items[i])) is Some
}

/// The strings of a decoded string list: every item must be a string.
pub open spec fn strings_of_jv(items: Seq<Jv>) -> Option<Seq<Seq<char>>> {
    if strings_of_jv_ok(items) {
        Some(Seq::new(items.len(), |i: int| str_of_jv(items[i])->Some_0))
    } else {
        None
    }
}

/// A decoded list-of-strings node.
pub open spec fn strings_arr_of_jv(j: Jv) -> Option<Seq<Seq<char>>> {
    match j {
        Jv::Arr(items) => strings_of_jv(items),
        _ => None,
    }
}

/// A string list decodes back to the strings it was encoded from.
pub proof fn lemma_strings_round_trip(items: Seq<Seq<char>>)
    ensures
        strings_of_jv(strings_jv(items)) == Some(items),
{
    let js = strings_jv(items);
    assert forall|i: int| 0 <= i < js.len() implies (#[trigger] str_of_jv(js[i])) is Some by {
        assert(js[i] == Jv::Str(items[i]));
    }
    assert(Seq::new(js.len(), |i: int| str_of_jv(js[i])->Some_0) =~= items);
}

/// Append one field to an object under construction.
pub fn push_field(fs: &mut Vec<(String, Json)>, key: &str, j: Json)
    ensures
        obj_view(final(fs)@) == obj_view(old(fs)@) + entry(key@, j@),
{
    fs.push((String::from_str(key), j));
    assert(obj_view(fs@) =~= obj_view(old(fs)@) + entry(key@, j@));
}

/// Decode a JSON string node.
pub fn decode_string(j: &Json) -> (r: Option<String>)
    ensures
        r matches Some(s) ==> str_of_jv(j@) == Some(s@),
        r is None ==> str_of_jv(j@) is None,
{
    match j {
        Json::Str(s) => Some(s.clone()),
        _ => None,
    }
}

/// Decode a JSON boolean node.
pub fn decode_bool(j: &Json) -> (r: Option<bool>)
    ensures
        r matches Some(b) ==> bool_of_jv(j@) == Some(b),
        r is None ==> bool_of_jv(j@) is None,
{
    match j {
        Json::Bool(b) => Some(*b),
        _ => None,
    }
}

/// Decode a JSON integer node.
pub fn decode_i64(j: &Json) -> (r: Option<i64>)
    ensures
        r matches Some(n) ==> i64_of_jv(j@) == Some(n),
        r is None ==> i64_of_jv(j@) is None,
{
    match j {
        Json::Int(n) => Some(*n),
        _ => None,
    }
}

/// Fetch a required string field of an object.
pub fn get_str(fs: &Vec<(String, Json)>, key: &str) -> (r: Option<String>)
    ensures
        r matches Some(s) ==> req_str(obj_view(fs@), key@) == Some(s@),
        r is None ==> req_str(obj_view(fs@), key@) is None,
{
    match get_field(fs, key) {
        Some(x) => decode_string(x),
        None => None,
    }
}

/// Fetch an optional string field of an object. The outer `None` means the
/// field was present but was no string.
pub fn get_opt_str(fs: &Vec<(String, Json)>, key: &str) -> (r: Option<Option<String>>)
    ensures
        r matches Some(x) ==> opt_str(obj_view(fs@), key@) == Some(x.deep_view()),
        r is None ==> opt_str(obj_view(fs@), key@) is None,
{
    match get_field(fs, key) {
        None => Some(None),
        Some(x) => match decode_string(x) {
            Some(s) => Some(Some(s)),
            None => None,
        },
    }
}

/// Whether a string is a well-formed RFC 3339 date-time. The provider
/// reports all timestamps in that form; a fixed function of the text alone.
pub uninterp spec fn rfc3339_ok(s: Seq<char>) -> bool;

/// Relies on `chrono::DateTime::parse_from_rfc3339`: whether a timestamp
/// string parses as an RFC 3339 date-time, a fixed function of the text.
#[verifier::external_body]
pub fn is_rfc3339(s: &str) -> (r: bool)
    ensures
        r == rfc3339_ok(s@),
{
    chrono::DateTime::parse_from_rfc3339(s).is_ok()
}

/// A decoded timestamp node: a string in RFC 3339 form.
pub open spec fn ts_of_jv(j: Jv) -> Option<Seq<char>> {
    match j {
        Jv::Str(s) => if rfc3339_ok(s) {
            Some(s)
        } else {
            None
        },
        _ => None,
    }
}

/// Fetch an optional timestamp field of an object. The outer `None` means
/// the field was present but was no RFC 3339 date-time string.
pub fn get_opt_ts(fs: &Vec<(String, Json)>, key: &str) -> (r: Option<Option<String>>)
    ensures
        r matches Some(x) ==> opt_field(obj_view(fs@), key@, |v: Jv| ts_of_jv(v)) == Some(
            x.deep_view(),
        ),
        r is None ==> opt_field(obj_view(fs@), key@, |v: Jv| ts_of_jv(v)) is None,
{
    match get_field(fs, key) {
        None => Some(None),
        Some(x) => match x {
            Json::Str(s) => {
                if is_rfc3339(s.as_str()) {
                    Some(Some(s.clone()))
                } else {
                    None
                }
            },
            _ => None,
        },
    }
}

/// Encode a list of strings.
pub fn encode_string_vec(v: &Vec<String>) -> (j: Json)
    ensures
        j@ == Jv::Arr(strings_jv(v.deep_view())),
{
    let mut items: Vec<Json> = Vec::new();
    let mut i: usize = 0;
    while i < v.len()
        invariant
            i <= v.len(),
            items@.len() == i as nat,
            forall|k: int| 0 <= k < i ==> (#[trigger] items@[k]@) == Jv::Str(v.deep_view()[k]),
        decreases v.len() - i,
    {
        items.push(Json::Str(v[i].clone()));
        i += 1;
    }
    let r = Json::Arr(items);
    proof {
        assert(r@->Arr_0.len() == v.deep_view().len());
        assert forall|k: int| 0 <= k < v.deep_view().len() implies r@->Arr_0[k] == Jv::Str(
            v.deep_view()[k],
        ) by {
            assert(items@[k]@ == Jv::Str(v.deep_view()[k]));
        }
        assert(r@->Arr_0 =~= strings_jv(v.deep_view()));
    }
    r
}

/// Decode a list of strings.
pub fn decode_string_vec(items: &Vec<Json>) -> (r: Option<Vec<String>>)
    ensures
        r matches Some(v) ==> strings_of_jv(crate::json::arr_view(items@)) == Some(v.deep_view()),
        r is None ==> strings_of_jv(crate::json::arr_view(items@)) is None,
{
    let ghost av = crate::json::arr_view(items@);
    let mut out: Vec<String> = Vec::new();
    let mut i: usize = 0;
    while i < items.len()
        invariant
            i <= items.len(),
            out@.len() == i as nat,
            av == crate::json::arr_view(items@),
            forall|k: int| 0 <= k < i ==> (#[trigger] str_of_jv(av[k])) == Some(out.deep_view()[k]),
        decreases items.len() - i,
    {
        match decode_string(&items[i]) {
            Some(s) => { out.push(s); },
            None => {
                proof {
                    assert(str_of_jv(av[i as int]) is None);
                }
                return None;
            },
        }
        i += 1;
    }
    proof {
        assert forall|k: int| 0 <= k < av.len() implies (#[trigger] str_of_jv(av[k])) is Some by {
        }
        assert(Seq::new(av.len(), |k: int| str_of_jv(av[k])->Some_0) =~= out.deep_view());
    }
    Some(out)
}

} // verus!
