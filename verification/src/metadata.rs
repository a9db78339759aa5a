//! Extraction of version and build lists from metadata responses, and the
//! selection of the latest build.
//!
//! Every failure collapses to an empty list: a body that is not JSON, a
//! missing or differently-typed field, and elements of the wrong shape are
//! all skipped, never reported as an error. Callers treat an empty list
//! uniformly as "fetch failed or nothing available".

use crate::decimal::{parse_u64_decimal, spec_parse_u64};
use crate::distribution::Distribution;
use crate::json::{
    json_as_array, json_as_str, json_as_u64, json_data, json_field, json_get, parse_json,
    parsed_json, JsonData,
};
use vstd::prelude::*;

verus! {

/// The string elements of a JSON array, in order; elements of any other
/// shape are skipped.
pub open spec fn string_items(elems: Seq<JsonData>) -> Seq<Seq<char>>
    decreases elems.len(),
{
    if elems.len() == 0 {
        Seq::empty()
    } else {
        string_items(elems.drop_last()) + (match elems.last() {
            JsonData::Str(s) => seq![s],
            _ => Seq::<Seq<char>>::empty(),
        })
    }
}

/// The version list carried by a metadata reply: the string elements of a
/// top-level `versions` array, or empty where that field is missing or not
/// an array.
pub open spec fn spec_versions(j: JsonData) -> Seq<Seq<char>> {
    match json_field(j, "versions"@) {
        Some(JsonData::Arr(elems)) => string_items(elems),
        _ => Seq::empty(),
    }
}

/// What extracting versions from a response body yields: empty where the
/// body is not JSON at all.
pub open spec fn spec_extract_versions(body: Seq<char>) -> Seq<Seq<char>> {
    match parsed_json(body) {
        Some(j) => spec_versions(j),
        None => Seq::empty(),
    }
}

/// The build numbers of an array of build-identifier strings, in order:
/// each string element that denotes a `u64` in plain decimal contributes its
/// value; every other element is skipped.
pub open spec fn decimal_items(elems: Seq<JsonData>) -> Seq<u64>
    decreases elems.len(),
{
    if elems.len() == 0 {
        Seq::empty()
    } else {
        decimal_items(elems.drop_last()) + (match elems.last() {
            JsonData::Str(s) => match spec_parse_u64(s) {
                Some(n) => seq![n],
                None => Seq::<u64>::empty(),
            },
            _ => Seq::<u64>::empty(),
        })
    }
}

/// The build numbers of an array of build objects, in order: each element
/// whose `build` field is an unsigned integer contributes it; every other
/// element is skipped.
pub open spec fn build_field_items(elems: Seq<JsonData>) -> Seq<u64>
    decreases elems.len(),
{
    if elems.len() == 0 {
        Seq::empty()
    } else {
        build_field_items(elems.drop_last()) + (match json_field(elems.last(), "build"@) {
            Some(JsonData::UInt(n)) => seq![n],
            _ => Seq::<u64>::empty(),
        })
    }
}

/// The build list carried by a metadata reply, by the distribution's schema:
/// one nests identifier strings under `builds.all`, the other carries build
/// objects under `builds`. Empty wherever the expected shape is absent.
pub open spec fn spec_builds(d: Distribution, j: JsonData) -> Seq<u64> {
    match d {
        Distribution::Purpur => match json_field(j, "builds"@) {
            Some(inner) => match json_field(inner, "all"@) {
                Some(JsonData::Arr(elems)) => decimal_items(elems),
                _ => Seq::empty(),
            },
            _ => Seq::empty(),
        },
        Distribution::Paper => match json_field(j, "builds"@) {
            Some(JsonData::Arr(elems)) => build_field_items(elems),
            _ => Seq::empty(),
        },
    }
}

/// What extracting builds from a response body yields: empty where the body
/// is not JSON at all.
pub open spec fn spec_extract_builds(d: Distribution, body: Seq<char>) -> Seq<u64> {
    match parsed_json(body) {
        Some(j) => spec_builds(d, j),
        None => Seq::empty(),
    }
}

/// Extracts the version list from a parsed metadata reply.
pub fn versions_from_json(v: &serde_json::Value) -> (r: Vec<String>)
    ensures
        r@.map_values(|s: String| s@) == spec_versions(json_data(*v)),
{
    let mut out: Vec<String> = Vec::new();
    proof {
        assert(out@.map_values(|s: String| s@) =~= Seq::<Seq<char>>::empty());
    }
    let field = match json_get(v, "versions") {
        Some(f) => f,
        None => {
            return out;
        },
    };
    let arr = match json_as_array(field) {
        Some(a) => a,
        None => {
            return out;
        },
    };
    let ghost elems = arr@.map_values(|e| json_data(e));
    let mut i: usize = 0;
    while i < arr.len()
        invariant
            0 <= i <= arr@.len(),
            elems == arr@.map_values(|e| json_data(e)),
            spec_versions(json_data(*v)) == string_items(elems),
            out@.map_values(|s: String| s@) == string_items(elems.take(i as int)),
        decreases arr@.len() - i,
    {
        proof {
            assert(elems.take(i + 1).drop_last() =~= elems.take(i as int));
            assert(elems.take(i + 1).last() == elems[i as int]);
            assert(elems[i as int] == json_data(arr@[i as int]));
        }
        let item = &arr[i];
        if let Some(s) = json_as_str(item) {
            let owned = s.to_owned();
            out.push(owned);
            proof {
                assert(out@.map_values(|s: String| s@) =~= string_items(elems.take(i + 1)));
            }
        }
        i = i + 1;
    }
    proof {
        assert(elems.take(i as int) =~= elems);
    }
    out
}

/// Extracts the version list from a metadata response body. Returns the
/// empty list on any failure: a body that is not JSON, a missing `versions`
/// field, or a field of the wrong shape.
pub fn extract_versions(body: &str) -> (r: Vec<String>)
    ensures
        r@.map_values(|s: String| s@) == spec_extract_versions(body@),
{
    match parse_json(body) {
        Some(v) => versions_from_json(&v),
        None => {
            let out: Vec<String> = Vec::new();
            proof {
                assert(out@.map_values(|s: String| s@) =~= Seq::<Seq<char>>::empty());
            }
            out
        },
    }
}

/// Extracts the build list from a parsed metadata reply, by the
/// distribution's schema.
pub fn builds_from_json(d: Distribution, v: &serde_json::Value) -> (r: Vec<u64>)
    ensures
        r@ == spec_builds(d, json_data(*v)),
{
    let mut out: Vec<u64> = Vec::new();
    match d {
        Distribution::Purpur => {
            let inner = match json_get(v, "builds") {
                Some(f) => f,
                None => {
                    return out;
                },
            };
            let field = match json_get(inner, "all") {
                Some(f) => f,
                None => {
                    return out;
                },
            };
            let arr = match json_as_array(field) {
                Some(a) => a,
                None => {
                    return out;
                },
            };
            let ghost elems = arr@.map_values(|e| json_data(e));
            let mut i: usize = 0;
            while i < arr.len()
                invariant
                    0 <= i <= arr@.len(),
                    elems == arr@.map_values(|e| json_data(e)),
                    spec_builds(d, json_data(*v)) == decimal_items(elems),
                    out@ == decimal_items(elems.take(i as int)),
                decreases arr@.len() - i,
            {
                proof {
                    assert(elems.take(i + 1).drop_last() =~= elems.take(i as int));
                    assert(elems.take(i + 1).last() == elems[i as int]);
                    assert(elems[i as int] == json_data(arr@[i as int]));
                }
                let item = &arr[i];
                if let Some(s) = json_as_str(item) {
                    if let Some(n) = parse_u64_decimal(s) {
                        out.push(n);
                    }
                }
                i = i + 1;
            }
            proof {
                assert(elems.take(i as int) =~= elems);
            }
            out
        },
        Distribution::Paper => {
            let field = match json_get(v, "builds") {
                Some(f) => f,
                None => {
                    return out;
                },
            };
            let arr = match json_as_array(field) {
                Some(a) => a,
                None => {
                    return out;
                },
            };
            let ghost elems = arr@.map_values(|e| json_data(e));
            let mut i: usize = 0;
            while i < arr.len()
                invariant
                    0 <= i <= arr@.len(),
                    elems == arr@.map_values(|e| json_data(e)),
                    spec_builds(d, json_data(*v)) == build_field_items(elems),
                    out@ == build_field_items(elems.take(i as int)),
                decreases arr@.len() - i,
            {
                proof {
                    assert(elems.take(i + 1).drop_last() =~= elems.take(i as int));
                    assert(elems.take(i + 1).last() == elems[i as int]);
                    assert(elems[i as int] == json_data(arr@[i as int]));
                }
                let item = &arr[i];
                if let Some(b) = json_get(item, "build") {
                    if let Some(n) = json_as_u64(b) {
                        out.push(n);
                    }
                }
                i = i + 1;
            }
            proof {
                assert(elems.take(i as int) =~= elems);
            }
            out
        },
    }
}

/// Extracts the build list from a metadata response body. Returns the empty
/// list on any failure: a body that is not JSON, a missing field, or a field
/// of the wrong shape.
pub fn extract_builds(d: Distribution, body: &str) -> (r: Vec<u64>)
    ensures
        r@ == spec_extract_builds(d, body@),
{
    match parse_json(body) {
        Some(v) => builds_from_json(d, &v),
        None => Vec::new(),
    }
}

/// The latest build of a build list: the last element, by the endpoint's own
/// ordering — not the numeric maximum. `None` exactly for an empty list.
pub open spec fn spec_latest_build(builds: Seq<u64>) -> Option<u64> {
    if builds.len() > 0 {
        Some(builds.last())
    } else {
        None
    }
}

/// Selects the latest build: the last element of the list, trusting the
/// endpoint's ordering. `None` exactly for an empty list.
pub fn latest_build(builds: &Vec<u64>) -> (r: Option<u64>)
    ensures
        r == spec_latest_build(builds@),
{
    if builds.len() > 0 {
        Some(builds[builds.len() - 1])
    } else {
        None
    }
}

/// Latest-build selection is positional and idempotent: for a non-empty list
/// it is exactly the element at index `len - 1` (not the numeric maximum),
/// and any two selections from the same list agree.
pub proof fn lemma_latest_build_positional(
    builds: Seq<u64>,
    first: Option<u64>,
    second: Option<u64>,
)
    requires
        builds.len() > 0,
        first == spec_latest_build(builds),
        second == spec_latest_build(builds),
    ensures
        first == Some(builds[builds.len() - 1]),
        first == second,
{
}

} // verus!
