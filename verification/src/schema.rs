//! The input schema a tool is registered with: whatever schema it is given,
//! the server rebuilds it as an object schema.
use vstd::prelude::*;
use vstd::string::StringExecFns;
use crate::json::{JsonValue, json_get, json_same, json_clone, entries_lookup, entries_copied, clone_entries,
    lemma_lookup_push};
use crate::encode::push_member;
use crate::error::string_items;

verus! {

broadcast use vstd::std_specs::vec::group_vec_axioms;

/// The members the rebuilt schema sets itself.
pub open spec fn is_schema_key(k: Seq<char>) -> bool {
    k == "type"@ || k == "properties"@ || k == "required"@
}

/// `v` is an array of the texts `ts`, in order.
pub open spec fn texts_array(v: JsonValue, ts: Seq<Seq<char>>) -> bool {
    v matches JsonValue::Array(items) && items@.len() == ts.len()
        && forall|i: int| 0 <= i < items@.len() ==> (#[trigger] items@[i] matches JsonValue::Str(s) && s@ == ts[i])
}

/// `v` is `given` rebuilt as an object schema: `type` is `"object"`;
/// `properties` copies the given `properties` when they are an object and
/// is absent otherwise; `required` lists the text items of the given
/// `required` when it is an array and is absent otherwise; every other
/// member of the given schema is kept as it was, and there is no other.
pub open spec fn normalized_schema(given: JsonValue, v: JsonValue) -> bool {
    &&& v is Object
    &&& json_get(v, "type"@) matches Some(JsonValue::Str(t)) && t@ == "object"@
    &&& match json_get(given, "properties"@) {
        Some(JsonValue::Object(ps)) => json_get(v, "properties"@) matches Some(JsonValue::Object(qs)) && entries_copied(qs@, ps@),
        _ => json_get(v, "properties"@) is None,
    }
    &&& match json_get(given, "required"@) {
        Some(JsonValue::Array(xs)) => json_get(v, "required"@) matches Some(a) && texts_array(a, string_items(xs@)),
        _ => json_get(v, "required"@) is None,
    }
    &&& forall|k: Seq<char>| !is_schema_key(k) ==> {
        &&& (#[trigger] json_get(v, k) is None) == (json_get(given, k) is None)
        &&& json_get(given, k) matches Some(a) ==> (json_get(v, k) matches Some(b) && json_same(b, a))
    }
}

/// The text items of a JSON array, in order.
fn text_items(xs: &Vec<JsonValue>) -> (r: JsonValue)
    ensures
        texts_array(r, string_items(xs@)),
{
    let mut out: Vec<JsonValue> = Vec::new();
    let n = xs.len();
    let mut i: usize = 0;
    while i < n
        invariant
            n == xs@.len(),
            i <= n,
            out@.len() == string_items(xs@.take(i as int)).len(),
            forall|j: int| 0 <= j < out@.len() ==> (#[trigger] out@[j] matches JsonValue::Str(s)
                && s@ == string_items(xs@.take(i as int))[j]),
        decreases n - i,
    {
        assert(xs@.take(i + 1).drop_last() =~= xs@.take(i as int));
        match &xs[i] {
            JsonValue::Str(s) => {
                out.push(JsonValue::Str(s.clone()));
            },
            _ => {},
        }
        i = i + 1;
    }
    assert(xs@.take(n as int) =~= xs@);
    JsonValue::Array(out)
}

/// Rebuilds a tool's input schema as an object schema.
pub fn normalize_tool_schema(given: &JsonValue) -> (v: JsonValue)
    ensures
        normalized_schema(*given, v),
{
    proof {
        reveal_strlit("type");
        reveal_strlit("properties");
        reveal_strlit("required");
        assert("type"@.len() != "properties"@.len());
        assert("type"@.len() != "required"@.len());
        assert("properties"@.len() != "required"@.len());
    }
    let mut es: Vec<(String, JsonValue)> = Vec::new();
    push_member(&mut es, "type", JsonValue::Str(String::from_str("object")));
    match given.get("properties") {
        Some(JsonValue::Object(ps)) => push_member(&mut es, "properties", JsonValue::Object(clone_entries(ps))),
        _ => {},
    }
    match given.get("required") {
        Some(JsonValue::Array(xs)) => push_member(&mut es, "required", text_items(xs)),
        _ => {},
    }
    let ghost fixed = es@;
    match given {
        JsonValue::Object(ges) => {
            let n = ges.len();
            let mut i: usize = 0;
            while i < n
                invariant
                    n == ges@.len(),
                    i <= n,
                    forall|k: Seq<char>| is_schema_key(k) ==> #[trigger] entries_lookup(es@, k) == entries_lookup(fixed, k),
                    forall|k: Seq<char>| !is_schema_key(k) ==> entries_lookup(fixed, k) is None,
                    forall|k: Seq<char>| !is_schema_key(k) ==> {
                        &&& (#[trigger] entries_lookup(es@, k) is None) == (entries_lookup(ges@.take(i as int), k) is None)
                        &&& entries_lookup(ges@.take(i as int), k) matches Some(a)
                            ==> (entries_lookup(es@, k) matches Some(b) && json_same(b, a))
                    },
                decreases n - i,
            {
                proof {
                    assert(ges@.take(i + 1) =~= ges@.take(i as int).push(ges@[i as int]));
                    assert forall|k: Seq<char>| true implies #[trigger] entries_lookup(ges@.take(i + 1), k)
                        == match entries_lookup(ges@.take(i as int), k) {
                            Some(x) => Some(x),
                            None => if ges@[i as int].0@ == k { Some(ges@[i as int].1) } else { None },
                        } by {
                        lemma_lookup_push(ges@.take(i as int), ges@[i as int], k);
                    }
                }
                let key = ges[i].0.as_str();
                let skip = crate::text::text_eq(key, "type") || crate::text::text_eq(key, "properties")
                    || crate::text::text_eq(key, "required");
                if !skip {
                    let value = json_clone(&ges[i].1);
                    push_member(&mut es, key, value);
                }
                i = i + 1;
            }
            assert(ges@.take(n as int) =~= ges@);
        },
        _ => {
            proof {
                assert forall|k: Seq<char>| !is_schema_key(k) implies #[trigger] json_get(*given, k) is None by {}
            }
        },
    }
    JsonValue::Object(es)
}

} // verus!
