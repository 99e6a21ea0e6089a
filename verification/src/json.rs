//! A JSON value as plain data, with exact lookups, structural equality and the
//! recursive content measures used by streaming decisions.
use vstd::prelude::*;
use vstd::string::StringExecFns;
use crate::text::text_eq;

verus! {

broadcast use vstd::std_specs::vec::group_vec_axioms;

/// A JSON document. Numbers that fit an `i64` are held exactly; any other
/// number keeps its decimal text.
#[derive(Debug, PartialEq)]
pub enum JsonValue {
    Null,
    Bool(bool),
    Int(i64),
    Decimal(String),
    Str(String),
    Array(Vec<JsonValue>),
    Object(Vec<(String, JsonValue)>),
}

/// First value stored under `key` in an object's entry list.
pub open spec fn entries_lookup(entries: Seq<(String, JsonValue)>, key: Seq<char>) -> Option<JsonValue>
    decreases entries.len(),
{
    if entries.len() == 0 {
        None
    } else if entries[0].0@ == key {
        Some(entries[0].1)
    } else {
        entries_lookup(entries.drop_first(), key)
    }
}

/// `v[key]` when `v` is an object holding `key`.
pub open spec fn json_get(v: JsonValue, key: Seq<char>) -> Option<JsonValue> {
    match v {
        JsonValue::Object(entries) => entries_lookup(entries@, key),
        _ => None,
    }
}

/// The text of a JSON string value.
pub open spec fn json_as_str(v: JsonValue) -> Option<Seq<char>> {
    match v {
        JsonValue::Str(s) => Some(s@),
        _ => None,
    }
}

/// `v[key]` when it is a string.
pub open spec fn json_get_str(v: JsonValue, key: Seq<char>) -> Option<Seq<char>> {
    match json_get(v, key) {
        Some(x) => json_as_str(x),
        None => None,
    }
}

/// Structural equality of two JSON values (strings compared by their text).
pub open spec fn json_same(a: JsonValue, b: JsonValue) -> bool
    decreases a,
{
    match (a, b) {
        (JsonValue::Null, JsonValue::Null) => true,
        (JsonValue::Bool(x), JsonValue::Bool(y)) => x == y,
        (JsonValue::Int(x), JsonValue::Int(y)) => x == y,
        (JsonValue::Decimal(x), JsonValue::Decimal(y)) => x@ == y@,
        (JsonValue::Str(x), JsonValue::Str(y)) => x@ == y@,
        (JsonValue::Array(xs), JsonValue::Array(ys)) => items_same(xs@, ys@),
        (JsonValue::Object(xs), JsonValue::Object(ys)) => entries_same(xs@, ys@),
        _ => false,
    }
}

/// Pointwise structural equality of two item lists.
pub open spec fn items_same(xs: Seq<JsonValue>, ys: Seq<JsonValue>) -> bool
    decreases xs,
{
    if xs.len() != ys.len() {
        false
    } else if xs.len() == 0 {
        true
    } else {
        json_same(xs.last(), ys.last()) && items_same(xs.drop_last(), ys.drop_last())
    }
}

/// Pointwise equality of two entry lists (same keys in the same order).
pub open spec fn entries_same(xs: Seq<(String, JsonValue)>, ys: Seq<(String, JsonValue)>) -> bool
    decreases xs,
{
    if xs.len() != ys.len() {
        false
    } else if xs.len() == 0 {
        true
    } else {
        xs.last().0@ == ys.last().0@ && json_same(xs.last().1, ys.last().1)
            && entries_same(xs.drop_last(), ys.drop_last())
    }
}

impl JsonValue {
    /// Looks up `key` in an object (`None` for any other value).
    #[verifier::loop_isolation(false)]
    pub fn get(&self, key: &str) -> (r: Option<&JsonValue>)
        ensures
            r matches Some(x) ==> json_get(*self, key@) == Some(*x),
            r is None ==> json_get(*self, key@) is None,
    {
        match self {
            JsonValue::Object(entries) => {
                let n = entries.len();
                let mut i: usize = 0;
                assert(entries@.subrange(0, n as int) =~= entries@);
                while i < n
                    invariant
                        n == entries@.len(),
                        i <= n,
                        entries_lookup(entries@, key@) == entries_lookup(entries@.subrange(i as int, n as int), key@),
                    decreases n - i,
                {
                    assert(entries@.subrange(i as int, n as int).drop_first() =~= entries@.subrange(i + 1, n as int));
                    if text_eq(entries[i].0.as_str(), key) {
                        return Some(&entries[i].1);
                    }
                    i = i + 1;
                }
                None
            },
            _ => None,
        }
    }

    /// The text of a string value.
    pub fn as_str(&self) -> (r: Option<&String>)
        ensures
            r matches Some(s) ==> json_as_str(*self) == Some(s@),
            r is None ==> json_as_str(*self) is None,
    {
        match self {
            JsonValue::Str(s) => Some(s),
            _ => None,
        }
    }

    /// Whether this value is JSON `null`.
    pub fn is_null(&self) -> (r: bool)
        ensures
            r == (*self is Null),
    {
        match self {
            JsonValue::Null => true,
            _ => false,
        }
    }
}

/// Moves the value stored under `key` out of an object.
#[verifier::loop_isolation(false)]
pub fn take_field(v: JsonValue, key: &str) -> (r: Option<JsonValue>)
    ensures
        r == json_get(v, key@),
{
    match v {
        JsonValue::Object(mut entries) => {
            let ghost orig = entries@;
            let n = entries.len();
            let mut i: usize = 0;
            assert(entries@.subrange(0, n as int) =~= entries@);
            while i < n
                invariant
                    n == entries@.len(),
                    entries@ == orig,
                    i <= n,
                    entries_lookup(orig, key@) == entries_lookup(orig.subrange(i as int, n as int), key@),
                decreases n - i,
            {
                assert(orig.subrange(i as int, n as int).drop_first() =~= orig.subrange(i + 1, n as int));
                if text_eq(entries[i].0.as_str(), key) {
                    let (_, value) = entries.remove(i);
                    return Some(value);
                }
                i = i + 1;
            }
            None
        },
        _ => None,
    }
}

/// Moves the value stored under `key` out of an object, leaving `null` in its
/// place; every other key reads as before.
#[verifier::loop_isolation(false)]
pub fn take_field_mut(v: &mut JsonValue, key: &str) -> (r: Option<JsonValue>)
    ensures
        r == json_get(*old(v), key@),
        forall|k: Seq<char>| k != key@ ==> #[trigger] json_get(*final(v), k) == json_get(*old(v), k),
        (*final(v) is Object) == (*old(v) is Object),
{
    match v {
        JsonValue::Object(entries) => {
            let ghost orig = entries@;
            let n = entries.len();
            let mut i: usize = 0;
            assert(orig.subrange(0, n as int) =~= orig);
            while i < n
                invariant
                    n == entries@.len(),
                    entries@ == orig,
                    i <= n,
                    entries_lookup(orig, key@) == entries_lookup(orig.subrange(i as int, n as int), key@),
                    forall|j: int| 0 <= j < i ==> orig[j].0@ != key@,
                decreases n - i,
            {
                assert(orig.subrange(i as int, n as int).drop_first() =~= orig.subrange(i + 1, n as int));
                if text_eq(entries[i].0.as_str(), key) {
                    let (k, value) = entries.remove(i);
                    let entry = (k, JsonValue::Null);
                    entries.insert(i, entry);
                    proof {
                        assert(entries@ =~= orig.update(i as int, entry));
                        assert forall|k2: Seq<char>| k2 != key@ implies entries_lookup(entries@, k2) == entries_lookup(orig, k2) by {
                            lemma_lookup_replace(orig, i as int, key@, entry, k2);
                        }
                    }
                    return Some(value);
                }
                i = i + 1;
            }
            None
        },
        _ => None,
    }
}

/// `v[key]` read as a string.
pub fn get_str<'a>(v: &'a JsonValue, key: &str) -> (r: Option<&'a String>)
    ensures
        r matches Some(s) ==> json_get_str(*v, key@) == Some(s@),
        r is None ==> json_get_str(*v, key@) is None,
{
    match v.get(key) {
        Some(x) => x.as_str(),
        None => None,
    }
}

/// Structural equality of two JSON values.
#[verifier::loop_isolation(false)]
pub fn json_equal(a: &JsonValue, b: &JsonValue) -> (r: bool)
    ensures
        r == json_same(*a, *b),
    decreases a,
{
    match (a, b) {
        (JsonValue::Null, JsonValue::Null) => true,
        (JsonValue::Bool(x), JsonValue::Bool(y)) => *x == *y,
        (JsonValue::Int(x), JsonValue::Int(y)) => *x == *y,
        (JsonValue::Decimal(x), JsonValue::Decimal(y)) => text_eq(x.as_str(), y.as_str()),
        (JsonValue::Str(x), JsonValue::Str(y)) => text_eq(x.as_str(), y.as_str()),
        (JsonValue::Array(xs), JsonValue::Array(ys)) => {
            if xs.len() != ys.len() {
                return false;
            }
            let n = xs.len();
            let mut i: usize = 0;
            while i < n
                invariant
                    n == xs@.len(),
                    n == ys@.len(),
                    i <= n,
                    items_same(xs@.take(i as int), ys@.take(i as int)),
                decreases n - i,
            {
                assert(decreases_to!(*a => xs@[i as int]));
                if !json_equal(&xs[i], &ys[i]) {
                    proof { lemma_items_same_prefix(xs@, ys@, i as int); }
                    return false;
                }
                assert(xs@.take(i + 1).drop_last() =~= xs@.take(i as int));
                assert(ys@.take(i + 1).drop_last() =~= ys@.take(i as int));
                i = i + 1;
            }
            assert(xs@.take(n as int) =~= xs@);
            assert(ys@.take(n as int) =~= ys@);
            true
        },
        (JsonValue::Object(xs), JsonValue::Object(ys)) => {
            if xs.len() != ys.len() {
                return false;
            }
            let n = xs.len();
            let mut i: usize = 0;
            while i < n
                invariant
                    n == xs@.len(),
                    n == ys@.len(),
                    i <= n,
                    entries_same(xs@.take(i as int), ys@.take(i as int)),
                decreases n - i,
            {
                assert(decreases_to!(*a => xs@[i as int].1));
                if !text_eq(xs[i].0.as_str(), ys[i].0.as_str()) || !json_equal(&xs[i].1, &ys[i].1) {
                    proof { lemma_entries_same_prefix(xs@, ys@, i as int); }
                    return false;
                }
                assert(xs@.take(i + 1).drop_last() =~= xs@.take(i as int));
                assert(ys@.take(i + 1).drop_last() =~= ys@.take(i as int));
                i = i + 1;
            }
            assert(xs@.take(n as int) =~= xs@);
            assert(ys@.take(n as int) =~= ys@);
            true
        },
        _ => false,
    }
}

/// Equal item lists agree at every index.
proof fn lemma_items_same_prefix(xs: Seq<JsonValue>, ys: Seq<JsonValue>, i: int)
    requires
        0 <= i < xs.len(),
        xs.len() == ys.len(),
        !json_same(xs[i], ys[i]),
    ensures
        !items_same(xs, ys),
    decreases xs.len(),
{
    if i == xs.len() - 1 {
    } else {
        lemma_items_same_prefix(xs.drop_last(), ys.drop_last(), i);
    }
}

/// Equal entry lists agree at every index.
proof fn lemma_entries_same_prefix(xs: Seq<(String, JsonValue)>, ys: Seq<(String, JsonValue)>, i: int)
    requires
        0 <= i < xs.len(),
        xs.len() == ys.len(),
        !(xs[i].0@ == ys[i].0@ && json_same(xs[i].1, ys[i].1)),
    ensures
        !entries_same(xs, ys),
    decreases xs.len(),
{
    if i == xs.len() - 1 {
    } else {
        lemma_entries_same_prefix(xs.drop_last(), ys.drop_last(), i);
    }
}

/// Replacing the first entry under `key` keeps every other lookup and makes
/// `key` find the new value.
proof fn lemma_lookup_replace(es: Seq<(String, JsonValue)>, i: int, key: Seq<char>, entry: (String, JsonValue), k: Seq<char>)
    requires
        0 <= i < es.len(),
        es[i].0@ == key,
        entry.0@ == key,
        forall|j: int| 0 <= j < i ==> es[j].0@ != key,
    ensures
        entries_lookup(es.update(i, entry), k) == if k == key { Some(entry.1) } else { entries_lookup(es, k) },
    decreases es.len(),
{
    if i > 0 {
        lemma_lookup_replace(es.drop_first(), i - 1, key, entry, k);
        assert(es.update(i, entry).drop_first() =~= es.drop_first().update(i - 1, entry));
    } else {
        assert(es.update(i, entry).drop_first() =~= es.drop_first());
    }
}

/// Appending an entry makes its key findable when it was absent and keeps
/// every earlier lookup.
pub proof fn lemma_lookup_push(es: Seq<(String, JsonValue)>, entry: (String, JsonValue), k: Seq<char>)
    ensures
        entries_lookup(es.push(entry), k) == match entries_lookup(es, k) {
            Some(v) => Some(v),
            None => if entry.0@ == k { Some(entry.1) } else { None },
        },
    decreases es.len(),
{
    if es.len() > 0 {
        lemma_lookup_push(es.drop_first(), entry, k);
        assert(es.push(entry).drop_first() =~= es.drop_first().push(entry));
    } else {
        assert(es.push(entry).drop_first().len() == 0);
        assert(entries_lookup(es.push(entry).drop_first(), k) is None);
        assert(es.push(entry)[0] == entry);
    }
}

/// Sets `key` to `value` in an object; any other value is left as it is.
#[verifier::loop_isolation(false)]
pub fn object_set(obj: &mut JsonValue, key: &str, value: JsonValue)
    ensures
        (*old(obj) is Object) == (*final(obj) is Object),
        !(*old(obj) is Object) ==> *final(obj) == *old(obj),
        *old(obj) is Object ==> json_get(*final(obj), key@) == Some(value),
        *old(obj) is Object ==> forall|k: Seq<char>| k != key@ ==> #[trigger] json_get(*final(obj), k) == json_get(*old(obj), k),
{
    match obj {
        JsonValue::Object(entries) => {
            let ghost orig = entries@;
            let n = entries.len();
            let mut i: usize = 0;
            while i < n
                invariant
                    n == entries@.len(),
                    entries@ == orig,
                    i <= n,
                    forall|j: int| 0 <= j < i ==> orig[j].0@ != key@,
                decreases n - i,
            {
                if text_eq(entries[i].0.as_str(), key) {
                    let entry = (String::from_str(key), value);
                    proof {
                        assert forall|k: Seq<char>| true implies entries_lookup(orig.update(i as int, entry), k)
                            == (if k == key@ { Some(entry.1) } else { entries_lookup(orig, k) }) by {
                            lemma_lookup_replace(orig, i as int, key@, entry, k);
                        }
                    }
                    entries.set(i, entry);
                    return;
                }
                i = i + 1;
            }
            let entry = (String::from_str(key), value);
            proof {
                assert forall|k: Seq<char>| true implies entries_lookup(orig.push(entry), k) == (match entries_lookup(orig, k) {
                    Some(v) => Some(v),
                    None => if entry.0@ == k { Some(entry.1) } else { None },
                }) by {
                    lemma_lookup_push(orig, entry, k);
                }
                lemma_lookup_absent(orig, key@);
            }
            entries.push(entry);
        },
        _ => {},
    }
}

/// A key that no entry carries is not found.
proof fn lemma_lookup_absent(es: Seq<(String, JsonValue)>, key: Seq<char>)
    requires
        forall|j: int| 0 <= j < es.len() ==> es[j].0@ != key,
    ensures
        entries_lookup(es, key) is None,
    decreases es.len(),
{
    if es.len() > 0 {
        lemma_lookup_absent(es.drop_first(), key);
    }
}

impl Clone for JsonValue {
    /// A deep copy.
    fn clone(&self) -> (r: JsonValue)
        ensures
            json_same(r, *self),
    {
        json_clone(self)
    }
}

/// A deep copy of a JSON value.
#[verifier::loop_isolation(false)]
pub fn json_clone(v: &JsonValue) -> (r: JsonValue)
    ensures
        json_same(r, *v),
        json_same(*v, r),
    decreases v,
{
    match v {
        JsonValue::Null => JsonValue::Null,
        JsonValue::Bool(b) => JsonValue::Bool(*b),
        JsonValue::Int(n) => JsonValue::Int(*n),
        JsonValue::Decimal(s) => JsonValue::Decimal(s.clone()),
        JsonValue::Str(s) => JsonValue::Str(s.clone()),
        JsonValue::Array(xs) => {
            let n = xs.len();
            let mut out: Vec<JsonValue> = Vec::new();
            let mut i: usize = 0;
            while i < n
                invariant
                    n == xs@.len(),
                    i <= n,
                    out@.len() == i,
                    items_same(out@, xs@.take(i as int)),
                    items_same(xs@.take(i as int), out@),
                decreases n - i,
            {
                assert(decreases_to!(*v => xs@[i as int]));
                let c = json_clone(&xs[i]);
                let ghost prev = out@;
                out.push(c);
                assert(out@.drop_last() =~= prev);
                assert(xs@.take(i + 1).drop_last() =~= xs@.take(i as int));
                i = i + 1;
            }
            assert(xs@.take(n as int) =~= xs@);
            JsonValue::Array(out)
        },
        JsonValue::Object(es) => {
            let n = es.len();
            let mut out: Vec<(String, JsonValue)> = Vec::new();
            let mut i: usize = 0;
            while i < n
                invariant
                    n == es@.len(),
                    i <= n,
                    out@.len() == i,
                    entries_same(out@, es@.take(i as int)),
                    entries_same(es@.take(i as int), out@),
                decreases n - i,
            {
                assert(decreases_to!(*v => es@[i as int].1));
                let c = json_clone(&es[i].1);
                let k = es[i].0.clone();
                let ghost prev = out@;
                out.push((k, c));
                assert(out@.drop_last() =~= prev);
                assert(es@.take(i + 1).drop_last() =~= es@.take(i as int));
                i = i + 1;
            }
            assert(es@.take(n as int) =~= es@);
            JsonValue::Object(out)
        },
    }
}

/// Whether an entry list carries `key`.
pub fn entries_has_key(es: &Vec<(String, JsonValue)>, key: &str) -> (r: bool)
    ensures
        r == entries_lookup(es@, key@) is Some,
{
    let n = es.len();
    let mut i: usize = 0;
    assert(es@.subrange(0, n as int) =~= es@);
    while i < n
        invariant
            n == es@.len(),
            i <= n,
            entries_lookup(es@, key@) == entries_lookup(es@.subrange(i as int, n as int), key@),
        decreases n - i,
    {
        assert(es@.subrange(i as int, n as int).drop_first() =~= es@.subrange(i + 1, n as int));
        if text_eq(es[i].0.as_str(), key) {
            return true;
        }
        i = i + 1;
    }
    false
}

/// Entry lists that are the same, entry by entry.
pub open spec fn entries_pointwise_same(xs: Seq<(String, JsonValue)>, ys: Seq<(String, JsonValue)>) -> bool {
    xs.len() == ys.len() && forall|i: int| 0 <= i < xs.len() ==> (#[trigger] xs[i]).0@ == ys[i].0@ && json_same(xs[i].1, ys[i].1)
}

proof fn lemma_entries_same_pointwise(xs: Seq<(String, JsonValue)>, ys: Seq<(String, JsonValue)>)
    requires
        entries_same(xs, ys),
    ensures
        entries_pointwise_same(xs, ys),
    decreases xs.len(),
{
    if xs.len() > 0 {
        lemma_entries_same_pointwise(xs.drop_last(), ys.drop_last());
        assert forall|i: int| 0 <= i < xs.len() implies (#[trigger] xs[i]).0@ == ys[i].0@ && json_same(xs[i].1, ys[i].1) by {
            if i < xs.len() - 1 {
                assert(xs.drop_last()[i] == xs[i]);
                assert(ys.drop_last()[i] == ys[i]);
            }
        }
    }
}

proof fn lemma_pointwise_lookup(xs: Seq<(String, JsonValue)>, ys: Seq<(String, JsonValue)>, k: Seq<char>)
    requires
        entries_pointwise_same(xs, ys),
    ensures
        (entries_lookup(xs, k) is None) == (entries_lookup(ys, k) is None),
        entries_lookup(xs, k) matches Some(a) ==> (entries_lookup(ys, k) matches Some(b) && json_same(a, b)),
    decreases xs.len(),
{
    if xs.len() > 0 {
        assert(xs[0].0@ == ys[0].0@);
        assert forall|i: int| 0 <= i < xs.drop_first().len() implies (#[trigger] xs.drop_first()[i]).0@ == ys.drop_first()[i].0@
            && json_same(xs.drop_first()[i].1, ys.drop_first()[i].1) by {
            assert(xs.drop_first()[i] == xs[i + 1]);
            assert(ys.drop_first()[i] == ys[i + 1]);
        }
        lemma_pointwise_lookup(xs.drop_first(), ys.drop_first(), k);
    }
}

/// Lookups in structurally equal objects agree: both find nothing, or both
/// find structurally equal values.
pub proof fn lemma_same_get(a: JsonValue, b: JsonValue, k: Seq<char>)
    requires
        json_same(a, b),
    ensures
        (a is Object) == (b is Object),
        (json_get(a, k) is None) == (json_get(b, k) is None),
        json_get(a, k) matches Some(x) ==> (json_get(b, k) matches Some(y) && json_same(x, y)),
{
    match (a, b) {
        (JsonValue::Object(xs), JsonValue::Object(ys)) => {
            lemma_entries_same_pointwise(xs@, ys@);
            lemma_pointwise_lookup(xs@, ys@, k);
        },
        _ => {},
    }
}


/// `a` copies the entries `b`: the same keys in the same order, with
/// structurally equal values.
pub open spec fn entries_copied(a: Seq<(String, JsonValue)>, b: Seq<(String, JsonValue)>) -> bool {
    a.len() == b.len() && forall|i: int| 0 <= i < a.len() ==> (#[trigger] a[i]).0@ == b[i].0@ && json_same(a[i].1, b[i].1)
}

/// A deep copy of an object's entries.
pub fn clone_entries(es: &Vec<(String, JsonValue)>) -> (r: Vec<(String, JsonValue)>)
    ensures
        entries_copied(r@, es@),
{
    let mut out: Vec<(String, JsonValue)> = Vec::new();
    let n = es.len();
    let mut i: usize = 0;
    while i < n
        invariant
            n == es@.len(),
            i <= n,
            out@.len() == i,
            forall|j: int| 0 <= j < i ==> (#[trigger] out@[j]).0@ == es@[j].0@ && json_same(out@[j].1, es@[j].1),
        decreases n - i,
    {
        out.push((es[i].0.clone(), json_clone(&es[i].1)));
        i = i + 1;
    }
    out
}

} // verus!
