use vstd::prelude::*;
use vstd::string::StringExecFns;

verus! {

/// A JSON document as the protocol reads and writes it.
///
/// Numbers are integers; a number that is not an integer in the `i128`
/// range is kept as `Number(None)`. An object holds its members as a list;
/// one read from text has its keys sorted and unique, as serde_json's map
/// keeps them (of repeated keys, the last wins).
#[derive(Debug, PartialEq, Eq)]
pub enum Json {
    Null,
    Bool(bool),
    Number(Option<i128>),
    Str(String),
    Array(Vec<Json>),
    Object(Vec<(String, Json)>),
}

/// The value that `key` maps to in a list of object members: the first
/// member with that key.
pub open spec fn member(entries: Seq<(String, Json)>, key: Seq<char>) -> Option<Json>
    decreases entries.len(),
{
    if entries.len() == 0 {
        None
    } else if entries[0].0@ == key {
        Some(entries[0].1)
    } else {
        member(entries.drop_first(), key)
    }
}

/// The value of field `key` of an object; `None` for a missing field or a
/// value that is not an object.
pub open spec fn field(j: Json, key: Seq<char>) -> Option<Json> {
    match j {
        Json::Object(entries) => member(entries@, key),
        _ => None,
    }
}

/// An optional field: a missing field and `null` both stand for "absent".
pub open spec fn optional_field(j: Json, key: Seq<char>) -> Option<Json> {
    match field(j, key) {
        Some(Json::Null) => None,
        other => other,
    }
}

/// What serde_json makes of a text: `None` when the text is no JSON document.
pub uninterp spec fn json_parse(s: Seq<char>) -> Option<Json>;

/// The compact JSON text that serde_json writes for a document.
pub uninterp spec fn json_render(j: Json) -> Seq<char>;

/// Relies on `serde_json::from_str` into `serde_json::Value`: the result
/// depends on the text alone.
#[verifier::external_body]
pub fn parse_json(s: &str) -> (r: Option<Json>)
    ensures
        r == json_parse(s@),
{
    serde_json::from_str::<serde_json::Value>(s).ok().map(json_of_value)
}

/// Relies on `serde_json::to_string` of a `serde_json::Value`: the text
/// depends on the document alone.
#[verifier::external_body]
pub fn render_json(j: &Json) -> (r: String)
    ensures
        r@ == json_render(*j),
{
    serde_json::to_string(&value_of_json(j)).unwrap_or_default()
}

/// serde_json's document tree, carried through the two conversions below.
#[verifier::external_type_specification]
#[verifier::external_body]
pub struct ExValue(serde_json::Value);

/// Converts a `serde_json::Value` into a [`Json`]; object members come in
/// the map's order, by key.
#[verifier::external_body]
fn json_of_value(v: serde_json::Value) -> Json {
    match v {
        serde_json::Value::Null => Json::Null,
        serde_json::Value::Bool(b) => Json::Bool(b),
        serde_json::Value::Number(n) => Json::Number(n.as_i128()),
        serde_json::Value::String(s) => Json::Str(s),
        serde_json::Value::Array(a) => Json::Array(a.into_iter().map(json_of_value).collect()),
        serde_json::Value::Object(m) => Json::Object(
            m.into_iter().map(|(k, x)| (k, json_of_value(x))).collect(),
        ),
    }
}

/// Converts a [`Json`] into a `serde_json::Value`; a number that serde_json
/// cannot hold (not an integer, or outside the `i64`/`u64` range) is written
/// as `null`.
#[verifier::external_body]
fn value_of_json(j: &Json) -> serde_json::Value {
    match j {
        Json::Null => serde_json::Value::Null,
        Json::Bool(b) => serde_json::Value::Bool(*b),
        Json::Number(n) => n.and_then(serde_json::Number::from_i128).map_or(serde_json::Value::Null, serde_json::Value::Number),
        Json::Str(s) => serde_json::Value::String(s.clone()),
        Json::Array(a) => serde_json::Value::Array(a.iter().map(value_of_json).collect()),
        Json::Object(o) => serde_json::Value::Object(o.iter().map(|(k, x)| (k.clone(), value_of_json(x))).collect()),
    }
}


/// An object of the given members, in order; each key is found in it.
pub fn object(keys: Vec<&str>, values: Vec<Json>) -> (r: Json)
    requires
        keys.len() == values.len(),
        forall|a: int, b: int| 0 <= a < b < keys.len() ==> keys[a]@ != keys[b]@,
    ensures
        r is Object,
        forall|k: int| 0 <= k < keys.len() ==> #[trigger] field(r, keys[k]@) == Some(values@[k]),
        forall|key: Seq<char>| (forall|k: int| 0 <= k < keys.len() ==> keys[k]@ != key)
            ==> field(r, key) is None,
{
    let mut entries: Vec<(String, Json)> = Vec::new();
    let mut values = values;
    let ghost vs = values@;
    let n = keys.len();
    let mut i: usize = n;
    // Built back to front, so each value can be taken off the end.
    let mut rev: Vec<(String, Json)> = Vec::new();
    while i > 0
        invariant
            0 <= i <= n,
            n == keys.len(),
            values@ == vs.take(i as int),
            vs.len() == n,
            rev.len() == n - i,
            forall|k: int| 0 <= k < n - i ==> #[trigger] rev@[k].0@ == keys[n - 1 - k]@
                && rev@[k].1 == vs[n - 1 - k],
        decreases i,
    {
        let v = values.pop().unwrap();
        assert(values@ =~= vs.take(i - 1));
        i -= 1;
        rev.push((String::from_str(keys[i]), v));
    }
    let mut j: usize = n;
    while j > 0
        invariant
            0 <= j <= n,
            rev.len() == j,
            n == keys.len(),
            vs.len() == n,
            entries.len() == n - j,
            forall|k: int| 0 <= k < j ==> (#[trigger] rev@[k]).0@ == keys[n - 1 - k]@
                && rev@[k].1 == vs[n - 1 - k],
            forall|k: int| 0 <= k < n - j ==> (#[trigger] entries@[k]).0@ == keys[k]@
                && entries@[k].1 == vs[k],
        decreases j,
    {
        let ghost before = rev@;
        let e = rev.pop().unwrap();
        assert(e == before[j - 1]);
        assert(forall|k: int| 0 <= k < j - 1 ==> rev@[k] == before[k]);
        j -= 1;
        entries.push(e);
    }
    proof {
        assert forall|k: int| 0 <= k < keys.len() implies #[trigger] member(entries@, keys[k]@) == Some(vs[k]) by {
            lemma_member_at(entries@, keys[k]@, k);
        }
        assert forall|key: Seq<char>| (forall|k: int| 0 <= k < keys.len() ==> keys[k]@ != key)
            implies member(entries@, key) is None by {
            lemma_member_absent(entries@, key);
        }
    }
    Json::Object(entries)
}

/// The member at index `k` is found when no earlier member has its key.
proof fn lemma_member_at(entries: Seq<(String, Json)>, key: Seq<char>, k: int)
    requires
        0 <= k < entries.len(),
        entries[k].0@ == key,
        forall|a: int| 0 <= a < k ==> entries[a].0@ != key,
    ensures
        member(entries, key) == Some(entries[k].1),
    decreases k,
{
    if k > 0 {
        assert(entries[0].0@ != key);
        lemma_member_at(entries.drop_first(), key, k - 1);
    }
}

/// A key that no member has is not found.
proof fn lemma_member_absent(entries: Seq<(String, Json)>, key: Seq<char>)
    requires
        forall|a: int| 0 <= a < entries.len() ==> entries[a].0@ != key,
    ensures
        member(entries, key) is None,
    decreases entries.len(),
{
    if entries.len() > 0 {
        assert(entries[0].0@ != key);
        lemma_member_absent(entries.drop_first(), key);
    }
}

/// Looks up field `key` of an object.
pub fn get_field<'a>(j: &'a Json, key: &str) -> (r: Option<&'a Json>)
    ensures
        match r {
            Some(v) => field(*j, key@) == Some(*v),
            None => field(*j, key@) is None,
        },
{
    let wanted = String::from_str(key);
    match j {
        Json::Object(o) => {
            let mut i: usize = 0;
            assert(o@.skip(0) =~= o@);
            while i < o.len()
                invariant
                    0 <= i <= o.len(),
                    *j == Json::Object(*o),
                    wanted@ == key@,
                    field(*j, key@) == member(o@.skip(i as int), key@),
                decreases o.len() - i,
            {
                assert(o@.skip(i as int).drop_first() =~= o@.skip(i + 1));
                assert(o@.skip(i as int)[0] == o@[i as int]);
                if o[i].0 == wanted {
                    assert(o@.skip(i as int).len() > 0);
                    assert(member(o@.skip(i as int), key@) == Some(o@[i as int].1));
                    return Some(&o[i].1);
                }
                i += 1;
            }
            assert(o@.skip(i as int).len() == 0);
            None
        },
        _ => None,
    }
}

/// Takes field `key` out of an object, consuming it.
pub fn take_field(j: Json, key: &str) -> (r: Option<Json>)
    ensures
        r == field(j, key@),
{
    let wanted = String::from_str(key);
    match j {
        Json::Object(o) => {
            let mut o = o;
            let ghost orig = o@;
            let mut i: usize = 0;
            assert(orig.skip(0) =~= orig);
            while i < o.len()
                invariant
                    0 <= i <= o.len(),
                    o@ == orig,
                    wanted@ == key@,
                    field(j, key@) == member(orig.skip(i as int), key@),
                decreases o.len() - i,
            {
                assert(orig.skip(i as int).drop_first() =~= orig.skip(i + 1));
                assert(orig.skip(i as int)[0] == orig[i as int]);
                if o[i].0 == wanted {
                    assert(member(orig.skip(i as int), key@) == Some(orig[i as int].1));
                    let (_, v) = o.remove(i);
                    return Some(v);
                }
                i += 1;
            }
            assert(orig.skip(i as int).len() == 0);
            None
        },
        _ => None,
    }
}

/// Looks up an optional field: `None` for a missing field and for `null`.
pub fn get_optional_field<'a>(j: &'a Json, key: &str) -> (r: Option<&'a Json>)
    ensures
        match r {
            Some(v) => optional_field(*j, key@) == Some(*v),
            None => optional_field(*j, key@) is None,
        },
{
    match get_field(j, key) {
        Some(Json::Null) => None,
        other => other,
    }
}

} // verus!
