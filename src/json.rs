//! A plain model of a JSON document and the lookups that the model listing needs.
use vstd::prelude::*;

verus! {

/// A JSON value as plain data. Numbers keep their decimal text.
#[derive(Debug)]
pub enum Json {
    Null,
    Bool(bool),
    Number(String),
    Str(String),
    Array(Vec<Json>),
    Object(Vec<Member>),
}

/// One member of a JSON object.
#[derive(Debug)]
pub struct Member {
    pub key: String,
    pub value: Json,
}

/// The value stored under `key` in the members of an object: the first member
/// with that key, as in a map whose keys are unique.
pub open spec fn member(fields: Seq<Member>, key: Seq<char>) -> Option<Json>
    decreases fields.len(),
{
    if fields.len() == 0 {
        None
    } else if fields[0].key@ == key {
        Some(fields[0].value)
    } else {
        member(fields.drop_first(), key)
    }
}

/// `v[key]` where `v` is an object holding `key`; `None` otherwise.
pub open spec fn json_get(v: Json, key: Seq<char>) -> Option<Json> {
    match v {
        Json::Object(fields) => member(fields@, key),
        _ => None,
    }
}

/// What serde_json makes of `bytes`: the document, or `None` where they are not JSON.
pub uninterp spec fn parsed_json(bytes: Seq<u8>) -> Option<Json>;

/// Relies on serde_json::from_slice::<serde_json::Value>: it reads the bytes as one
/// JSON document and fails where they are not one; the outcome depends on the bytes alone.
#[verifier::external_body]
pub(crate) fn parse_json(bytes: &[u8]) -> (r: Result<Json, String>)
    ensures
        r is Ok <==> parsed_json(bytes@) is Some,
        r is Ok ==> parsed_json(bytes@) == Some(r->Ok_0),
{
    match serde_json::from_slice::<serde_json::Value>(bytes) {
        Ok(v) => Ok(json_from_value(v)),
        Err(e) => Err(e.to_string()),
    }
}

/// serde_json's document type, carried through opaquely into `json_from_value`.
#[verifier::external_type_specification]
#[verifier::external_body]
pub struct ExValue(serde_json::Value);

/// Moves a serde_json::Value into the library's own model, variant by variant.
#[verifier::external_body]
fn json_from_value(v: serde_json::Value) -> Json {
    match v {
        serde_json::Value::Null => Json::Null,
        serde_json::Value::Bool(b) => Json::Bool(b),
        serde_json::Value::Number(n) => Json::Number(n.to_string()),
        serde_json::Value::String(s) => Json::Str(s),
        serde_json::Value::Array(a) => Json::Array(a.into_iter().map(json_from_value).collect()),
        serde_json::Value::Object(o) => Json::Object(
            o.into_iter().map(|(key, x)| Member { key, value: json_from_value(x) }).collect(),
        ),
    }
}

/// `v[key]`: the value stored under `key` when `v` is an object that holds it.
pub fn get<'a>(v: &'a Json, key: &str) -> (r: Option<&'a Json>)
    ensures
        r is Some ==> json_get(*v, key@) == Some(*r->Some_0),
        r is None ==> json_get(*v, key@) is None,
{
    match v {
        Json::Object(fields) => {
            let mut i: usize = 0;
            assert(json_get(*v, key@) == member(fields@, key@));
            assert(fields@.skip(0) == fields@);
            while i < fields.len()
                invariant
                    0 <= i <= fields@.len(),
                    json_get(*v, key@) == member(fields@, key@),
                    member(fields@, key@) == member(fields@.skip(i as int), key@),
                decreases fields.len() - i,
            {
                assert(fields@.skip(i as int).drop_first() == fields@.skip(i + 1));
                assert(fields@.skip(i as int)[0] == fields@[i as int]);
                if str_eq(fields[i].key.as_str(), key) {
                    let found = &fields[i].value;
                    assert(member(fields@, key@) == Some(*found));
                    return Some(found);
                }
                i = i + 1;
            }
            None
        },
        _ => None,
    }
}

/// Whether two strings hold the same characters.
pub fn str_eq(a: &str, b: &str) -> (r: bool)
    ensures
        r == (a@ == b@),
{
    let n = a.unicode_len();
    if n != b.unicode_len() {
        return false;
    }
    let mut i: usize = 0;
    while i < n
        invariant
            n == a@.len() == b@.len(),
            0 <= i <= n,
            a@.subrange(0, i as int) == b@.subrange(0, i as int),
        decreases n - i,
    {
        if a.get_char(i) != b.get_char(i) {
            return false;
        }
        assert(a@.subrange(0, i + 1) == a@.subrange(0, i as int).push(a@[i as int]));
        assert(b@.subrange(0, i + 1) == b@.subrange(0, i as int).push(b@[i as int]));
        i = i + 1;
    }
    assert(a@ == a@.subrange(0, n as int));
    assert(b@ == b@.subrange(0, n as int));
    true
}

} // verus!
