use vstd::prelude::*;

verus! {

/// The members of the JSON object `s`, in ascending key order, when `s` is an
/// object whose members all hold strings.
pub uninterp spec fn json_string_map(s: Seq<char>) -> Option<Seq<(Seq<char>, Seq<char>)>>;

/// The JSON string literal that stands for `s`: quoted, with escapes.
pub uninterp spec fn json_quoted(s: Seq<char>) -> Seq<char>;

/// Whether `b` is one JSON document.
pub uninterp spec fn json_valid(b: Seq<u8>) -> bool;

/// The text of the member `key` of the JSON document `b`, when `b` is an
/// object whose member `key` holds a string.
pub uninterp spec fn json_text_member(b: Seq<u8>, key: Seq<char>) -> Option<Seq<char>>;

pub open spec fn pair_texts(v: Seq<(String, String)>) -> Seq<(Seq<char>, Seq<char>)> {
    v.map_values(|p: (String, String)| (p.0@, p.1@))
}

/// A parsed JSON document, carried through as it is: nothing here reads
/// inside it but serde_json.
#[verifier::external_type_specification]
#[verifier::external_body]
pub struct ExValue(serde_json::Value);

/// Relies on `serde_json::from_str` into a `BTreeMap<String, String>`: it
/// accepts exactly the JSON objects whose members all hold strings; the map
/// hands its members out in ascending key order. The error is serde_json's
/// description of what went wrong.
#[verifier::external_body]
pub(crate) fn parse_string_map(s: &str) -> (r: Result<Vec<(String, String)>, String>)
    ensures
        r is Ok <==> json_string_map(s@) is Some,
        r is Ok ==> Some(pair_texts(r->Ok_0@)) == json_string_map(s@),
{
    match serde_json::from_str::<std::collections::BTreeMap<String, String>>(s) {
        Ok(m) => Ok(m.into_iter().collect()),
        Err(e) => Err(e.to_string()),
    }
}

/// Relies on `serde_json::to_string` of a `str`: it writes the quoted,
/// escaped string into a `String`, which cannot fail.
#[verifier::external_body]
pub(crate) fn quote(s: &str) -> (r: String)
    ensures
        r@ == json_quoted(s@),
{
    serde_json::to_string(s).unwrap_or_default()
}

/// Relies on `serde_json::from_slice` into a `serde_json::Value`: it succeeds
/// exactly on one JSON document. The error is serde_json's description.
#[verifier::external_body]
pub(crate) fn parse_value(b: &[u8]) -> (r: Result<serde_json::Value, String>)
    ensures
        r is Ok <==> json_valid(b@),
{
    serde_json::from_slice::<serde_json::Value>(b).map_err(|e| e.to_string())
}

/// Relies on `serde_json::to_vec` of a `serde_json::Value`: the keys of a
/// `Value` map are strings and the output is a `Vec`, so it cannot fail.
#[verifier::external_body]
pub(crate) fn value_bytes(v: &serde_json::Value) -> (r: Vec<u8>) {
    serde_json::to_vec(v).unwrap_or_default()
}

/// Relies on `serde_json::from_slice` into a `serde_json::Value`, then
/// `Value::get` with `key`: the document's member `key` when it is a string.
/// The call fails exactly when `b` is no JSON document.
#[verifier::external_body]
pub(crate) fn text_member(b: &[u8], key: &str) -> (r: Result<Option<String>, ()>)
    ensures
        r is Ok <==> json_valid(b@),
        r is Ok ==> match r->Ok_0 {
            Some(t) => json_text_member(b@, key@) == Some(t@),
            None => json_text_member(b@, key@) is None,
        },
{
    let doc: serde_json::Value = match serde_json::from_slice(b) {
        Ok(v) => v,
        Err(_) => return Err(()),
    };
    match doc.get(key) {
        Some(serde_json::Value::String(t)) => Ok(Some(t.clone())),
        _ => Ok(None),
    }
}

} // verus!
