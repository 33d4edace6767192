//! The members of a JSON object, as the decoder reads them.
use vstd::prelude::*;

verus! {

/// A member's value, reduced to what the decoder distinguishes.
///
/// A number is held as the bit pattern of the 64-bit IEEE float that it reads
/// as; arrays and objects are told apart from the scalars but not opened.
#[derive(Clone, Debug)]
pub enum JsonScalar {
    Null,
    Bool(bool),
    Number(u64),
    Text(String),
    Array,
    Object,
}

/// The mathematical value of a [`JsonScalar`].
pub ghost enum ScalarModel {
    Null,
    Bool(bool),
    Number(u64),
    Text(Seq<char>),
    Array,
    Object,
}

impl View for JsonScalar {
    type V = ScalarModel;

    open spec fn view(&self) -> ScalarModel {
        match self {
            JsonScalar::Null => ScalarModel::Null,
            JsonScalar::Bool(b) => ScalarModel::Bool(*b),
            JsonScalar::Number(n) => ScalarModel::Number(*n),
            JsonScalar::Text(s) => ScalarModel::Text(s@),
            JsonScalar::Array => ScalarModel::Array,
            JsonScalar::Object => ScalarModel::Object,
        }
    }
}

/// The members of an object, each key with the model of its value.
pub type Members = Seq<(Seq<char>, ScalarModel)>;

pub open spec fn members_view(ms: Seq<(String, JsonScalar)>) -> Members {
    ms.map_values(|m: (String, JsonScalar)| (m.0@, m.1@))
}

/// The members of the JSON object that a byte buffer holds, or `None` where
/// the buffer is not one well-formed JSON object.
pub uninterp spec fn json_members_of(b: Seq<u8>) -> Option<Members>;

/// Relies on `serde_json::from_slice` into a `serde_json::Map`: it parses the
/// buffer as one JSON object and yields its members, or fails with serde_json's
/// message; whether it fails, and which members it yields, depends on the
/// bytes alone.
#[verifier::external_body]
pub(crate) fn parse_members(bytes: &[u8]) -> (r: Result<Vec<(String, JsonScalar)>, String>)
    ensures
        r is Err <==> json_members_of(bytes@) is None,
        r matches Ok(ms) ==> json_members_of(bytes@) == Some(members_view(ms@)),
{
    let m: serde_json::Map<String, serde_json::Value> = 
        serde_json::from_slice(bytes).map_err(|e| e.to_string())?;
    Ok(m.into_iter().map(|(k, v)| (k, match v {
        serde_json::Value::Null => JsonScalar::Null,
        serde_json::Value::Bool(b) => JsonScalar::Bool(b),
        serde_json::Value::Number(n) => JsonScalar::Number(n.as_f64().unwrap_or_default().to_bits()),
        serde_json::Value::String(s) => JsonScalar::Text(s),
        serde_json::Value::Array(_) => JsonScalar::Array,
        serde_json::Value::Object(_) => JsonScalar::Object,
    })).collect())
}

/// The value of the first member whose key is `k`.
pub open spec fn value_at(ms: Members, k: Seq<char>) -> Option<ScalarModel>
    decreases ms.len(),
{
    if ms.len() == 0 {
        None
    } else if ms[0].0 == k {
        Some(ms[0].1)
    } else {
        value_at(ms.drop_first(), k)
    }
}

/// The value under the first of `keys`, in their order, that some member has.
pub open spec fn lookup(ms: Members, keys: Seq<Seq<char>>) -> Option<ScalarModel>
    decreases keys.len(),
{
    if keys.len() == 0 {
        None
    } else {
        match value_at(ms, keys[0]) {
            Some(v) => Some(v),
            None => lookup(ms, keys.drop_first()),
        }
    }
}

/// Whether two strings hold the same characters.
pub fn same_text(a: &str, b: &str) -> (r: bool)
    ensures
        r == (a@ == b@),
{
    a.to_owned() == b.to_owned()
}

/// The index of the first member whose key is `k`.
pub fn position_of(ms: &Vec<(String, JsonScalar)>, k: &str) -> (r: Option<usize>)
    ensures
        match r {
            Some(i) => i < ms@.len() && value_at(members_view(ms@), k@) == Some(ms@[i as int].1@),
            None => value_at(members_view(ms@), k@) is None,
        },
{
    let ghost all = members_view(ms@);
    let mut i: usize = 0;
    assert(all.skip(0) =~= all);
    while i < ms.len()
        invariant
            i <= ms@.len(),
            all == members_view(ms@),
            value_at(all, k@) == value_at(all.skip(i as int), k@),
        decreases ms@.len() - i,
    {
        let ghost rest = all.skip(i as int);
        assert(rest[0] == all[i as int]);
        if same_text(ms[i].0.as_str(), k) {
            return Some(i);
        }
        assert(rest.drop_first() =~= all.skip(i + 1));
        i = i + 1;
    }
    assert(all.skip(i as int).len() == 0);
    None
}

} // verus!
