use vstd::prelude::*;

use crate::value::{Val, ValModel};

verus! {

#[verifier::external_type_specification]
#[verifier::external_body]
pub struct ExValue(serde_json::Value);

/// The pipeline's record value for one value of the JSON crate: a function
/// of that value alone. Named, since the value is opaque here.
pub uninterp spec fn json_model(v: serde_json::Value) -> ValModel;

/// Converts one value of the JSON crate into the pipeline's own record
/// value, variant by variant. Relies on serde_json::Value's public
/// variants; a number keeps the canonical decimal text that
/// serde_json::Number renders, so the result is a function of the value
/// alone.
#[verifier::external_body]
pub(crate) fn value_of_json(v: serde_json::Value) -> (r: Val)
    ensures
        r@ == json_model(v),
{
    match v {
        serde_json::Value::Null => Val::Null,
        serde_json::Value::Bool(b) => Val::Bool(b),
        serde_json::Value::Number(n) => Val::Num(n.to_string()),
        serde_json::Value::String(s) => Val::Str(s),
        serde_json::Value::Array(a) => Val::Arr(a.into_iter().map(value_of_json).collect()),
        serde_json::Value::Object(m) => Val::Obj(
            m.into_iter().map(|(k, x)| (k, value_of_json(x))).collect(),
        ),
    }
}

/// Converts one of the pipeline's record values into a value of the JSON
/// crate, variant by variant; the JSON crate's serializers consume it. The
/// canonical decimal text of a number is read back as a number.
#[verifier::external_body]
pub(crate) fn json_of_value(v: &Val) -> serde_json::Value {
    match v {
        Val::Null => serde_json::Value::Null,
        Val::Bool(b) => serde_json::Value::Bool(*b),
        Val::Num(t) => match serde_json::from_str::<serde_json::Number>(t) {
            Ok(n) => serde_json::Value::Number(n),
            Err(_) => serde_json::Value::String(t.clone()),
        },
        Val::Str(s) => serde_json::Value::String(s.clone()),
        Val::Arr(items) => serde_json::Value::Array(items.iter().map(json_of_value).collect()),
        Val::Obj(fields) => serde_json::Value::Object(
            fields.iter().map(|(k, x)| (k.clone(), json_of_value(x))).collect(),
        ),
    }
}

/// What parsing a JSON text yields, as a record value: a function of the
/// text alone. The grammar lives in the JSON crate and is named here, not
/// spelled out.
pub uninterp spec fn parsed_json(text: Seq<char>) -> Option<ValModel>;

/// Parses one JSON text. Relies on serde_json::from_str: parsing is
/// deterministic, and fails exactly where the text is not one JSON value.
#[verifier::external_body]
pub(crate) fn parse_json(text: &str) -> (r: Option<Val>)
    ensures
        match r {
            Some(v) => parsed_json(text@) == Some(v@),
            None => parsed_json(text@) is None,
        },
{
    match serde_json::from_str::<serde_json::Value>(text) {
        Ok(v) => Some(value_of_json(v)),
        Err(_) => None,
    }
}

/// Converts a window of raw database rows into the pipeline's record
/// values, one for each row, in order.
pub fn convert_rows(rows: Vec<serde_json::Value>) -> (r: Vec<Val>)
    ensures
        r@.len() == rows@.len(),
        forall|i: int| 0 <= i < rows@.len() ==> #[trigger] r@[i]@ == json_model(rows@[i]),
{
    let ghost orig = rows@;
    let mut rows = rows;
    let mut out: Vec<Val> = Vec::new();
    while rows.len() > 0
        invariant
            out@.len() + rows@.len() == orig.len(),
            rows@ =~= orig.subrange(out@.len() as int, orig.len() as int),
            forall|j: int| 0 <= j < out@.len() ==> #[trigger] out@[j]@ == json_model(orig[j]),
        decreases rows@.len(),
    {
        let v = rows.remove(0);
        out.push(value_of_json(v));
    }
    out
}

} // verus!
