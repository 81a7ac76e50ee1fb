use vstd::prelude::*;

verus! {

#[verifier::external_type_specification]
#[verifier::external_body]
pub struct ExValue(serde_json::Value);

/// What `serde_json::from_slice::<serde_json::Value>` makes of some bytes:
/// `None` when they are not one JSON document, `Some(None)` for a document
/// that is not an array, `Some(Some(n))` for an array of `n` values.
pub uninterp spec fn json_shape(b: Seq<u8>) -> Option<Option<nat>>;

/// A page's body as the engine reads it.
#[derive(Debug)]
pub enum PageBody {
    /// A JSON array, with its values in order.
    Items(Vec<serde_json::Value>),
    /// JSON, but not an array.
    NotArray,
    /// Not JSON.
    Malformed,
}

/// Relies on `serde_json::from_slice` into a `serde_json::Value`: whether the
/// bytes are JSON, and whether an array and of how many values, depends on
/// the bytes alone.
#[verifier::external_body]
pub(crate) fn parse_page(body: &[u8]) -> (r: PageBody)
    ensures
        match r {
            PageBody::Items(v) => json_shape(body@) == Option::Some(Option::Some(v@.len())),
            PageBody::NotArray => json_shape(body@) == Option::Some(Option::<nat>::None),
            PageBody::Malformed => json_shape(body@) == Option::<Option<nat>>::None,
        },
{
    match serde_json::from_slice::<serde_json::Value>(body) {
        Ok(serde_json::Value::Array(items)) => PageBody::Items(items),
        Ok(_) => PageBody::NotArray,
        Err(_) => PageBody::Malformed,
    }
}

} // verus!
