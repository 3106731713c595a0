use vstd::prelude::*;

verus! {

#[verifier::external_type_specification]
#[verifier::external_body]
pub struct ExValue(serde_json::Value);

/// Whether a byte sequence is one complete, well-formed document — a
/// property of the bytes alone.
pub uninterp spec fn json_wf(bytes: Seq<u8>) -> bool;

/// Relies on serde_json::from_slice: it deserializes one document and then
/// requires the rest of the input to be blank, so for an ordinary target
/// type a success means the input was accepted as one complete, well-formed
/// document. A failure is handed back as the parser's diagnostic, rendered
/// as text.
#[verifier::external_body]
pub fn parse_json<T: serde::de::DeserializeOwned>(buf: &Vec<u8>) -> (r: Result<T, String>)
    ensures
        r is Ok ==> json_wf(buf@),
{
    serde_json::from_slice(buf.as_slice()).map_err(|e| e.to_string())
}

/// The text that serializing a document value produces — a function of the
/// value alone.
pub uninterp spec fn json_bytes_of(v: serde_json::Value) -> Seq<u8>;

/// Relies on serde_json::to_vec: serializing a document value into a byte
/// vector cannot fail — the writer is a vector, so no write error arises,
/// and a document value keys its maps by strings and holds only finite
/// numbers, so the serializer has no failing path — and the bytes produced
/// are a function of the value alone.
#[verifier::external_body]
pub fn to_json_vec(value: &serde_json::Value) -> (r: Result<Vec<u8>, String>)
    ensures
        r is Ok,
        r matches Ok(b) ==> b@ == json_bytes_of(*value),
{
    serde_json::to_vec(value).map_err(|e| e.to_string())
}

} // verus!
