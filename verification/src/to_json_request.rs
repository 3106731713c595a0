use vstd::prelude::*;
use vstd::pervasive::unreached;

use crate::document::{json_bytes_of, to_json_vec};
use crate::message::{dec_of, decimal_bytes, map_has, map_insert, HeaderMap, Request};

verus! {

/// The name of the length header, in its lower-case form.
pub open spec fn content_length_name() -> Seq<u8> {
    seq![99u8, 111u8, 110u8, 116u8, 101u8, 110u8, 116u8, 45u8, 108u8, 101u8, 110u8, 103u8, 116u8, 104u8]
}

/// The name of the content-type header, in its lower-case form.
pub open spec fn content_type_header() -> Seq<u8> {
    seq![99u8, 111u8, 110u8, 116u8, 101u8, 110u8, 116u8, 45u8, 116u8, 121u8, 112u8, 101u8]
}

/// The content-type value for a document body.
pub open spec fn json_content_type() -> Seq<u8> {
    seq![97u8, 112u8, 112u8, 108u8, 105u8, 99u8, 97u8, 116u8, 105u8, 111u8, 110u8, 47u8, 106u8, 115u8, 111u8, 110u8]
}

/// The length header name as bytes.
pub fn content_length_name_bytes() -> (r: Vec<u8>)
    ensures
        r@ == content_length_name(),
{
    let mut v: Vec<u8> = Vec::new();
    v.push(99);
    v.push(111);
    v.push(110);
    v.push(116);
    v.push(101);
    v.push(110);
    v.push(116);
    v.push(45);
    v.push(108);
    v.push(101);
    v.push(110);
    v.push(103);
    v.push(116);
    v.push(104);
    proof {
        assert(v@ =~= content_length_name());
    }
    v
}

/// The content-type header name as bytes.
pub fn content_type_header_bytes() -> (r: Vec<u8>)
    ensures
        r@ == content_type_header(),
{
    let mut v: Vec<u8> = Vec::new();
    v.push(99);
    v.push(111);
    v.push(110);
    v.push(116);
    v.push(101);
    v.push(110);
    v.push(116);
    v.push(45);
    v.push(116);
    v.push(121);
    v.push(112);
    v.push(101);
    proof {
        assert(v@ =~= content_type_header());
    }
    v
}

/// The content-type value for a document body, as bytes.
pub fn json_content_type_bytes() -> (r: Vec<u8>)
    ensures
        r@ == json_content_type(),
{
    let mut v: Vec<u8> = Vec::new();
    v.push(97);
    v.push(112);
    v.push(112);
    v.push(108);
    v.push(105);
    v.push(99);
    v.push(97);
    v.push(116);
    v.push(105);
    v.push(111);
    v.push(110);
    v.push(47);
    v.push(106);
    v.push(115);
    v.push(111);
    v.push(110);
    proof {
        assert(v@ =~= json_content_type());
    }
    v
}

/// The header section of an encoded request: a length header giving the
/// body's byte count in decimal is added only where none was present, and a
/// content-type header likewise; headers already present are left alone.
pub open spec fn with_content_headers(
    h: Seq<(Seq<u8>, Seq<u8>)>,
    len: nat,
) -> Seq<(Seq<u8>, Seq<u8>)> {
    let with_length = if map_has(h, content_length_name()) {
        h
    } else {
        map_insert(h, content_length_name(), dec_of(len))
    };
    if map_has(with_length, content_type_header()) {
        with_length
    } else {
        map_insert(with_length, content_type_header(), json_content_type())
    }
}

/// Completes an encoded request from its serialized body: the body is taken
/// as is, and the standard metadata headers are filled in only where absent.
/// This step is exact for every serialized body.
pub fn finish_json_request(headers: HeaderMap, body: Vec<u8>) -> (r: Request<Vec<u8>>)
    ensures
        r.body@ == body@,
        r.headers@ == with_content_headers(headers@, body@.len()),
{
    let mut headers = headers;
    let length_name = content_length_name_bytes();
    if !headers.contains_name(&length_name) {
        let rendered = decimal_bytes(body.len() as u64);
        headers.insert(length_name, rendered);
    }
    let type_header = content_type_header_bytes();
    if !headers.contains_name(&type_header) {
        headers.insert(type_header, json_content_type_bytes());
    }
    Request { headers, body }
}

/// Serializes a document-valued request body and sets the standard
/// metadata headers where none are present. Purely synchronous: no state
/// machine, no suspension point. A document value always serializes, so
/// the encoding always succeeds: the body is the document's text and the
/// headers are the input headers with the two defaults filled in.
pub fn to_json_request(request: Request<serde_json::Value>) -> (r: Result<Request<Vec<u8>>, String>)
    ensures
        r matches Ok(out) && out.body@ == json_bytes_of(request.body) && out.headers@
            == with_content_headers(request.headers@, out.body@.len()),
{
    let Request { headers, body } = request;
    match to_json_vec(&body) {
        Ok(bytes) => Ok(finish_json_request(headers, bytes)),
        Err(_) => unreached(),
    }
}

} // verus!
