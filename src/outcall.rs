//! Outbound HTTP requests and raw responses, as plain values, and the
//! response transform that the host applies before handing a response back.
use vstd::prelude::*;
use vstd::string::*;
use vstd::utf8::*;

verus! {

broadcast use vstd::utf8::decode_utf8_encode_utf8;

/// The HTTP method of an outbound request.
#[derive(Clone, Copy, Debug, PartialEq, Eq, Structural)]
pub enum HttpMethod {
    Get,
    Post,
}

/// One request or response header.
#[derive(Debug)]
pub struct HttpHeader {
    pub name: String,
    pub value: String,
}

/// Everything the host needs to perform one outbound call.
#[derive(Debug)]
pub struct OutboundRequest {
    pub url: String,
    pub method: HttpMethod,
    pub body: Option<Vec<u8>>,
    pub headers: Vec<HttpHeader>,
    /// Hard ceiling on the response size; a larger response fails the call.
    pub max_response_bytes: Option<u64>,
    /// Name of the registered response transform to apply, if any.
    pub transform: Option<String>,
    /// Execution budget granted to the call.
    pub cycles: u128,
}

/// A response as the transport delivers it.
#[derive(Debug)]
pub struct RawResponse {
    pub status: u64,
    pub body: Vec<u8>,
    pub headers: Vec<HttpHeader>,
}

/// A failure of the transport itself, with its diagnostic message.
#[derive(Debug)]
pub struct TransportError {
    pub message: String,
}

/// The message of the error that `String::from_utf8` reports for bytes that
/// are not UTF-8.
pub uninterp spec fn utf8_error_text(bytes: Seq<u8>) -> Seq<char>;

/// Relies on `String::from_utf8`: it succeeds exactly on well-formed UTF-8
/// and then holds the decoded characters; otherwise its error's message,
/// which depends on the bytes alone, is handed back.
#[verifier::external_body]
pub(crate) fn utf8_text(bytes: Vec<u8>) -> (r: Result<String, String>)
    ensures
        r is Ok <==> valid_utf8(bytes@),
        r matches Ok(s) ==> s@ == decode_utf8(bytes@),
        r matches Err(m) ==> m@ == utf8_error_text(bytes@),
{
    String::from_utf8(bytes).map_err(|e| e.to_string())
}

/// The view of a response: status, body and number of headers.
pub open spec fn response_view(r: RawResponse) -> (u64, Seq<u8>, int) {
    (r.status, r.body@, r.headers@.len() as int)
}

/// What the transform makes of a response with the given status and a UTF-8
/// body: the same status, the body re-encoded from its text, and no headers.
pub open spec fn transformed(status: u64, body: Seq<u8>) -> (u64, Seq<u8>, int)
    recommends
        valid_utf8(body),
{
    (status, encode_utf8(decode_utf8(body)), 0)
}

/// The response transform, registered with the host under a stable name.
/// It re-encodes the body from its UTF-8 text and drops every header. The
/// host aborts a call whose body is not UTF-8 before it gets here.
pub fn transform(raw: RawResponse) -> (r: RawResponse)
    requires
        valid_utf8(raw.body@),
    ensures
        response_view(r) == transformed(raw.status, raw.body@),
        r.status == raw.status,
        r.body@ == raw.body@,
        r.headers@.len() == 0,
{
    let status = raw.status;
    match utf8_text(raw.body) {
        Ok(text) => {
            let bytes = text.as_str().as_bytes_vec();
            RawResponse { status, body: bytes, headers: Vec::new() }
        },
        Err(_) => unreached(),
    }
}

/// The transform is idempotent: on a UTF-8 body its output has a UTF-8 body
/// again, and transforming that output gives the output itself.
pub proof fn lemma_transform_idempotent(status: u64, body: Seq<u8>)
    requires
        valid_utf8(body),
    ensures
        valid_utf8(transformed(status, body).1),
        ({
            let once = transformed(status, body);
            transformed(once.0, once.1) == once
        }),
{
}

} // verus!
