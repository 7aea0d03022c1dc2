//! The boundary to the HTTP transport invoker.
//!
//! The outbound call itself is performed outside the library; what it hands
//! back — or that it failed — arrives as a plain [`TransportReply`] value.
//! Before a snapshot goes out, [`validate_outbound`] checks exactly what
//! building the wire request would check: a recognized method token, a
//! parseable URL, and header names and values fit for transmission.  A
//! snapshot that fails any of these fails the whole operation with a
//! transport error; no partial header set is sent.

use vstd::prelude::*;

use crate::entity::RawHttpRequest;
use crate::error::Error;
use crate::foreign::{
    header_name_valid, header_value_valid, header_name_ok, header_value_ok, method_ok,
    method_token_valid, url_ok, url_valid,
};

verus! {

/// What the transport hands back on success: the negotiated protocol
/// version label, the numeric status, the response headers, the declared
/// content type if any, the body text, and the wall-clock instants
/// immediately before the call was issued and immediately after the
/// response was fully received.
#[derive(Debug, PartialEq, Eq)]
pub struct TransportReply {
    pub version: String,
    pub status_code: u16,
    pub headers: Vec<(String, String)>,
    /// The `Content-Type` header's value, if the response carried one.
    pub content_type: Option<String>,
    pub body_text: String,
    /// Wall-clock milliseconds taken immediately before issuing the call.
    pub request_time: i64,
    /// Wall-clock milliseconds taken immediately after the response was
    /// fully received.
    pub response_time: i64,
}

impl TransportReply {
    /// The timestamps were taken in order: the response instant is not
    /// before the request instant.
    pub open spec fn wf(self) -> bool {
        self.response_time >= self.request_time
    }
}

/// True of a snapshot that can be put on the wire: recognized method,
/// parseable URL, and every header pair valid for transmission.
pub open spec fn transportable(r: RawHttpRequest) -> bool {
    &&& method_ok(r.method@)
    &&& url_ok(r.url@)
    &&& forall|i: int|
        0 <= i < r.headers.deep_view().len() ==> header_name_ok(
            (#[trigger] r.headers.deep_view()[i]).0,
        ) && header_value_ok(r.headers.deep_view()[i].1)
}

/// Checks that a materialized snapshot can be put on the wire, as building
/// the outbound request would; an unrecognized method, an unparseable URL
/// or an untransmittable header fails the whole operation.
pub fn validate_outbound(r: &RawHttpRequest) -> (res: Result<(), Error>)
    ensures
        res is Ok <==> transportable(*r),
        res matches Err(e) ==> e is TransportError,
{
    if !method_token_valid(r.method.as_str()) {
        return Err(Error::TransportError("unrecognized http method token".to_owned()));
    }
    if !url_valid(r.url.as_str()) {
        return Err(Error::TransportError("the materialized url cannot be parsed".to_owned()));
    }
    let ghost hs = r.headers.deep_view();
    let mut i: usize = 0;
    while i < r.headers.len()
        invariant
            hs == r.headers.deep_view(),
            i <= hs.len(),
            method_ok(r.method@),
            url_ok(r.url@),
            forall|k: int|
                0 <= k < i ==> header_name_ok((#[trigger] hs[k]).0) && header_value_ok(hs[k].1),
        decreases hs.len() - i,
    {
        proof {
            assert(hs[i as int] == (r.headers@[i as int].0@, r.headers@[i as int].1@));
        }
        if !header_name_valid(r.headers[i].0.as_str()) {
            return Err(Error::TransportError("a header name cannot go on the wire".to_owned()));
        }
        if !header_value_valid(r.headers[i].1.as_str()) {
            return Err(Error::TransportError("a header value cannot go on the wire".to_owned()));
        }
        i = i + 1;
    }
    Ok(())
}

} // verus!
