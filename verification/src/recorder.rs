//! The raw exchange recorder.
//!
//! Decodes what the transport handed back into a [`RawHttpResponse`]
//! snapshot ready for persistence.  The `Content-Type` header decides the
//! body's shape: if it contains `application/json` the body text is parsed
//! and stored as a structured document, otherwise the raw text is stored
//! wrapped as a string value.  A missing `Content-Type`, a status code
//! without a canonical reason, or an undeclared-invalid JSON body is a
//! decoding precondition violation and fails the operation.

use vstd::prelude::*;

use crate::entity::{clone_string_pairs, RawHttpResponse};
use crate::error::{DecodeFault, Error};
use crate::foreign::{canonical_reason, json_from_text, json_of, reason_of};
use crate::json::{JsonValue, JsonView};

verus! {

/// True when `n` stands somewhere inside `h`.
pub open spec fn contains_sub(h: Seq<char>, n: Seq<char>) -> bool {
    exists|off: int|
        0 <= off && off + n.len() <= h.len() && #[trigger] h.subrange(off, off + n.len() as int)
            == n
}

/// A content type that declares a JSON body: it contains the substring
/// `application/json`.
pub open spec fn is_json_content(ct: Seq<char>) -> bool {
    contains_sub(ct, "application/json"@)
}

/// Whether `n` stands somewhere inside `h`.
pub fn str_contains(h: &str, n: &str) -> (b: bool)
    ensures
        b == contains_sub(h@, n@),
{
    let hl = h.unicode_len();
    let nl = n.unicode_len();
    if nl > hl {
        return false;
    }
    let mut off: usize = 0;
    while off <= hl - nl
        invariant
            nl <= hl,
            hl == h@.len(),
            nl == n@.len(),
            off <= hl - nl + 1,
            forall|o: int|
                0 <= o < off ==> #[trigger] h@.subrange(o, o + nl as int) != n@,
        decreases hl - off,
    {
        let mut j: usize = 0;
        while j < nl && h.get_char(off + j) == n.get_char(j)
            invariant
                nl <= hl,
                hl == h@.len(),
                nl == n@.len(),
                off + nl <= hl,
                j <= nl,
                forall|k: int| 0 <= k < j ==> h@[off + k] == n@[k],
            decreases nl - j,
        {
            j = j + 1;
        }
        if j == nl {
            proof {
                assert(h@.subrange(off as int, off as int + nl as int) =~= n@);
            }
            return true;
        }
        proof {
            assert(h@.subrange(off as int, off as int + nl as int)[j as int] == h@[off + j]);
            assert(h@.subrange(off as int, off as int + nl as int) != n@);
        }
        off = off + 1;
    }
    false
}

/// The reason decoding a reply must fail, if it must: a missing
/// `Content-Type`, a status code without a canonical reason, or a declared
/// JSON body that does not parse — checked in that order.
pub open spec fn decode_fault_of(reply: crate::transport::TransportReply) -> Option<DecodeFault> {
    if reply.content_type is None {
        Some(DecodeFault::MissingContentType)
    } else if reason_of(reply.status_code) is None {
        Some(DecodeFault::UnknownStatusCode)
    } else if is_json_content(reply.content_type->0@) && json_of(reply.body_text@) is None {
        Some(DecodeFault::InvalidJsonBody)
    } else {
        None
    }
}

/// What a decoded response snapshot holds under the given row identifier:
/// the reply's version and headers verbatim, its status code with the
/// canonical reason phrase, and the body parsed as JSON exactly when the
/// content type declares it, otherwise wrapped as a string value.
pub open spec fn decoded_response(
    reply: crate::transport::TransportReply,
    resp: RawHttpResponse,
    id: u64,
) -> bool {
    &&& resp.id == id
    &&& resp.version@ == reply.version@
    &&& resp.status_code == reply.status_code
    &&& Some(resp.status_message@) == reason_of(reply.status_code)
    &&& resp.headers.deep_view() == reply.headers.deep_view()
    &&& resp.body.deep_view() == if is_json_content(reply.content_type->0@) {
        json_of(reply.body_text@)->0
    } else {
        JsonView::Str(reply.body_text@)
    }
}

/// Decodes a transport reply into a response snapshot with the identifier
/// still unassigned: version and headers are kept verbatim, the reason
/// phrase comes from the canonical registry, and the body is parsed as JSON
/// exactly when the content type declares it.
pub fn make_response(reply: &crate::transport::TransportReply) -> (r: Result<
    RawHttpResponse,
    Error,
>)
    ensures
        match decode_fault_of(*reply) {
            Some(f) => r == Err::<RawHttpResponse, Error>(Error::DecodingPrecondition(f)),
            None => r matches Ok(resp) && decoded_response(*reply, resp, 0),
        },
{
    let ct = match &reply.content_type {
        None => {
            return Err(Error::DecodingPrecondition(DecodeFault::MissingContentType));
        },
        Some(c) => c,
    };
    let reason = match canonical_reason(reply.status_code) {
        None => {
            return Err(Error::DecodingPrecondition(DecodeFault::UnknownStatusCode));
        },
        Some(s) => s,
    };
    let is_json = str_contains(ct.as_str(), "application/json");
    let body = if is_json {
        match json_from_text(reply.body_text.as_str()) {
            None => {
                return Err(Error::DecodingPrecondition(DecodeFault::InvalidJsonBody));
            },
            Some(doc) => doc,
        }
    } else {
        JsonValue::Str(reply.body_text.clone())
    };
    Ok(
        RawHttpResponse {
            id: 0,
            version: reply.version.clone(),
            status_code: reply.status_code,
            status_message: reason,
            headers: clone_string_pairs(&reply.headers),
            body,
        },
    )
}

} // verus!
