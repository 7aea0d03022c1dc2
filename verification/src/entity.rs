//! The records of the execution pipeline.
//!
//! A [`Request`] is a stored, reusable description of an HTTP call.  A
//! [`RawHttpRequest`] and a [`RawHttpResponse`] are immutable wire-level
//! snapshots captured at execution time, and an [`Execution`] links one
//! request snapshot to one response snapshot with timing.  Identifiers and
//! timestamps are held as plain integers: a definition or execution
//! identifier is the 128-bit value of its unique token, a row identifier is
//! the store-assigned 64-bit counter value, and a timestamp is a count of
//! milliseconds.

use vstd::prelude::*;

use crate::json::{keys_unique, JsonValue};

verus! {

/// A stored, reusable description of an HTTP call: the template an
/// execution replays.
#[derive(Debug, PartialEq, Eq)]
pub struct Request {
    /// Unique token chosen by the creating client.
    pub id: u128,
    pub name: String,
    /// The HTTP method token, e.g. `GET`.
    pub method: String,
    pub path: String,
    /// The query mapping; values are scalars.
    pub query: Vec<(String, JsonValue)>,
    pub host: String,
    /// The header mapping, copied verbatim onto the wire.
    pub headers: Vec<(String, String)>,
    pub body: Option<JsonValue>,
}

impl Request {
    /// A well-formed definition: the query is a mapping (no repeated key)
    /// of scalar values.
    pub open spec fn wf(self) -> bool {
        &&& keys_unique(self.query.deep_view())
        &&& forall|i: int|
            0 <= i < self.query.deep_view().len() ==> (
            #[trigger] self.query.deep_view()[i].1).is_scalar()
    }

    /// Decides well-formedness, so that a caller outside the proofs can
    /// test it before handing a definition in.
    pub fn check_wf(&self) -> (r: bool)
        ensures
            r == self.wf(),
    {
        let ghost qs = self.query.deep_view();
        let mut i: usize = 0;
        while i < self.query.len()
            invariant
                qs == self.query.deep_view(),
                i <= qs.len(),
                forall|k: int| 0 <= k < i ==> (#[trigger] qs[k]).1.is_scalar(),
                forall|k: int, l: int| 0 <= k < l < i ==> qs[k].0 != qs[l].0,
            decreases qs.len() - i,
        {
            proof {
                assert(qs[i as int] == (self.query@[i as int].0@, self.query@[
                    i as int].1.deep_view()));
            }
            match &self.query[i].1 {
                JsonValue::Arr(_) => {
                    proof {
                        assert(!qs[i as int].1.is_scalar());
                    }
                    return false;
                },
                JsonValue::Obj(_) => {
                    proof {
                        assert(!qs[i as int].1.is_scalar());
                    }
                    return false;
                },
                _ => {},
            }
            let mut j: usize = 0;
            while j < i
                invariant
                    qs == self.query.deep_view(),
                    j <= i < qs.len(),
                    forall|k: int| 0 <= k < j ==> qs[k].0 != qs[i as int].0,
                decreases i - j,
            {
                proof {
                    assert(qs[j as int] == (self.query@[j as int].0@, self.query@[
                        j as int].1.deep_view()));
                    assert(qs[i as int] == (self.query@[i as int].0@, self.query@[
                        i as int].1.deep_view()));
                }
                if self.query[j].0 == self.query[i].0 {
                    proof {
                        assert(qs[j as int].0 == qs[i as int].0);
                    }
                    return false;
                }
                j = j + 1;
            }
            i = i + 1;
        }
        proof {
            assert forall|k: int, l: int| 0 <= k < l < qs.len() implies qs[k].0 != qs[l].0 by {
            }
        }
        true
    }

    /// Field-wise sameness up to views: what a copy preserves.
    pub open spec fn same_content(self, other: Self) -> bool {
        &&& self.id == other.id
        &&& self.name@ == other.name@
        &&& self.method@ == other.method@
        &&& self.path@ == other.path@
        &&& self.query.deep_view() == other.query.deep_view()
        &&& self.host@ == other.host@
        &&& self.headers.deep_view() == other.headers.deep_view()
        &&& self.body.deep_view() == other.body.deep_view()
    }

    /// Replaces everything but the identifier: how an update rewrites a
    /// stored definition in place.
    pub fn update_with(self, content: RequestContent) -> (r: Request)
        ensures
            r.id == self.id,
            r.name == content.name,
            r.method == content.method,
            r.path == content.path,
            r.query == content.query,
            r.host == content.host,
            r.headers == content.headers,
            r.body == content.body,
    {
        Request {
            id: self.id,
            name: content.name,
            method: content.method,
            path: content.path,
            query: content.query,
            host: content.host,
            headers: content.headers,
            body: content.body,
        }
    }
}

/// Everything a client states about a definition: a [`Request`] without
/// its identifier.
#[derive(Debug, PartialEq, Eq)]
pub struct RequestContent {
    pub name: String,
    pub method: String,
    pub path: String,
    pub query: Vec<(String, JsonValue)>,
    pub host: String,
    pub headers: Vec<(String, String)>,
    pub body: Option<JsonValue>,
}

impl Clone for Request {
    /// The copy has the same content as the original.
    fn clone(&self) -> (r: Self)
        ensures
            r.same_content(*self),
            r.wf() == self.wf(),
    {
        let r = Request {
            id: self.id,
            name: self.name.clone(),
            method: self.method.clone(),
            path: self.path.clone(),
            query: clone_json_pairs(&self.query),
            host: self.host.clone(),
            headers: clone_string_pairs(&self.headers),
            body: clone_body(&self.body),
        };
        r
    }
}

/// A snapshot of a request as actually sent: the materialized form of a
/// definition, with the fully built URL.  Its identifier is assigned by the
/// store at persistence time; before that it is 0.
#[derive(Debug, PartialEq, Eq)]
pub struct RawHttpRequest {
    pub id: u64,
    pub method: String,
    /// The absolute URL: host, path and encoded query string.
    pub url: String,
    /// The protocol version label, fixed at materialization time.
    pub version: String,
    pub headers: Vec<(String, String)>,
    pub body: Option<JsonValue>,
}

impl RawHttpRequest {
    /// Field-wise sameness up to views: what a copy preserves.
    pub open spec fn same_content(self, other: Self) -> bool {
        &&& self.id == other.id
        &&& self.method@ == other.method@
        &&& self.url@ == other.url@
        &&& self.version@ == other.version@
        &&& self.headers.deep_view() == other.headers.deep_view()
        &&& self.body.deep_view() == other.body.deep_view()
    }
}

impl Clone for RawHttpRequest {
    /// The copy has the same content as the original.
    fn clone(&self) -> (r: Self)
        ensures
            r.same_content(*self),
    {
        RawHttpRequest {
            id: self.id,
            method: self.method.clone(),
            url: self.url.clone(),
            version: self.version.clone(),
            headers: clone_string_pairs(&self.headers),
            body: clone_body(&self.body),
        }
    }
}

/// A snapshot of what came back: status, reason, headers and the decoded
/// body.  Its identifier is assigned by the store at persistence time.
#[derive(Debug, PartialEq, Eq)]
pub struct RawHttpResponse {
    pub id: u64,
    /// The protocol version label reported by the transport.
    pub version: String,
    pub status_code: u16,
    /// The canonical reason phrase of the status code.
    pub status_message: String,
    pub headers: Vec<(String, String)>,
    /// The parsed JSON document for a JSON response, otherwise the raw text
    /// wrapped as a string value.
    pub body: JsonValue,
}

impl RawHttpResponse {
    /// Field-wise sameness up to views: what a copy preserves.
    pub open spec fn same_content(self, other: Self) -> bool {
        &&& self.id == other.id
        &&& self.version@ == other.version@
        &&& self.status_code == other.status_code
        &&& self.status_message@ == other.status_message@
        &&& self.headers.deep_view() == other.headers.deep_view()
        &&& self.body.deep_view() == other.body.deep_view()
    }
}

impl Clone for RawHttpResponse {
    /// The copy has the same content as the original.
    fn clone(&self) -> (r: Self)
        ensures
            r.same_content(*self),
    {
        RawHttpResponse {
            id: self.id,
            version: self.version.clone(),
            status_code: self.status_code,
            status_message: self.status_message.clone(),
            headers: clone_string_pairs(&self.headers),
            body: self.body.clone(),
        }
    }
}

/// The link record of one replay: which request snapshot was sent, which
/// response snapshot came back, and when.  Created exactly once per
/// successful execute-request call and never mutated.
#[derive(Debug, Clone, Copy, PartialEq, Eq, Structural)]
pub struct Execution {
    /// Unique token generated at orchestration start.
    pub id: u128,
    /// The store-assigned identifier of the request snapshot.
    pub request: u64,
    /// Wall-clock milliseconds immediately before the call was issued.
    pub request_time: i64,
    /// Wall-clock milliseconds immediately after the response was received.
    pub response_time: i64,
    /// The store-assigned identifier of the response snapshot.
    pub response: u64,
}

/// An execution together with its two raw exchange records, assembled for
/// the caller of a successful execute-request call.
#[derive(Debug, PartialEq, Eq)]
pub struct ExecutionRecord {
    pub id: u128,
    pub request: RawHttpRequest,
    pub request_time: i64,
    pub response_time: i64,
    pub response: RawHttpResponse,
}

/// An environment variable record of the wider service; not touched by the
/// execution pipeline.
#[derive(Debug, Clone, PartialEq, Eq)]
pub struct Variable {
    pub name: String,
    pub value: String,
}

/// The static schema descriptor of an entity: its table name and its
/// ordered column names.
pub trait Schema {
    fn table_name() -> &'static str;

    fn column_names() -> Vec<&'static str>;
}

impl Schema for Request {
    fn table_name() -> (t: &'static str)
        ensures
            t@ == "request"@,
    {
        "request"
    }

    fn column_names() -> (c: Vec<&'static str>)
        ensures
            c@.len() == 8,
    {
        let mut c: Vec<&'static str> = Vec::new();
        c.push("id");
        c.push("name");
        c.push("method");
        c.push("path");
        c.push("query");
        c.push("host");
        c.push("headers");
        c.push("body");
        c
    }
}

impl Schema for RawHttpRequest {
    fn table_name() -> (t: &'static str)
        ensures
            t@ == "rawhttprequest"@,
    {
        "rawhttprequest"
    }

    fn column_names() -> (c: Vec<&'static str>)
        ensures
            c@.len() == 6,
    {
        let mut c: Vec<&'static str> = Vec::new();
        c.push("id");
        c.push("method");
        c.push("url");
        c.push("version");
        c.push("headers");
        c.push("body");
        c
    }
}

impl Schema for RawHttpResponse {
    fn table_name() -> (t: &'static str)
        ensures
            t@ == "rawhttpresponse"@,
    {
        "rawhttpresponse"
    }

    fn column_names() -> (c: Vec<&'static str>)
        ensures
            c@.len() == 6,
    {
        let mut c: Vec<&'static str> = Vec::new();
        c.push("id");
        c.push("version");
        c.push("status_code");
        c.push("status_message");
        c.push("headers");
        c.push("body");
        c
    }
}

impl Schema for Execution {
    fn table_name() -> (t: &'static str)
        ensures
            t@ == "execution"@,
    {
        "execution"
    }

    fn column_names() -> (c: Vec<&'static str>)
        ensures
            c@.len() == 5,
    {
        let mut c: Vec<&'static str> = Vec::new();
        c.push("id");
        c.push("request");
        c.push("request_time");
        c.push("response_time");
        c.push("response");
        c
    }
}

/// Copies a header or query-value mapping of strings; the copy has the same
/// view.
pub(crate) fn clone_string_pairs(src: &Vec<(String, String)>) -> (r: Vec<(String, String)>)
    ensures
        r.deep_view() == src.deep_view(),
{
    let mut r: Vec<(String, String)> = Vec::new();
    let mut i: usize = 0;
    while i < src.len()
        invariant
            i <= src@.len(),
            r@.len() == i,
            forall|k: int|
                0 <= k < i ==> r@[k].0@ == src@[k].0@ && r@[k].1@ == src@[k].1@,
        decreases src@.len() - i,
    {
        r.push((src[i].0.clone(), src[i].1.clone()));
        i = i + 1;
    }
    proof {
        assert(r.deep_view() =~= src.deep_view());
    }
    r
}

/// Copies a mapping of documents; the copy has the same view.
pub(crate) fn clone_json_pairs(src: &Vec<(String, JsonValue)>) -> (r: Vec<(String, JsonValue)>)
    ensures
        r.deep_view() == src.deep_view(),
{
    let mut r: Vec<(String, JsonValue)> = Vec::new();
    let mut i: usize = 0;
    while i < src.len()
        invariant
            i <= src@.len(),
            r@.len() == i,
            forall|k: int|
                0 <= k < i ==> r@[k].0@ == src@[k].0@ && r@[k].1.deep_view()
                    == src@[k].1.deep_view(),
        decreases src@.len() - i,
    {
        r.push((src[i].0.clone(), src[i].1.clone()));
        i = i + 1;
    }
    proof {
        assert(r.deep_view() =~= src.deep_view());
    }
    r
}

/// Copies an optional body document; the copy has the same view.
pub(crate) fn clone_body(src: &Option<JsonValue>) -> (r: Option<JsonValue>)
    ensures
        r.deep_view() == src.deep_view(),
{
    match src {
        Some(v) => Some(v.clone()),
        None => None,
    }
}

} // verus!
