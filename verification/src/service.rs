//! The execution orchestrator.
//!
//! One execute-request call walks the pipeline: look the definition up,
//! materialize and persist the request snapshot, check it can go on the
//! wire, hand it to the transport, decode and persist the response
//! snapshot, and commit the execution record that links the two with its
//! timestamps.  Every failure aborts the remaining steps at once and
//! nothing is retried; rows persisted before the failing step are kept as
//! orphans, never rolled back.
//!
//! The outbound call itself happens outside the library; its outcome — a
//! [`TransportReply`] or the failure message — arrives as an argument, and
//! everything the orchestrator does with it is verified for every possible
//! outcome.  [`execute_post`] is the full relation between the store before
//! and after one call; every path of [`execute_request_with_id`] is proved
//! to satisfy it.

use vstd::prelude::*;

use crate::entity::{Execution, ExecutionRecord, RawHttpRequest, RawHttpResponse};
use crate::error::Error;
use crate::foreign::fresh_execution_id;
use crate::materialize::{materializes, prepare_request};
use crate::recorder::{decode_fault_of, decoded_response, make_response};
use crate::store::{find_def_in, Store};
use crate::transport::{transportable, validate_outbound, TransportReply};

verus! {

/// What one execute-request call does to the store and returns, for every
/// definition, execution identifier and transport outcome.
///
/// If the definition does not exist the call fails with `NotFound` and the
/// store is untouched.  Otherwise exactly one raw request row is appended,
/// materialized from the definition under the next store-assigned
/// identifier.  If that snapshot cannot go on the wire, or the transport
/// failed, the call fails with `TransportError` and the row stays as an
/// orphan; if the reply cannot be decoded the call fails with
/// `DecodingPrecondition` the same way.  Otherwise exactly one raw response
/// row is appended; a clash on the execution identifier then fails with
/// `CreateFailed`, leaving both rows orphaned, and otherwise the execution
/// row is committed and the call returns the full record.
pub open spec fn execute_post(
    pre: Store,
    post: Store,
    definition_id: u128,
    execution_id: u128,
    outcome: Result<TransportReply, String>,
    r: Result<ExecutionRecord, Error>,
) -> bool {
    match find_def_in(pre.definitions@, definition_id) {
        None => r == Err::<ExecutionRecord, Error>(Error::NotFound) && post == pre,
        Some(def) => {
            &&& post.definitions@ == pre.definitions@
            &&& post.raw_requests@.len() == pre.raw_requests@.len() + 1
            &&& post.raw_requests@.subrange(0, pre.raw_requests@.len() as int)
                == pre.raw_requests@
            &&& materializes(def, post.raw_requests@.last(), pre.next_raw_request_id)
            &&& post.next_raw_request_id == pre.next_raw_request_id + 1
            &&& if !transportable(post.raw_requests@.last()) {
                &&& (r matches Err(e) && e is TransportError)
                &&& post.raw_responses@ == pre.raw_responses@
                &&& post.next_raw_response_id == pre.next_raw_response_id
                &&& post.executions@ == pre.executions@
            } else {
                match outcome {
                    Err(msg) => {
                        &&& r == Err::<ExecutionRecord, Error>(Error::TransportError(msg))
                        &&& post.raw_responses@ == pre.raw_responses@
                        &&& post.next_raw_response_id == pre.next_raw_response_id
                        &&& post.executions@ == pre.executions@
                    },
                    Ok(reply) => match decode_fault_of(reply) {
                        Some(f) => {
                            &&& r == Err::<ExecutionRecord, Error>(
                                Error::DecodingPrecondition(f),
                            )
                            &&& post.raw_responses@ == pre.raw_responses@
                            &&& post.next_raw_response_id == pre.next_raw_response_id
                            &&& post.executions@ == pre.executions@
                        },
                        None => {
                            &&& post.raw_responses@.len() == pre.raw_responses@.len() + 1
                            &&& post.raw_responses@.subrange(
                                0,
                                pre.raw_responses@.len() as int,
                            ) == pre.raw_responses@
                            &&& decoded_response(
                                reply,
                                post.raw_responses@.last(),
                                pre.next_raw_response_id,
                            )
                            &&& post.next_raw_response_id == pre.next_raw_response_id + 1
                            &&& if pre.has_execution(execution_id) {
                                &&& (r matches Err(e) && e is CreateFailed)
                                &&& post.executions@ == pre.executions@
                            } else {
                                &&& post.executions@ == pre.executions@.push(
                                    Execution {
                                        id: execution_id,
                                        request: pre.next_raw_request_id,
                                        request_time: reply.request_time,
                                        response_time: reply.response_time,
                                        response: pre.next_raw_response_id,
                                    },
                                )
                                &&& (r matches Ok(rec) && {
                                    &&& rec.id == execution_id
                                    &&& materializes(
                                        def,
                                        rec.request,
                                        pre.next_raw_request_id,
                                    )
                                    &&& decoded_response(
                                        reply,
                                        rec.response,
                                        pre.next_raw_response_id,
                                    )
                                    &&& rec.request_time == reply.request_time
                                    &&& rec.response_time == reply.response_time
                                })
                            }
                        },
                    },
                }
            }
        },
    }
}

/// Looks the definition up and persists its materialized snapshot: the
/// first two pipeline steps.  Fails with `NotFound`, and writes nothing,
/// exactly when no definition carries the identifier.
pub fn make_request(store: &mut Store, definition_id: u128) -> (r: Result<RawHttpRequest, Error>)
    requires
        old(store).wf(),
        old(store).next_raw_request_id < u64::MAX,
    ensures
        final(store).wf(),
        match find_def_in(old(store).definitions@, definition_id) {
            None => r == Err::<RawHttpRequest, Error>(Error::NotFound) && *final(store) == *old(
                store,
            ),
            Some(def) => (r matches Ok(raw) && {
                &&& materializes(def, raw, old(store).next_raw_request_id)
                &&& final(store).raw_requests@.len() == old(store).raw_requests@.len() + 1
                &&& final(store).raw_requests@.subrange(
                    0,
                    old(store).raw_requests@.len() as int,
                ) == old(store).raw_requests@
                &&& materializes(
                    def,
                    final(store).raw_requests@.last(),
                    old(store).next_raw_request_id,
                )
                &&& final(store).next_raw_request_id == old(store).next_raw_request_id + 1
                &&& final(store).definitions@ == old(store).definitions@
                &&& final(store).raw_responses@ == old(store).raw_responses@
                &&& final(store).next_raw_response_id == old(store).next_raw_response_id
                &&& final(store).executions@ == old(store).executions@
            }),
        },
{
    let def = match store.find_request_definition(definition_id) {
        None => {
            return Err(Error::NotFound);
        },
        Some(d) => d,
    };
    let mut raw = prepare_request(&def);
    let copy = raw.clone();
    let id = store.create_raw_request(copy);
    raw.id = id;
    proof {
        let found = find_def_in(old(store).definitions@, definition_id)->0;
        assert(def.same_content(found));
        assert(crate::materialize::url_text(def) == crate::materialize::url_text(found));
        assert(store.raw_requests@.last().same_content(
            RawHttpRequest { id, ..raw },
        ));
    }
    Ok(raw)
}

/// Runs one execute-request call against the store, with the execution
/// identifier and the transport's outcome given.  Every path satisfies
/// [`execute_post`].
pub fn execute_request_with_id(
    store: &mut Store,
    definition_id: u128,
    execution_id: u128,
    outcome: Result<TransportReply, String>,
) -> (r: Result<ExecutionRecord, Error>)
    requires
        old(store).wf(),
        old(store).next_raw_request_id < u64::MAX,
        old(store).next_raw_response_id < u64::MAX,
        outcome matches Ok(reply) ==> reply.wf(),
    ensures
        final(store).wf(),
        execute_post(*old(store), *final(store), definition_id, execution_id, outcome, r),
{
    let raw = match make_request(store, definition_id) {
        Err(e) => {
            return Err(e);
        },
        Ok(raw) => raw,
    };
    if let Err(e) = validate_outbound(&raw) {
        proof {
            assert(!transportable(store.raw_requests@.last()));
        }
        return Err(e);
    }
    proof {
        assert(transportable(store.raw_requests@.last()));
    }
    let reply = match outcome {
        Err(msg) => {
            return Err(Error::TransportError(msg));
        },
        Ok(rep) => rep,
    };
    let resp0 = match make_response(&reply) {
        Err(e) => {
            return Err(e);
        },
        Ok(x) => x,
    };
    let resp_copy = resp0.clone();
    let ghost mid = *store;
    let resp_id = store.create_raw_response(resp_copy);
    let mut resp = resp0;
    resp.id = resp_id;
    proof {
        let stored = RawHttpResponse { id: resp_id, ..resp_copy };
        assert(store.raw_responses@.last() == stored);
        assert(decoded_response(reply, stored, resp_id));
        assert(decoded_response(reply, resp, resp_id));
        assert(store.raw_responses@.subrange(0, mid.raw_responses@.len() as int)
            =~= mid.raw_responses@);
    }
    let execution = Execution {
        id: execution_id,
        request: raw.id,
        request_time: reply.request_time,
        response_time: reply.response_time,
        response: resp_id,
    };
    let rows = match store.create_execution(execution) {
        Err(e) => {
            return Err(e);
        },
        Ok(n) => n,
    };
    if rows != 1 {
        return Err(Error::UnexpectedRowsAffected(1, rows));
    }
    Ok(
        ExecutionRecord {
            id: execution_id,
            request: raw,
            request_time: reply.request_time,
            response_time: reply.response_time,
            response: resp,
        },
    )
}

/// For every successful execution the returned record's response instant
/// is not before its request instant, and the committed execution row
/// carries the record's identifier and timestamps and references a raw
/// request row and a raw response row that are both persisted.
pub proof fn lemma_success_well_formed(
    pre: Store,
    post: Store,
    definition_id: u128,
    execution_id: u128,
    outcome: Result<TransportReply, String>,
    r: Result<ExecutionRecord, Error>,
)
    requires
        outcome matches Ok(reply) ==> reply.wf(),
        execute_post(pre, post, definition_id, execution_id, outcome, r),
        r is Ok,
    ensures
        r->Ok_0.response_time >= r->Ok_0.request_time,
        post.executions@.len() == pre.executions@.len() + 1,
        post.executions@.last().id == execution_id,
        post.executions@.last().request_time == r->Ok_0.request_time,
        post.executions@.last().response_time == r->Ok_0.response_time,
        post.has_raw_request(post.executions@.last().request),
        post.has_raw_response(post.executions@.last().response),
{
    let req_len = post.raw_requests@.len();
    let resp_len = post.raw_responses@.len();
    assert(post.raw_requests@[req_len - 1].id == pre.next_raw_request_id);
    assert(post.raw_responses@[resp_len - 1].id == pre.next_raw_response_id);
}

/// If the referenced definition does not exist, the call fails with
/// `NotFound` and no raw request, raw response or execution row is
/// created: the store is exactly what it was.
pub proof fn lemma_not_found_writes_nothing(
    pre: Store,
    post: Store,
    definition_id: u128,
    execution_id: u128,
    outcome: Result<TransportReply, String>,
    r: Result<ExecutionRecord, Error>,
)
    requires
        execute_post(pre, post, definition_id, execution_id, outcome, r),
        find_def_in(pre.definitions@, definition_id) is None,
    ensures
        r == Err::<ExecutionRecord, Error>(Error::NotFound),
        post == pre,
{
}

/// If the definition exists but the outbound call fails, the call fails
/// with `TransportError`; exactly one orphaned raw request row exists
/// afterward — persisted before the call and never cleaned up — and no raw
/// response or execution row was created.
pub proof fn lemma_transport_failure_leaves_one_orphan(
    pre: Store,
    post: Store,
    definition_id: u128,
    execution_id: u128,
    outcome: Result<TransportReply, String>,
    r: Result<ExecutionRecord, Error>,
)
    requires
        execute_post(pre, post, definition_id, execution_id, outcome, r),
        find_def_in(pre.definitions@, definition_id) is Some,
        outcome is Err,
    ensures
        r matches Err(e) && e is TransportError,
        post.raw_requests@.len() == pre.raw_requests@.len() + 1,
        post.raw_requests@.subrange(0, pre.raw_requests@.len() as int) == pre.raw_requests@,
        post.raw_responses@ == pre.raw_responses@,
        post.executions@ == pre.executions@,
{
}

/// Replaying the same definition twice produces two distinct execution
/// identifiers, two distinct raw request rows and two distinct raw
/// response rows: nothing is deduplicated across replays.
pub proof fn lemma_replay_never_reuses(
    s0: Store,
    s1: Store,
    s2: Store,
    definition_id: u128,
    first_execution_id: u128,
    second_execution_id: u128,
    first_outcome: Result<TransportReply, String>,
    second_outcome: Result<TransportReply, String>,
    r1: Result<ExecutionRecord, Error>,
    r2: Result<ExecutionRecord, Error>,
)
    requires
        execute_post(s0, s1, definition_id, first_execution_id, first_outcome, r1),
        r1 is Ok,
        execute_post(s1, s2, definition_id, second_execution_id, second_outcome, r2),
        r2 is Ok,
    ensures
        r1->Ok_0.id != r2->Ok_0.id,
        r1->Ok_0.request.id != r2->Ok_0.request.id,
        r1->Ok_0.response.id != r2->Ok_0.response.id,
{
    let committed = s1.executions@.len() - 1;
    assert(s1.executions@[committed].id == first_execution_id);
    assert(!s1.has_execution(second_execution_id));
    assert(first_execution_id != second_execution_id);
    assert(r1->Ok_0.request.id == s0.next_raw_request_id);
    assert(r2->Ok_0.request.id == s1.next_raw_request_id);
    assert(r1->Ok_0.response.id == s0.next_raw_response_id);
    assert(r2->Ok_0.response.id == s1.next_raw_response_id);
}

/// Runs one execute-request call with a freshly generated execution
/// identifier, as the service does for each inbound call.
pub fn execute_request(
    store: &mut Store,
    definition_id: u128,
    outcome: Result<TransportReply, String>,
) -> (r: Result<ExecutionRecord, Error>)
    requires
        old(store).wf(),
        old(store).next_raw_request_id < u64::MAX,
        old(store).next_raw_response_id < u64::MAX,
        outcome matches Ok(reply) ==> reply.wf(),
    ensures
        final(store).wf(),
        exists|execution_id: u128|
            execute_post(
                *old(store),
                *final(store),
                definition_id,
                execution_id,
                outcome,
                r,
            ),
{
    let execution_id = fresh_execution_id();
    let r = execute_request_with_id(store, definition_id, execution_id, outcome);
    proof {
        assert(execute_post(
            *old(store),
            *store,
            definition_id,
            execution_id,
            outcome,
            r,
        ));
    }
    r
}

} // verus!
