//! The persistence collaborator, as a verified in-memory store.
//!
//! The pipeline consumes persistence through four operations: find a
//! definition, create a raw request row, create a raw response row, create
//! an execution row.  Raw-row identifiers are assigned by the store at
//! persistence time from an auto-increment counter, never chosen by the
//! caller; definition and execution identifiers are client-generated unique
//! tokens, and inserting a duplicate fails as a constraint violation.  A
//! deployment may put the same operations over an external database; this
//! store is the reference implementation the pipeline is verified against.

use vstd::prelude::*;

use crate::entity::{Execution, RawHttpRequest, RawHttpResponse, Request};
use crate::error::Error;

verus! {

/// The first definition with the given identifier, if any.
pub open spec fn find_def_in(s: Seq<Request>, id: u128) -> Option<Request>
    decreases s.len(),
{
    if s.len() == 0 {
        None
    } else if s[0].id == id {
        Some(s[0])
    } else {
        find_def_in(s.drop_first(), id)
    }
}

/// The first raw request row with the given identifier, if any.
pub open spec fn find_raw_request_in(s: Seq<RawHttpRequest>, id: u64) -> Option<RawHttpRequest>
    decreases s.len(),
{
    if s.len() == 0 {
        None
    } else if s[0].id == id {
        Some(s[0])
    } else {
        find_raw_request_in(s.drop_first(), id)
    }
}

/// The first raw response row with the given identifier, if any.
pub open spec fn find_raw_response_in(s: Seq<RawHttpResponse>, id: u64) -> Option<
    RawHttpResponse,
>
    decreases s.len(),
{
    if s.len() == 0 {
        None
    } else if s[0].id == id {
        Some(s[0])
    } else {
        find_raw_response_in(s.drop_first(), id)
    }
}

/// The store: one table per record kind, plus the auto-increment counters
/// for the store-assigned raw-row identifiers.
#[derive(Debug)]
pub struct Store {
    pub definitions: Vec<Request>,
    pub raw_requests: Vec<RawHttpRequest>,
    pub next_raw_request_id: u64,
    pub raw_responses: Vec<RawHttpResponse>,
    pub next_raw_response_id: u64,
    pub executions: Vec<Execution>,
}

impl Store {
    /// The store's invariant: definitions are well-formed mappings with
    /// unique identifiers, raw rows carry store-assigned identifiers in
    /// increasing order below the counters, and execution identifiers are
    /// unique.
    pub open spec fn wf(self) -> bool {
        &&& forall|i: int|
            0 <= i < self.definitions@.len() ==> (#[trigger] self.definitions@[i]).wf()
        &&& forall|i: int, j: int|
            0 <= i < j < self.definitions@.len() ==> self.definitions@[i].id
                != self.definitions@[j].id
        &&& 1 <= self.next_raw_request_id
        &&& forall|i: int|
            0 <= i < self.raw_requests@.len() ==> 1 <= (#[trigger] self.raw_requests@[i]).id
                < self.next_raw_request_id
        &&& forall|i: int, j: int|
            0 <= i < j < self.raw_requests@.len() ==> self.raw_requests@[i].id
                < self.raw_requests@[j].id
        &&& 1 <= self.next_raw_response_id
        &&& forall|i: int|
            0 <= i < self.raw_responses@.len() ==> 1 <= (#[trigger] self.raw_responses@[i]).id
                < self.next_raw_response_id
        &&& forall|i: int, j: int|
            0 <= i < j < self.raw_responses@.len() ==> self.raw_responses@[i].id
                < self.raw_responses@[j].id
        &&& forall|i: int, j: int|
            0 <= i < j < self.executions@.len() ==> self.executions@[i].id
                != self.executions@[j].id
    }

    /// Whether some definition carries the identifier.
    pub open spec fn has_definition(self, id: u128) -> bool {
        exists|i: int| 0 <= i < self.definitions@.len() && (#[trigger] self.definitions@[i]).id
            == id
    }

    /// Whether some raw request row carries the identifier.
    pub open spec fn has_raw_request(self, id: u64) -> bool {
        exists|i: int| 0 <= i < self.raw_requests@.len() && (#[trigger] self.raw_requests@[i]).id
            == id
    }

    /// Whether some raw response row carries the identifier.
    pub open spec fn has_raw_response(self, id: u64) -> bool {
        exists|i: int| 0 <= i < self.raw_responses@.len() && (
        #[trigger] self.raw_responses@[i]).id == id
    }

    /// Whether some execution row carries the identifier.
    pub open spec fn has_execution(self, id: u128) -> bool {
        exists|i: int| 0 <= i < self.executions@.len() && (#[trigger] self.executions@[i]).id
            == id
    }

    /// An empty store.
    pub fn new() -> (s: Store)
        ensures
            s.wf(),
            s.definitions@.len() == 0,
            s.raw_requests@.len() == 0,
            s.raw_responses@.len() == 0,
            s.executions@.len() == 0,
            s.next_raw_request_id == 1,
            s.next_raw_response_id == 1,
    {
        Store {
            definitions: Vec::new(),
            raw_requests: Vec::new(),
            next_raw_request_id: 1,
            raw_responses: Vec::new(),
            next_raw_response_id: 1,
            executions: Vec::new(),
        }
    }

    /// Stores a new definition under its client-chosen identifier; a
    /// duplicate identifier fails as a constraint violation and changes
    /// nothing.
    pub fn create_request_definition(&mut self, def: Request) -> (r: Result<(), Error>)
        requires
            old(self).wf(),
            def.wf(),
        ensures
            final(self).wf(),
            old(self).has_definition(def.id) ==> (r matches Err(e) && e is CreateFailed && *final(self) == *old(self)),
            !old(self).has_definition(def.id) ==> r is Ok && final(self).definitions@ == old(self).definitions@.push(def) && final(self).raw_requests@ == old(self).raw_requests@
                && final(self).raw_responses@ == old(self).raw_responses@ && final(self).executions@ == old(self).executions@ && final(self).next_raw_request_id == old(self).next_raw_request_id && final(self).next_raw_response_id == old(self).next_raw_response_id,
    {
        let mut i: usize = 0;
        while i < self.definitions.len()
            invariant
                *self == *old(self),
                self.wf(),
                i <= self.definitions@.len(),
                forall|k: int|
                    0 <= k < i ==> (#[trigger] self.definitions@[k]).id != def.id,
            decreases self.definitions@.len() - i,
        {
            if self.definitions[i].id == def.id {
                return Err(Error::CreateFailed("duplicate definition identifier".to_owned()));
            }
            i = i + 1;
        }
        self.definitions.push(def);
        Ok(())
    }

    /// Looks a definition up by its identifier; what is handed back is a
    /// copy of the stored row.
    pub fn find_request_definition(&self, id: u128) -> (r: Option<Request>)
        requires
            self.wf(),
        ensures
            match find_def_in(self.definitions@, id) {
                None => r is None,
                Some(d) => r matches Some(rd) && rd.same_content(d) && rd.wf() && rd.id == id,
            },
            (r is Some) == self.has_definition(id),
    {
        proof {
            lemma_find_def_in(self.definitions@, id);
        }
        let ghost whole = self.definitions@;
        proof {
            assert(whole.skip(0) =~= whole);
        }
        let mut i: usize = 0;
        while i < self.definitions.len()
            invariant
                self.wf(),
                whole == self.definitions@,
                i <= whole.len(),
                find_def_in(whole, id) == find_def_in(whole.skip(i as int), id),
                forall|k: int| 0 <= k < i ==> (#[trigger] whole[k]).id != id,
            decreases whole.len() - i,
        {
            if self.definitions[i].id == id {
                proof {
                    assert(whole.skip(i as int)[0] == whole[i as int]);
                }
                return Some(self.definitions[i].clone());
            }
            proof {
                assert(whole.skip(i as int).drop_first() =~= whole.skip(i as int + 1));
            }
            i = i + 1;
        }
        proof {
            assert(whole.skip(i as int).len() == 0);
        }
        None
    }

    /// Persists a raw request row; the store assigns the next identifier
    /// and returns it.
    pub fn create_raw_request(&mut self, rec: RawHttpRequest) -> (id: u64)
        requires
            old(self).wf(),
            old(self).next_raw_request_id < u64::MAX,
        ensures
            final(self).wf(),
            id == old(self).next_raw_request_id,
            final(self).raw_requests@ == old(self).raw_requests@.push(
                RawHttpRequest { id, ..rec },
            ),
            final(self).next_raw_request_id == old(self).next_raw_request_id + 1,
            final(self).definitions@ == old(self).definitions@,
            final(self).raw_responses@ == old(self).raw_responses@,
            final(self).next_raw_response_id == old(self).next_raw_response_id,
            final(self).executions@ == old(self).executions@,
    {
        let id = self.next_raw_request_id;
        let mut stored = rec;
        stored.id = id;
        self.raw_requests.push(stored);
        self.next_raw_request_id = self.next_raw_request_id + 1;
        id
    }

    /// Persists a raw response row; the store assigns the next identifier
    /// and returns it.
    pub fn create_raw_response(&mut self, rec: RawHttpResponse) -> (id: u64)
        requires
            old(self).wf(),
            old(self).next_raw_response_id < u64::MAX,
        ensures
            final(self).wf(),
            id == old(self).next_raw_response_id,
            final(self).raw_responses@ == old(self).raw_responses@.push(
                RawHttpResponse { id, ..rec },
            ),
            final(self).next_raw_response_id == old(self).next_raw_response_id + 1,
            final(self).definitions@ == old(self).definitions@,
            final(self).raw_requests@ == old(self).raw_requests@,
            final(self).next_raw_request_id == old(self).next_raw_request_id,
            final(self).executions@ == old(self).executions@,
    {
        let id = self.next_raw_response_id;
        let mut stored = rec;
        stored.id = id;
        self.raw_responses.push(stored);
        self.next_raw_response_id = self.next_raw_response_id + 1;
        id
    }

    /// Persists an execution row under its caller-generated identifier and
    /// returns the number of rows written; a duplicate identifier fails as
    /// a constraint violation and changes nothing.
    pub fn create_execution(&mut self, e: Execution) -> (r: Result<u64, Error>)
        requires
            old(self).wf(),
        ensures
            final(self).wf(),
            old(self).has_execution(e.id) ==> (r matches Err(er) && er is CreateFailed && *final(self) == *old(self)),
            !old(self).has_execution(e.id) ==> r == Ok::<u64, Error>(1u64) && final(self).executions@ == old(self).executions@.push(e) && final(self).definitions@ == old(self).definitions@ && final(self).raw_requests@ == old(self).raw_requests@ && final(self).raw_responses@ == old(self).raw_responses@ && final(self).next_raw_request_id
                == old(self).next_raw_request_id && final(self).next_raw_response_id == old(self).next_raw_response_id,
    {
        let mut i: usize = 0;
        while i < self.executions.len()
            invariant
                *self == *old(self),
                self.wf(),
                i <= self.executions@.len(),
                forall|k: int| 0 <= k < i ==> (#[trigger] self.executions@[k]).id != e.id,
            decreases self.executions@.len() - i,
        {
            if self.executions[i].id == e.id {
                return Err(Error::CreateFailed("duplicate execution identifier".to_owned()));
            }
            i = i + 1;
        }
        self.executions.push(e);
        Ok(1)
    }

    /// Looks a raw request row up by its store-assigned identifier; what is
    /// handed back is a copy of the stored row.
    pub fn find_raw_request(&self, id: u64) -> (r: Option<RawHttpRequest>)
        ensures
            match find_raw_request_in(self.raw_requests@, id) {
                None => r is None,
                Some(d) => r matches Some(rd) && rd.same_content(d),
            },
    {
        let ghost whole = self.raw_requests@;
        proof {
            assert(whole.skip(0) =~= whole);
        }
        let mut i: usize = 0;
        while i < self.raw_requests.len()
            invariant
                whole == self.raw_requests@,
                i <= whole.len(),
                find_raw_request_in(whole, id) == find_raw_request_in(whole.skip(i as int), id),
            decreases whole.len() - i,
        {
            if self.raw_requests[i].id == id {
                proof {
                    assert(whole.skip(i as int)[0] == whole[i as int]);
                }
                return Some(self.raw_requests[i].clone());
            }
            proof {
                assert(whole.skip(i as int)[0] == whole[i as int]);
                assert(whole.skip(i as int).drop_first() =~= whole.skip(i as int + 1));
            }
            i = i + 1;
        }
        None
    }

    /// Looks a raw response row up by its store-assigned identifier; what
    /// is handed back is a copy of the stored row.
    pub fn find_raw_response(&self, id: u64) -> (r: Option<RawHttpResponse>)
        ensures
            match find_raw_response_in(self.raw_responses@, id) {
                None => r is None,
                Some(d) => r matches Some(rd) && rd.same_content(d),
            },
    {
        let ghost whole = self.raw_responses@;
        proof {
            assert(whole.skip(0) =~= whole);
        }
        let mut i: usize = 0;
        while i < self.raw_responses.len()
            invariant
                whole == self.raw_responses@,
                i <= whole.len(),
                find_raw_response_in(whole, id) == find_raw_response_in(
                    whole.skip(i as int),
                    id,
                ),
            decreases whole.len() - i,
        {
            if self.raw_responses[i].id == id {
                proof {
                    assert(whole.skip(i as int)[0] == whole[i as int]);
                }
                return Some(self.raw_responses[i].clone());
            }
            proof {
                assert(whole.skip(i as int)[0] == whole[i as int]);
                assert(whole.skip(i as int).drop_first() =~= whole.skip(i as int + 1));
            }
            i = i + 1;
        }
        None
    }

    /// How many definitions are stored.
    pub fn definition_count(&self) -> (n: usize)
        ensures
            n == self.definitions@.len(),
    {
        self.definitions.len()
    }

    /// How many raw request rows are stored.
    pub fn raw_request_count(&self) -> (n: usize)
        ensures
            n == self.raw_requests@.len(),
    {
        self.raw_requests.len()
    }

    /// How many raw response rows are stored.
    pub fn raw_response_count(&self) -> (n: usize)
        ensures
            n == self.raw_responses@.len(),
    {
        self.raw_responses.len()
    }

    /// How many execution rows are stored.
    pub fn execution_count(&self) -> (n: usize)
        ensures
            n == self.executions@.len(),
    {
        self.executions.len()
    }
}

/// A definition is found exactly when one with its identifier is stored,
/// and what is found carries that identifier and is one of the stored rows.
pub proof fn lemma_find_def_in(s: Seq<Request>, id: u128)
    ensures
        (find_def_in(s, id) is Some) == exists|i: int|
            0 <= i < s.len() && (#[trigger] s[i]).id == id,
        find_def_in(s, id) matches Some(d) ==> d.id == id && s.contains(d),
    decreases s.len(),
{
    if s.len() > 0 {
        lemma_find_def_in(s.drop_first(), id);
        if s[0].id == id {
            assert(s[0].id == id);
        } else {
            assert forall|i: int| 0 <= i < s.len() && (#[trigger] s[i]).id == id implies
                find_def_in(s, id) is Some by {
                assert(s.drop_first()[i - 1] == s[i]);
            }
            if find_def_in(s.drop_first(), id) is Some {
                let d = find_def_in(s.drop_first(), id)->0;
                assert(s.drop_first().contains(d));
                let j = choose|j: int| 0 <= j < s.drop_first().len() && s.drop_first()[j] == d;
                assert(s[j + 1] == d);
            }
        }
    }
}

} // verus!
