//! The transaction staging object: a caller-owned accumulator of queries
//! that is handed to a connection in one move.

use vstd::prelude::*;
use crate::bind::Query;
use crate::connection::{after_submit, submit_outcome, Connection, Operation, SubmitError};

verus! {

/// Queries staged for one atomic transaction, in the order they were pushed.
pub struct TransactionStaging {
    queries: Vec<Query>,
}

impl View for TransactionStaging {
    type V = Seq<Query>;

    closed spec fn view(&self) -> Seq<Query> {
        self.queries@
    }
}

impl TransactionStaging {
    /// An empty staging object.
    pub fn new() -> (r: TransactionStaging)
        ensures
            r@ == Seq::<Query>::empty(),
    {
        TransactionStaging { queries: Vec::new() }
    }

    /// Stages `query` after the queries staged so far.
    pub fn push(&mut self, query: Query)
        ensures
            final(self)@ == old(self)@.push(query),
    {
        self.queries.push(query);
    }

    /// How many queries are staged.
    pub fn len(&self) -> (r: usize)
        ensures
            r == self@.len(),
    {
        self.queries.len()
    }

    /// Moves the staged queries out, leaving the staging object empty and
    /// ready for reuse.
    pub fn take(&mut self) -> (r: Vec<Query>)
        ensures
            r@ == old(self)@,
            final(self)@ == Seq::<Query>::empty(),
    {
        let mut taken: Vec<Query> = Vec::new();
        std::mem::swap(&mut taken, &mut self.queries);
        taken
    }

    /// Submits the staged queries to `conn` as one transaction of `owner`
    /// and `session`. The staged queries move out whether or not the
    /// submission is accepted, and the staging object is left empty.
    pub fn submit(&mut self, conn: &mut Connection, owner: u32, session: i64) -> (r: Result<(), SubmitError>)
        requires
            old(conn).wf(),
        ensures
            final(conn).wf(),
            final(self)@ == Seq::<Query>::empty(),
            r == submit_outcome(old(conn)@),
            exists|v: Vec<Query>| v@ == old(self)@ && final(conn)@ == after_submit(old(conn)@, Operation::Transaction(owner, session, v)),
    {
        let queries = self.take();
        let ghost v = queries;
        let r = conn.submit(Operation::Transaction(owner, session, queries));
        assert(v@ == old(self)@);
        r
    }
}

} // verus!
