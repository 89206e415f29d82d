//! The DNS forwarder's table of queries awaiting an answer: each query sent
//! to the remote host gets a fresh id, and its answer goes back to the
//! client that asked, once.
use vstd::prelude::*;
use std::collections::HashMap;

verus! {

broadcast use vstd::std_specs::hash::group_hash_axioms;

/// A query awaiting its answer: its id, the client that sent it, and the
/// DNS transaction id of the query.
#[derive(Debug)]
pub struct PendingQuery<A> {
    pub query_id: u32,
    pub client: A,
    pub transaction_id: u16,
}

/// The queries awaiting an answer, by id, and the id the next query gets.
#[derive(Debug)]
pub struct PendingQueries<A> {
    entries: HashMap<u32, PendingQuery<A>>,
    next_id: u32,
}

impl<A> PendingQueries<A> {
    /// The ids of the queries awaiting an answer.
    pub closed spec fn ids(&self) -> Set<u32> {
        self.entries@.dom()
    }

    /// The query with this id that awaits its answer, if there is one.
    pub closed spec fn query(&self, id: u32) -> Option<PendingQuery<A>> {
        if self.entries@.contains_key(id) {
            Some(self.entries@[id])
        } else {
            None
        }
    }

    /// The id the next query gets.
    pub closed spec fn next(&self) -> u32 {
        self.next_id
    }

    /// Each query is kept under its own id.
    pub closed spec fn wf(&self) -> bool {
        forall|id: u32| #[trigger] self.entries@.contains_key(id) ==> self.entries@[id].query_id == id
    }

    /// No pending queries; the first query gets id 1.
    pub fn new() -> (t: Self)
        ensures
            t.wf(),
            t.ids() == Set::<u32>::empty(),
            forall|id: u32| t.query(id) is None,
            t.next() == 1,
    {
        let t = PendingQueries { entries: HashMap::new(), next_id: 1 };
        assert(t.ids() =~= Set::<u32>::empty());
        t
    }

    /// Takes the id for the next query (ids wrap around after `u32::MAX`).
    pub fn allocate(&mut self) -> (id: u32)
        ensures
            id == old(self).next(),
            final(self).next() == old(self).next().wrapping_add(1),
            final(self).ids() == old(self).ids(),
            forall|x: u32| final(self).query(x) == old(self).query(x),
            final(self).wf() == old(self).wf(),
    {
        let id = self.next_id;
        self.next_id = self.next_id.wrapping_add(1);
        id
    }

    /// Takes out the query `id`, if it awaits an answer: where its answer
    /// goes.  Each query is answered at most once.
    pub fn take(&mut self, id: u32) -> (r: Option<PendingQuery<A>>)
        requires
            old(self).wf(),
        ensures
            final(self).wf(),
            r == old(self).query(id),
            final(self).ids() == old(self).ids().remove(id),
            forall|x: u32| final(self).query(x) == if x == id { None } else { old(self).query(x) },
            final(self).next() == old(self).next(),
            match r {
                Some(q) => old(self).ids().contains(id) && q.query_id == id,
                None => !old(self).ids().contains(id),
            },
    {
        let r = self.entries.remove(&id);
        assert(self.ids() =~= old(self).ids().remove(id));
        r
    }

    /// Records a query as awaiting its answer (replacing one with the same
    /// id).
    pub fn insert(&mut self, q: PendingQuery<A>)
        requires
            old(self).wf(),
        ensures
            final(self).wf(),
            final(self).ids() == old(self).ids().insert(q.query_id),
            forall|x: u32| final(self).query(x) == if x == q.query_id { Some(q) } else { old(self).query(x) },
            final(self).next() == old(self).next(),
    {
        let id = q.query_id;
        self.entries.insert(id, q);
        assert(self.ids() =~= old(self).ids().insert(id));
    }
}

} // verus!
