//! Ordered, short-circuiting resolution of a key across a prioritised
//! list of backends.
//!
//! The backends are consulted strictly in list order; the first hit
//! wins and no later backend is consulted; when every backend has been
//! consulted without a hit, the resolution is a miss.  Backend reads
//! themselves are I/O performed by the caller, so the resolver is a
//! small state machine: [`Resolver::next_query`] names the backend to
//! consult next, the caller reads from it and hands the outcome to
//! [`Resolver::record`], and [`Resolver::into_result`] yields the final
//! answer once no query is pending.

use vstd::prelude::*;

use crate::lookup::BackendOutcome;
use crate::lookup::LookupModel;
use crate::lookup::LookupResult;
use crate::lookup::OutcomeModel;

verus! {

/// True when none of the first `upto` outcomes is a hit.
pub open spec fn no_hit_in(outcomes: Seq<OutcomeModel>, upto: int) -> bool {
    forall|i: int| 0 <= i < upto && i < outcomes.len() ==> !(outcomes[i] is Found)
}

/// True when some outcome in the sequence is a hit.
pub open spec fn has_hit(outcomes: Seq<OutcomeModel>) -> bool {
    exists|i: int| 0 <= i < outcomes.len() && outcomes[i] is Found
}

/// What resolution returns when backend `i` would answer `avail[i]`:
/// the bytes of the first hit in priority order, or a miss when there
/// is none.
pub open spec fn resolve_model(avail: Seq<OutcomeModel>) -> LookupModel
    decreases avail.len(),
{
    if avail.len() == 0 {
        LookupModel::Miss
    } else if avail[0] is Found {
        LookupModel::Found(avail[0]->Found_0)
    } else {
        resolve_model(avail.drop_first())
    }
}

/// How many backends resolution consults when backend `i` would answer
/// `avail[i]`: every backend up to and including the first hit, or all
/// of them when there is none.
pub open spec fn queries_model(avail: Seq<OutcomeModel>) -> int
    decreases avail.len(),
{
    if avail.len() == 0 {
        0
    } else if avail[0] is Found {
        1
    } else {
        1 + queries_model(avail.drop_first())
    }
}

/// A backend is consulted at most once, so the query count never
/// exceeds the number of backends, and it is never negative.
pub proof fn lemma_queries_bounds(avail: Seq<OutcomeModel>)
    ensures
        0 <= queries_model(avail) <= avail.len(),
    decreases avail.len(),
{
    if avail.len() != 0 && !(avail[0] is Found) {
        lemma_queries_bounds(avail.drop_first());
    }
}

/// First match wins: when the first hit in priority order is backend
/// `j` with bytes `bytes`, resolution returns exactly those bytes and
/// consults exactly the backends `0 ..= j` — none after the hit.
pub proof fn lemma_first_match(avail: Seq<OutcomeModel>, j: int, bytes: Seq<u8>)
    requires
        0 <= j < avail.len(),
        avail[j] == OutcomeModel::Found(bytes),
        no_hit_in(avail, j),
    ensures
        resolve_model(avail) == LookupModel::Found(bytes),
        queries_model(avail) == j + 1,
    decreases j,
{
    if j == 0 {
        assert(avail[0] is Found);
    } else {
        assert(!(avail[0] is Found));
        let rest = avail.drop_first();
        assert(rest[j - 1] == avail[j]);
        assert forall|i: int| 0 <= i < j - 1 && i < rest.len() implies !(rest[i] is Found) by {
            assert(rest[i] == avail[i + 1]);
        }
        lemma_first_match(rest, j - 1, bytes);
    }
}

/// Exhaustion: when no backend holds the object, resolution is a miss
/// and every one of the backends has been consulted exactly once.
pub proof fn lemma_all_missed(avail: Seq<OutcomeModel>)
    requires
        no_hit_in(avail, avail.len() as int),
    ensures
        resolve_model(avail) == LookupModel::Miss,
        queries_model(avail) == avail.len(),
    decreases avail.len(),
{
    if avail.len() != 0 {
        assert(!(avail[0] is Found));
        let rest = avail.drop_first();
        assert forall|i: int| 0 <= i < rest.len() implies !(rest[i] is Found) by {
            assert(rest[i] == avail[i + 1]);
        }
        lemma_all_missed(rest);
    }
}

/// A failure does not stop the search: as long as no backend up to and
/// including the failing one has hit, and a further backend exists,
/// that further backend is consulted too.
pub proof fn lemma_failure_continues(avail: Seq<OutcomeModel>, i: int)
    requires
        0 <= i,
        i + 1 < avail.len(),
        avail[i] is Failed,
        no_hit_in(avail, i + 1),
    ensures
        queries_model(avail) >= i + 2,
{
    lemma_queries_past(avail, i + 1);
}

/// When the first `k` outcomes are all non-hits, resolution consults at
/// least `k` backends, and at least one more when one exists.
proof fn lemma_queries_past(avail: Seq<OutcomeModel>, k: int)
    requires
        0 <= k <= avail.len(),
        no_hit_in(avail, k),
    ensures
        queries_model(avail) >= k,
        k < avail.len() ==> queries_model(avail) >= k + 1,
    decreases k,
{
    if avail.len() == 0 {
    } else if k == 0 {
        lemma_queries_bounds(avail.drop_first());
    } else {
        assert(!(avail[0] is Found));
        let rest = avail.drop_first();
        assert forall|i: int| 0 <= i < k - 1 && i < rest.len() implies !(rest[i] is Found) by {
            assert(rest[i] == avail[i + 1]);
        }
        lemma_queries_past(rest, k - 1);
    }
}

/// A failing backend behaves exactly as an absent one: replacing a
/// failure by an absence changes neither the result of resolution nor
/// how many backends are consulted.
pub proof fn lemma_failure_is_a_miss(avail: Seq<OutcomeModel>, i: int)
    requires
        0 <= i < avail.len(),
        avail[i] is Failed,
    ensures
        resolve_model(avail.update(i, OutcomeModel::Absent)) == resolve_model(avail),
        queries_model(avail.update(i, OutcomeModel::Absent)) == queries_model(avail),
    decreases i,
{
    let swapped = avail.update(i, OutcomeModel::Absent);
    if i == 0 {
        assert(swapped.drop_first() =~= avail.drop_first());
    } else {
        assert(swapped[0] == avail[0]);
        if !(avail[0] is Found) {
            assert(swapped.drop_first() =~= avail.drop_first().update(i - 1, OutcomeModel::Absent));
            lemma_failure_is_a_miss(avail.drop_first(), i - 1);
        }
    }
}

/// The sequential fallback search, step by step.
///
/// The caller drives it: while [`Resolver::next_query`] names a backend,
/// read the key from that backend and [`Resolver::record`] the outcome;
/// once no query is pending, [`Resolver::into_result`] is the result of
/// the whole search.
pub struct Resolver {
    /// How many backends are configured.
    count: usize,
    /// How many backends have been consulted so far.
    asked: usize,
    /// The bytes of the hit, as soon as one backend has hit.
    hit: Option<Vec<u8>>,
    /// The outcomes received so far, in consultation order.
    seen: Ghost<Seq<OutcomeModel>>,
}

impl Resolver {
    /// The number of configured backends this search runs over.
    pub closed spec fn backend_count(&self) -> nat {
        self.count as nat
    }

    /// The outcomes received so far, in consultation order.
    pub closed spec fn seen(&self) -> Seq<OutcomeModel> {
        self.seen@
    }

    /// Internal consistency: outcomes never outnumber the backends, a
    /// hit can only be the latest outcome (the search stops there), and
    /// the stored bytes are exactly the latest outcome's when it hit.
    pub closed spec fn wf(&self) -> bool {
        &&& self.asked == self.seen@.len()
        &&& self.seen@.len() <= self.count
        &&& no_hit_in(self.seen@, self.seen@.len() as int - 1)
        &&& (match self.hit {
            Some(bytes) => self.seen@.len() > 0 && self.seen@.last() == OutcomeModel::Found(
                bytes@,
            ),
            None => self.seen@.len() == 0 || !(self.seen@.last() is Found),
        })
    }

    /// True once no further backend will be consulted: either one has
    /// hit, or all of them have been consulted.
    pub open spec fn halted(&self) -> bool {
        has_hit(self.seen()) || self.seen().len() == self.backend_count()
    }

    /// Start a search over `count` backends, none consulted yet.
    pub fn new(count: usize) -> (resolver: Resolver)
        ensures
            resolver.wf(),
            resolver.backend_count() == count,
            resolver.seen() == Seq::<OutcomeModel>::empty(),
    {
        Resolver { count, asked: 0, hit: None, seen: Ghost(Seq::empty()) }
    }

    /// The backend to consult next: the first one not yet consulted, in
    /// list order — or none, once a backend has hit or the list is
    /// exhausted.
    pub fn next_query(&self) -> (query: Option<usize>)
        requires
            self.wf(),
        ensures
            match query {
                Some(i) => !self.halted() && i == self.seen().len() && i < self.backend_count(),
                None => self.halted(),
            },
    {
        proof {
            self.lemma_hit_field_is_has_hit();
        }
        if self.hit.is_none() && self.asked < self.count {
            Some(self.asked)
        } else {
            None
        }
    }

    /// Record the outcome of consulting the backend named by
    /// [`Resolver::next_query`].
    pub fn record(&mut self, outcome: BackendOutcome)
        requires
            old(self).wf(),
            !old(self).halted(),
        ensures
            final(self).wf(),
            final(self).backend_count() == old(self).backend_count(),
            final(self).seen() == old(self).seen().push(outcome@),
    {
        let ghost received = outcome@;
        proof {
            self.lemma_hit_field_is_has_hit();
        }
        self.asked = self.asked + 1;
        self.seen = Ghost(self.seen@.push(received));
        if let BackendOutcome::Found(bytes) = outcome {
            self.hit = Some(bytes);
        }
        proof {
            assert(self.seen@.last() == received);
            assert forall|i: int| 0 <= i < self.seen@.len() as int - 1 implies !(self.seen@[i]
                is Found) by {
                assert(self.seen@[i] == old(self).seen()[i]);
            }
        }
    }

    /// The result of the whole search: the first hit's bytes, or a miss
    /// once every backend has been consulted without one.  The backends
    /// consulted are exactly the ones the model prescribes.
    pub fn into_result(self) -> (result: LookupResult)
        requires
            self.wf(),
            self.halted(),
        ensures
            result@ == resolve_model(self.seen()),
            queries_model(self.seen()) == self.seen().len(),
    {
        proof {
            self.lemma_hit_field_is_has_hit();
            match &self.hit {
                Some(bytes) => {
                    lemma_first_match(self.seen@, self.seen@.len() as int - 1, bytes@);
                },
                None => {
                    lemma_all_missed(self.seen@);
                },
            }
        }
        match self.hit {
            Some(bytes) => LookupResult::Found(bytes),
            None => LookupResult::Miss,
        }
    }

    /// The stored hit bytes exist exactly when some outcome so far hit.
    proof fn lemma_hit_field_is_has_hit(&self)
        requires
            self.wf(),
        ensures
            self.hit is Some <==> has_hit(self.seen@),
    {
        if self.hit is Some {
            assert(self.seen@[self.seen@.len() as int - 1] is Found);
        }
        if has_hit(self.seen@) {
            let i = choose|i: int|
                0 <= i < self.seen@.len() && self.seen@[i] is Found;
            assert(i == self.seen@.len() as int - 1);
        }
    }
}

} // verus!
