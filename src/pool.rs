//! The set of endpoints a client may connect to, and round-robin selection
//! among them.
use vstd::prelude::*;
use std::sync::Arc;
use crate::config::CosmosBuilder;

verus! {

/// Multiple [CosmosBuilder]s to allow for automatically switching between nodes.
pub struct CosmosBuilders {
    builders: Vec<Arc<CosmosBuilder>>,
    next_index: usize,
}

/// The index selected after `k` selections that started at `start`, in a
/// list of `len` endpoints.
pub open spec fn index_after(start: nat, len: nat, k: nat) -> nat
    decreases k,
{
    if k == 0 {
        start
    } else {
        (index_after(start, len, (k - 1) as nat) + 1) % len
    }
}

impl CosmosBuilders {
    /// The registered endpoints, in order of registration.
    pub closed spec fn builders_spec(&self) -> Seq<Arc<CosmosBuilder>> {
        self.builders@
    }

    /// The index of the endpoint that the next selection picks.
    pub closed spec fn next_index_spec(&self) -> nat {
        self.next_index as nat
    }

    /// At least one endpoint is registered, and the cursor points at one.
    pub open spec fn wf(&self) -> bool {
        &&& self.builders_spec().len() > 0
        &&& self.next_index_spec() < self.builders_spec().len()
    }

    /// One selection: `picked` is the endpoint under this set's cursor, and
    /// `after` is this set with the cursor moved to the next endpoint,
    /// wrapping to the first after the last.
    pub open spec fn is_selection(&self, after: &CosmosBuilders, picked: Arc<CosmosBuilder>) -> bool {
        &&& after.builders_spec() == self.builders_spec()
        &&& picked == self.builders_spec()[self.next_index_spec() as int]
        &&& after.next_index_spec() == (self.next_index_spec() + 1) % (
        self.builders_spec().len() as nat)
    }

    /// A set holding the one endpoint `builder`, with the cursor on it.
    pub fn from_builder(builder: CosmosBuilder) -> (r: CosmosBuilders)
        ensures
            r.wf(),
            r.builders_spec().len() == 1,
            *r.builders_spec()[0] == builder,
            r.next_index_spec() == 0,
    {
        let mut builders = Vec::new();
        builders.push(Arc::new(builder));
        CosmosBuilders { builders, next_index: 0 }
    }

    /// Registers one more endpoint, after the others.
    pub fn add(&mut self, builder: CosmosBuilder)
        requires
            old(self).wf(),
        ensures
            final(self).wf(),
            final(self).builders_spec().len() == old(self).builders_spec().len() + 1,
            final(self).builders_spec().drop_last() == old(self).builders_spec(),
            *final(self).builders_spec().last() == builder,
            final(self).next_index_spec() == old(self).next_index_spec(),
    {
        self.builders.push(Arc::new(builder));
        assert(self.builders@.drop_last() == old(self).builders@);
    }

    /// The number of registered endpoints.
    pub fn len(&self) -> (r: usize)
        ensures
            r == self.builders_spec().len(),
    {
        self.builders.len()
    }

    /// The endpoint registered first, whose settings stand for the set in
    /// every read that needs no connection.
    pub fn get_first_builder(&self) -> (r: &Arc<CosmosBuilder>)
        requires
            self.wf(),
        ensures
            *r == self.builders_spec()[0],
    {
        &self.builders[0]
    }

    /// Picks the endpoint under the cursor and moves the cursor to the next
    /// one, wrapping to the first after the last.
    pub fn get_next_builder(&mut self) -> (r: &Arc<CosmosBuilder>)
        requires
            old(self).wf(),
        ensures
            final(self).wf(),
            old(self).is_selection(final(self), *r),
    {
        let current = self.next_index;
        let ghost len = self.builders@.len();
        if self.next_index >= self.builders.len() - 1 {
            proof {
                vstd::arithmetic::div_mod::lemma_mod_self_0(len as int);
            }
            self.next_index = 0;
        } else {
            proof {
                vstd::arithmetic::div_mod::lemma_small_mod((current + 1) as nat, len);
            }
            self.next_index = self.next_index + 1;
        }
        &self.builders[current]
    }
}

/// From a fresh set of `len` endpoints, the first `len` selections pick
/// every endpoint once, in the order of registration, and the selection
/// after them starts over at the first; in general, `k` selections from
/// `start` land on `(start + k) % len`.
pub proof fn lemma_round_robin_order(len: nat, start: nat, k: nat)
    requires
        len > 0,
        start < len,
    ensures
        index_after(start, len, k) == (start + k) % len,
        k < len ==> index_after(0, len, k) == k,
        index_after(0, len, len) == 0,
    decreases k,
{
    lemma_index_after_mod(len, start, k);
    lemma_index_after_mod(len, 0, k);
    lemma_index_after_mod(len, 0, len);
    if k < len {
        vstd::arithmetic::div_mod::lemma_small_mod(k, len);
    }
    vstd::arithmetic::div_mod::lemma_mod_self_0(len as int);
}

/// Any run of selections from a set whose cursor is on its first endpoint
/// picks, on call `k`, the endpoint `k % len`: with `len` endpoints the
/// first `len` calls pick each endpoint once, in the order of registration,
/// before any repeats, and after them the cursor is back on the first.
/// `states[k]` is the set before call `k` and `picks[k]` what that call
/// returned.
pub proof fn lemma_round_robin_calls(states: Seq<CosmosBuilders>, picks: Seq<Arc<CosmosBuilder>>)
    requires
        states.len() == picks.len() + 1,
        states[0].wf(),
        states[0].next_index_spec() == 0,
        forall|k: int| 0 <= k < picks.len() ==> #[trigger] states[k].is_selection(&states[k + 1], picks[k]),
    ensures
        forall|k: int|
            0 <= k < picks.len() ==> #[trigger] picks[k] == states[0].builders_spec()[k % (
            states[0].builders_spec().len() as int)],
        states.last().builders_spec() == states[0].builders_spec(),
        states.last().next_index_spec() == (picks.len() as int) % (states[0].builders_spec().len() as int),
{
    let len = states[0].builders_spec().len();
    assert forall|k: int| 0 <= k < states.len() implies #[trigger] states[k].builders_spec()
        == states[0].builders_spec() && states[k].next_index_spec() == k % (len as int) by {
        lemma_selection_state(states, picks, k);
    }
    assert forall|k: int|
        0 <= k < picks.len() implies #[trigger] picks[k] == states[0].builders_spec()[k % (
        len as int)] by {
        assert(states[k].is_selection(&states[k + 1], picks[k]));
    }
}

/// After `k` selections the endpoints are unchanged and the cursor is on
/// endpoint `k % len`.
proof fn lemma_selection_state(states: Seq<CosmosBuilders>, picks: Seq<Arc<CosmosBuilder>>, k: int)
    requires
        states.len() == picks.len() + 1,
        states[0].wf(),
        states[0].next_index_spec() == 0,
        forall|j: int| 0 <= j < picks.len() ==> #[trigger] states[j].is_selection(&states[j + 1], picks[j]),
        0 <= k < states.len(),
    ensures
        states[k].builders_spec() == states[0].builders_spec(),
        states[k].next_index_spec() == index_after(0, states[0].builders_spec().len(), k as nat),
        states[k].next_index_spec() == k % (states[0].builders_spec().len() as int),
    decreases k,
{
    let len = states[0].builders_spec().len();
    if k > 0 {
        lemma_selection_state(states, picks, k - 1);
        let j = k - 1;
        assert(states[j].is_selection(&states[j + 1], picks[j]));
        assert(j + 1 == k);
    }
    lemma_index_after_mod(len, 0, k as nat);
}

proof fn lemma_index_after_mod(len: nat, start: nat, k: nat)
    requires
        len > 0,
        start < len,
    ensures
        index_after(start, len, k) == (start + k) % len,
    decreases k,
{
    if k == 0 {
        vstd::arithmetic::div_mod::lemma_small_mod(start, len);
    } else {
        lemma_index_after_mod(len, start, (k - 1) as nat);
        vstd::arithmetic::div_mod::lemma_add_mod_noop((start + k - 1) as int, 1, len as int);
        if len > 1 {
            vstd::arithmetic::div_mod::lemma_small_mod(1, len);
        } else {
            vstd::arithmetic::div_mod::lemma_mod_self_0(1);
        }
    }
}

} // verus!
