//! Pending acknowledgement waiters, keyed by packet identifier.

use std::collections::HashMap;
use vstd::prelude::*;
use vstd::std_specs::iter::IteratorSpec;

verus! {

broadcast use vstd::std_specs::hash::group_hash_axioms;

/// `r` lists every value of `m` exactly once, in the order of some enumeration
/// of `m`'s keys.
pub open spec fn lists_all_values<V>(m: Map<u16, V>, r: Seq<V>) -> bool {
    exists|ids: Seq<u16>|
        {
            &&& ids.no_duplicates()
            &&& ids.to_set() == m.dom()
            &&& r == ids.map_values(|k: u16| m[k])
        }
}

/// Waiters for acknowledgements (SUBACK, UNSUBACK), one per packet identifier.
pub struct AckWaiters<V> {
    map: HashMap<u16, V>,
}

impl<V> View for AckWaiters<V> {
    type V = Map<u16, V>;

    closed spec fn view(&self) -> Map<u16, V> {
        self.map@
    }
}

impl<V> AckWaiters<V> {
    /// No waiter.
    pub fn new() -> (r: Self)
        ensures
            r@ == Map::<u16, V>::empty(),
    {
        AckWaiters { map: HashMap::new() }
    }

    /// Registers `waiter` for `packet_id`, replacing (and dropping) a waiter
    /// already registered under that identifier.
    pub fn register(&mut self, packet_id: u16, waiter: V)
        ensures
            final(self)@ == old(self)@.insert(packet_id, waiter),
    {
        let _ = self.map.insert(packet_id, waiter);
    }

    /// Removes the waiter for `packet_id` and hands it out, if there is one.
    pub fn take(&mut self, packet_id: u16) -> (r: Option<V>)
        ensures
            final(self)@ == old(self)@.remove(packet_id),
            r == old(self)@.get(packet_id),
    {
        self.map.remove(&packet_id)
    }

    /// Whether a waiter is registered for `packet_id`.
    pub fn is_waiting(&self, packet_id: u16) -> (r: bool)
        ensures
            r == self@.contains_key(packet_id),
    {
        self.map.contains_key(&packet_id)
    }

    /// Removes every waiter and hands them all out.
    pub fn drain(&mut self) -> (r: Vec<V>)
        ensures
            final(self)@ == Map::<u16, V>::empty(),
            lists_all_values(old(self)@, r@),
    {
        let ghost m0 = self.map@;
        let mut ids: Vec<u16> = Vec::new();
        assert(vstd::std_specs::hash::spec_keys_iter(&self.map).remaining().unref().to_set()
            == m0.dom());
        for k in it: self.map.keys()
            invariant
                ids@ == it.seq().take(it.index()).unref(),
                it.seq().unref().no_duplicates(),
                it.seq().unref().to_set() == m0.dom(),
                ids@.no_duplicates(),
                it.index() == it.seq().len() ==> ids@.to_set() == m0.dom(),
        {
            ids.push(*k);
            assert(ids@ =~= it.seq().take(it.index() + 1).unref());
            assert(it.index() + 1 == it.seq().len() ==> ids@ =~= it.seq().unref());
        }
        let mut out: Vec<V> = Vec::new();
        let mut i: usize = 0;
        while i < ids.len()
            invariant
                0 <= i <= ids@.len(),
                ids@.no_duplicates(),
                ids@.to_set() == m0.dom(),
                self.map@ == m0.remove_keys(ids@.take(i as int).to_set()),
                out@ == ids@.take(i as int).map_values(|k: u16| m0[k]),
            decreases ids@.len() - i,
        {
            let k = ids[i];
            proof {
                assert(ids@.take(i + 1) =~= ids@.take(i as int).push(k));
                ids@.take(i as int).lemma_push_to_set_commute(k);
                assert(!ids@.take(i as int).contains(k)) by {
                    if ids@.take(i as int).contains(k) {
                        let j = choose|j: int| 0 <= j < i && ids@.take(i as int)[j] == k;
                        assert(ids@[j] == ids@[i as int]);
                    }
                }
                assert(ids@.to_set().contains(k));
                assert(m0.remove_keys(ids@.take(i as int).to_set()).remove(k) =~= m0.remove_keys(
                    ids@.take(i + 1).to_set(),
                ));
            }
            let v = self.map.remove(&k);
            match v {
                Some(v) => out.push(v),
                None => {},
            }
            i += 1;
        }
        proof {
            assert(ids@.take(ids@.len() as int) =~= ids@);
            assert(self.map@ =~= Map::<u16, V>::empty());
            assert(out@ =~= ids@.map_values(|k: u16| m0[k]));
        }
        out
    }
}

/// Taking the waiter for an identifier right after registering it gives back
/// that waiter and leaves the other waiters as they were; a second take finds
/// nothing.
pub proof fn lemma_register_take<V>(m: Map<u16, V>, id: u16, waiter: V)
    ensures
        m.insert(id, waiter).get(id) == Some(waiter),
        m.insert(id, waiter).remove(id) == m.remove(id),
        m.remove(id).get(id) is None,
{
    assert(m.insert(id, waiter).remove(id) =~= m.remove(id));
}

} // verus!
