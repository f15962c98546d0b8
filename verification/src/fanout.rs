//! RTP fan-out from WHIP publishers to their WHEP subscribers: which
//! subscriber resources each publisher's packets go to.
use vstd::prelude::*;
use crate::idmap::{Table, TableKey, key_seq};
use crate::resource::ResourceId;

verus! {

/// `s` without the occurrences of `x`.
pub open spec fn without(s: Seq<ResourceId>, x: ResourceId) -> Seq<ResourceId>
    decreases s.len(),
{
    if s.len() == 0 {
        s
    } else if s.last() == x {
        without(s.drop_last(), x)
    } else {
        without(s.drop_last(), x).push(s.last())
    }
}

/// The subscribers of each publisher.
pub struct FanOut {
    publishers: Table<ResourceId, Vec<ResourceId>>,
}

impl FanOut {
    /// The subscriber lists, by publisher.
    pub closed spec fn subs(&self) -> Map<ResourceId, Seq<ResourceId>> {
        Map::new(|p: ResourceId| self.publishers@.contains_key(p), |p: ResourceId| self.publishers@[p]@)
    }

    pub closed spec fn wf(&self) -> bool {
        self.publishers.wf()
    }

    /// No publishers.
    pub fn new() -> (f: Self)
        ensures
            f.wf(),
            f.subs() == Map::<ResourceId, Seq<ResourceId>>::empty(),
    {
        let f = FanOut { publishers: Table::new() };
        assert(f.subs() =~= Map::<ResourceId, Seq<ResourceId>>::empty());
        f
    }

    /// Registers a publisher with no subscribers (an existing one starts over).
    pub fn register_publisher(&mut self, publisher_id: ResourceId)
        requires
            old(self).wf(),
        ensures
            final(self).wf(),
            final(self).subs() == old(self).subs().insert(publisher_id, Seq::<ResourceId>::empty()),
    {
        self.publishers.insert(publisher_id, Vec::new());
        proof {
            assert(self.subs() =~= old(self).subs().insert(publisher_id, Seq::<ResourceId>::empty()));
        }
    }

    /// Adds a subscriber to a publisher; false (and nothing changes) if the
    /// publisher does not exist.
    pub fn add_subscriber(&mut self, publisher_id: ResourceId, subscriber_id: ResourceId) -> (added: bool)
        requires
            old(self).wf(),
        ensures
            final(self).wf(),
            added == old(self).subs().contains_key(publisher_id),
            added ==> final(self).subs() == old(self).subs().insert(publisher_id, old(self).subs()[publisher_id].push(subscriber_id)),
            !added ==> final(self).subs() == old(self).subs(),
    {
        match self.publishers.index_of(&publisher_id) {
            Some(i) => {
                let mut subs = self.publishers.replace_at(i, Vec::new());
                subs.push(subscriber_id);
                self.publishers.replace_at(i, subs);
                proof {
                    assert(self.subs() =~= old(self).subs().insert(publisher_id, old(self).subs()[publisher_id].push(subscriber_id)));
                }
                true
            },
            None => false,
        }
    }

    /// Removes a subscriber (every entry of it) from a publisher.
    pub fn remove_subscriber(&mut self, publisher_id: ResourceId, subscriber_id: ResourceId)
        requires
            old(self).wf(),
        ensures
            final(self).wf(),
            old(self).subs().contains_key(publisher_id) ==> final(self).subs() == old(self).subs().insert(
                publisher_id,
                without(old(self).subs()[publisher_id], subscriber_id),
            ),
            !old(self).subs().contains_key(publisher_id) ==> final(self).subs() == old(self).subs(),
    {
        if let Some(i) = self.publishers.index_of(&publisher_id) {
            let subs = self.publishers.replace_at(i, Vec::new());
            let mut kept: Vec<ResourceId> = Vec::new();
            let mut j: usize = 0;
            while j < subs.len()
                invariant
                    j <= subs@.len(),
                    kept@ == without(subs@.take(j as int), subscriber_id),
                decreases subs@.len() - j,
            {
                proof {
                    assert(subs@.take(j + 1).drop_last() =~= subs@.take(j as int));
                }
                if !subs[j].same_key(&subscriber_id) {
                    kept.push(subs[j]);
                }
                j = j + 1;
            }
            proof {
                assert(subs@.take(j as int) =~= subs@);
            }
            self.publishers.replace_at(i, kept);
            proof {
                assert(self.subs() =~= old(self).subs().insert(publisher_id, without(old(self).subs()[publisher_id], subscriber_id)));
            }
        }
    }

    /// Removes a publisher and returns its subscribers (none if it did not
    /// exist).
    pub fn remove_publisher(&mut self, publisher_id: ResourceId) -> (subs: Vec<ResourceId>)
        requires
            old(self).wf(),
        ensures
            final(self).wf(),
            final(self).subs() == old(self).subs().remove(publisher_id),
            old(self).subs().contains_key(publisher_id) ==> subs@ == old(self).subs()[publisher_id],
            !old(self).subs().contains_key(publisher_id) ==> subs@ == Seq::<ResourceId>::empty(),
    {
        let r = self.publishers.remove(&publisher_id);
        proof {
            assert(self.subs() =~= old(self).subs().remove(publisher_id));
        }
        match r {
            Some(v) => v,
            None => Vec::new(),
        }
    }

    /// The subscribers a packet of `publisher_id` is relayed to, in the order
    /// they subscribed.
    pub fn relay_targets(&self, publisher_id: ResourceId) -> (subs: Vec<ResourceId>)
        requires
            self.wf(),
        ensures
            self.subs().contains_key(publisher_id) ==> subs@ == self.subs()[publisher_id],
            !self.subs().contains_key(publisher_id) ==> subs@ == Seq::<ResourceId>::empty(),
    {
        match self.publishers.get(&publisher_id) {
            Some(v) => {
                let mut out: Vec<ResourceId> = Vec::new();
                let mut j: usize = 0;
                while j < v.len()
                    invariant
                        j <= v@.len(),
                        out@ == v@.take(j as int),
                    decreases v@.len() - j,
                {
                    out.push(v[j]);
                    proof {
                        assert(out@ =~= v@.take(j + 1));
                    }
                    j = j + 1;
                }
                proof {
                    assert(v@.take(j as int) =~= v@);
                }
                out
            },
            None => Vec::new(),
        }
    }

    /// Whether a publisher exists.
    pub fn has_publisher(&self, publisher_id: &ResourceId) -> (b: bool)
        ensures
            b == self.subs().contains_key(*publisher_id),
    {
        self.publishers.contains_key(publisher_id)
    }

    /// The number of subscribers of a publisher (0 if it does not exist).
    pub fn subscriber_count(&self, publisher_id: &ResourceId) -> (n: usize)
        requires
            self.wf(),
        ensures
            self.subs().contains_key(*publisher_id) ==> n == self.subs()[*publisher_id].len(),
            !self.subs().contains_key(*publisher_id) ==> n == 0,
    {
        match self.publishers.get(publisher_id) {
            Some(v) => v.len(),
            None => 0,
        }
    }

    /// The number of publishers.
    pub fn publisher_count(&self) -> (n: usize)
        requires
            self.wf(),
        ensures
            n == self.subs().dom().len(),
    {
        proof {
            assert(self.subs().dom() =~= self.publishers@.dom());
        }
        self.publishers.len()
    }
}

/// A list that does not hold `x` loses nothing when `x` is taken out.
pub proof fn lemma_without_absent(s: Seq<ResourceId>, x: ResourceId)
    requires
        !s.contains(x),
    ensures
        without(s, x) == s,
    decreases s.len(),
{
    if s.len() > 0 {
        assert(!s.drop_last().contains(x)) by {
            if s.drop_last().contains(x) {
                let i = choose|i: int| 0 <= i < s.drop_last().len() && s.drop_last()[i] == x;
                assert(s[i] == x);
            }
        }
        lemma_without_absent(s.drop_last(), x);
        assert(s.drop_last().push(s.last()) =~= s);
    }
}

/// Nothing of `x` is left in `without(s, x)`.
pub proof fn lemma_without_removes(s: Seq<ResourceId>, x: ResourceId)
    ensures
        !without(s, x).contains(x),
    decreases s.len(),
{
    if s.len() > 0 {
        lemma_without_removes(s.drop_last(), x);
        if s.last() != x {
            let w = without(s.drop_last(), x);
            assert forall|i: int| 0 <= i < w.push(s.last()).len() implies w.push(s.last())[i] != x by {
                if i < w.len() {
                    assert(w[i] != x);
                }
            }
        }
    }
}

/// Subscribing a resource that was not subscribed to a registered
/// publisher, then unsubscribing it, leaves every publisher's subscribers as
/// they were.
pub proof fn lemma_subscribe_then_unsubscribe(a: FanOut, b: FanOut, c: FanOut, publisher: ResourceId, subscriber: ResourceId)
    requires
        a.wf(),
        a.subs().contains_key(publisher),
        !a.subs()[publisher].contains(subscriber),
        b.subs() == a.subs().insert(publisher, a.subs()[publisher].push(subscriber)),
        c.subs() == b.subs().insert(publisher, without(b.subs()[publisher], subscriber)),
    ensures
        c.subs() == a.subs(),
{
    let q = a.subs()[publisher];
    assert(q.push(subscriber).drop_last() =~= q);
    lemma_without_absent(q, subscriber);
    assert(without(q.push(subscriber), subscriber) == q);
    assert(c.subs() =~= a.subs());
}

} // verus!
