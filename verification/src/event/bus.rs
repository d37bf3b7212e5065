//! The subscriber bookkeeping of the event bus. `app/` pairs each
//! subscriber id with the channel that events are sent on.
use vstd::prelude::*;

verus! {

/// The number a subscriber is known by.
pub type SubscriberId = usize;

/// The subscribers of the event bus, in the order they subscribed, and the
/// id that the next subscriber gets.
pub struct EventBus {
    subscribers: Vec<SubscriberId>,
    next_id: usize,
}

/// Every subscriber id is below the next id to hand out.
pub open spec fn ids_below(ids: Seq<SubscriberId>, next: usize) -> bool {
    forall|i: int| 0 <= i < ids.len() ==> #[trigger] ids[i] < next
}

/// The subscribers of `s` other than `id`, in order.
pub open spec fn without_subscriber(s: Seq<SubscriberId>, id: SubscriberId) -> Seq<SubscriberId> {
    s.filter(other_than(id))
}

/// Holds of every subscriber id but `id`.
pub open spec fn other_than(id: SubscriberId) -> spec_fn(SubscriberId) -> bool {
    |x: SubscriberId| x != id
}

/// The subscribers of `s` that are not among `failed`, in order.
pub open spec fn without_failed(s: Seq<SubscriberId>, failed: Seq<SubscriberId>) -> Seq<SubscriberId> {
    s.filter(|x: SubscriberId| !failed.contains(x))
}

impl EventBus {
    /// The subscribers, oldest first.
    pub closed spec fn view(&self) -> Seq<SubscriberId> {
        self.subscribers@
    }

    /// The id the next subscriber gets.
    pub closed spec fn next(&self) -> usize {
        self.next_id
    }

    /// No subscribers yet; the first gets id 1.
    pub fn new() -> (b: Self)
        ensures
            b@ == Seq::<SubscriberId>::empty(),
            b.next() == 1,
    {
        EventBus { subscribers: Vec::new(), next_id: 1 }
    }

    /// Registers a subscriber under the next id, which then moves on by one
    /// (wrapping around at the top of the range).
    pub fn subscribe(&mut self) -> (id: SubscriberId)
        ensures
            id == old(self).next(),
            final(self)@ == old(self)@.push(id),
            final(self).next() == (if old(self).next() == usize::MAX { 0 } else { old(self).next() + 1 }),
    {
        let id = self.next_id;
        self.next_id = if self.next_id == usize::MAX { 0 } else { self.next_id + 1 };
        self.subscribers.push(id);
        id
    }

    /// Forgets every subscriber with the given id.
    pub fn unsubscribe(&mut self, id: SubscriberId)
        ensures
            final(self)@ == without_subscriber(old(self)@, id),
            final(self).next() == old(self).next(),
    {
        let ghost pred = other_than(id);
        let mut kept: Vec<SubscriberId> = Vec::new();
        let mut i: usize = 0;
        while i < self.subscribers.len()
            invariant
                pred == other_than(id),
                i <= self.subscribers@.len(),
                kept@ == self.subscribers@.subrange(0, i as int).filter(pred),
            decreases self.subscribers.len() - i,
        {
            let s = self.subscribers[i];
            proof {
                assert(self.subscribers@.subrange(0, i + 1) =~= self.subscribers@.subrange(0, i as int).push(s));
                self.subscribers@.subrange(0, i as int).lemma_filter_push(s, pred);
            }
            if s != id {
                kept.push(s);
            }
            i = i + 1;
        }
        proof {
            assert(self.subscribers@.subrange(0, self.subscribers@.len() as int) =~= self.subscribers@);
        }
        self.subscribers = kept;
    }

    /// Forgets the subscribers whose channel turned out to be closed.
    pub fn remove_failed(&mut self, failed: &Vec<SubscriberId>)
        ensures
            final(self)@ == without_failed(old(self)@, failed@),
            final(self).next() == old(self).next(),
    {
        let ghost pred = |x: SubscriberId| !failed@.contains(x);
        let mut kept: Vec<SubscriberId> = Vec::new();
        let mut i: usize = 0;
        while i < self.subscribers.len()
            invariant
                pred == (|x: SubscriberId| !failed@.contains(x)),
                i <= self.subscribers@.len(),
                kept@ == self.subscribers@.subrange(0, i as int).filter(pred),
            decreases self.subscribers.len() - i,
        {
            let s = self.subscribers[i];
            proof {
                assert(self.subscribers@.subrange(0, i + 1) =~= self.subscribers@.subrange(0, i as int).push(s));
                self.subscribers@.subrange(0, i as int).lemma_filter_push(s, pred);
            }
            if !contains_id(failed, s) {
                kept.push(s);
            }
            i = i + 1;
        }
        proof {
            assert(self.subscribers@.subrange(0, self.subscribers@.len() as int) =~= self.subscribers@);
        }
        self.subscribers = kept;
    }

    /// The subscribers, oldest first.
    pub fn subscribers(&self) -> (r: Vec<SubscriberId>)
        ensures
            r@ == self@,
    {
        self.subscribers.clone()
    }

    /// The number of subscribers.
    pub fn subscriber_count(&self) -> (n: usize)
        ensures
            n == self@.len(),
    {
        self.subscribers.len()
    }
}

/// Whether `id` is in the list.
pub fn contains_id(ids: &Vec<SubscriberId>, id: SubscriberId) -> (r: bool)
    ensures
        r == ids@.contains(id),
{
    let mut i: usize = 0;
    while i < ids.len()
        invariant
            i <= ids.len(),
            forall|k: int| 0 <= k < i ==> ids@[k] != id,
        decreases ids.len() - i,
    {
        if ids[i] == id {
            return true;
        }
        i = i + 1;
    }
    false
}

/// A subscriber id handed out while every listed id is below the next one
/// is not listed yet, and the next id stays above every listed one.
pub proof fn law_subscribe_fresh(ids: Seq<SubscriberId>, next: usize)
    requires
        ids_below(ids, next),
        next < usize::MAX,
    ensures
        !ids.contains(next),
        ids_below(ids.push(next), (next + 1) as usize),
{
    assert forall|i: int| 0 <= i < ids.push(next).len() implies #[trigger] ids.push(next)[i] < next + 1 by {
        if i < ids.len() {
            assert(ids.push(next)[i] == ids[i]);
        }
    }
}

/// Once a subscriber has unsubscribed, it is no longer listed, and the
/// others keep their order.
pub proof fn law_unsubscribed_gone(s: Seq<SubscriberId>, id: SubscriberId)
    ensures
        !without_subscriber(s, id).contains(id),
        without_subscriber(s, id).len() <= s.len(),
{
    let pred = other_than(id);
    s.lemma_filter_len(pred);
    if without_subscriber(s, id).contains(id) {
        let i = choose|i: int| 0 <= i < s.filter(pred).len() && s.filter(pred)[i] == id;
        s.lemma_filter_pred(pred, i);
    }
}

/// After the subscribers whose channels failed are dropped, none of them is
/// listed.
pub proof fn law_failed_dropped(s: Seq<SubscriberId>, failed: Seq<SubscriberId>, id: SubscriberId)
    requires
        failed.contains(id),
    ensures
        !without_failed(s, failed).contains(id),
{
    let pred = |x: SubscriberId| !failed.contains(x);
    if without_failed(s, failed).contains(id) {
        let i = choose|i: int| 0 <= i < s.filter(pred).len() && s.filter(pred)[i] == id;
        s.lemma_filter_pred(pred, i);
    }
}

} // verus!
