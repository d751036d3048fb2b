use vstd::prelude::*;

verus! {

/// The bus as a mathematical value: the handle that the next subscription
/// gets, and the live subscriptions in the order they were made.
pub struct BusView {
    pub next: u64,
    pub subscribers: Seq<u64>,
}

/// Handles rise strictly in subscription order, so none is live twice, and
/// each was handed out before `next`.
pub open spec fn bus_wf(b: BusView) -> bool {
    &&& forall|i: int, j: int|
        0 <= i < j < b.subscribers.len() ==> b.subscribers[i] < b.subscribers[j]
    &&& forall|i: int| 0 <= i < b.subscribers.len() ==> b.subscribers[i] < b.next
}

/// The bus once a subscription has been made: it gets the handle `next`.
pub open spec fn after_subscribe(b: BusView) -> BusView {
    BusView { next: (b.next + 1) as u64, subscribers: b.subscribers.push(b.next) }
}

/// The bus once `h` has been revoked; a handle that is not live changes nothing.
pub open spec fn after_unsubscribe(b: BusView, h: u64) -> BusView {
    if b.subscribers.contains(h) {
        BusView { next: b.next, subscribers: b.subscribers.remove(b.subscribers.index_of(h)) }
    } else {
        b
    }
}

/// Revoking a handle keeps the bus well formed and leaves that handle no
/// longer live.
pub proof fn lemma_unsubscribe_wf(b: BusView, h: u64)
    requires
        bus_wf(b),
    ensures
        bus_wf(after_unsubscribe(b, h)),
        !after_unsubscribe(b, h).subscribers.contains(h),
{
    if b.subscribers.contains(h) {
        let s = b.subscribers;
        let p = s.index_of(h);
        let w = s.remove(p);
        assert forall|i: int, j: int| 0 <= i < j < w.len() implies w[i] < w[j] by {
            let oi = if i < p { i } else { i + 1 };
            let oj = if j < p { j } else { j + 1 };
            assert(w[i] == s[oi] && w[j] == s[oj]);
        }
        assert forall|i: int| 0 <= i < w.len() implies w[i] < b.next by {
            let oi = if i < p { i } else { i + 1 };
            assert(w[i] == s[oi]);
        }
        if w.contains(h) {
            let k = choose|k: int| 0 <= k < w.len() && w[k] == h;
            let ok = if k < p { k } else { k + 1 };
            assert(w[k] == s[ok]);
            if ok < p {
                assert(s[ok] < s[p]);
            } else {
                assert(s[p] < s[ok]);
            }
        }
    }
}

/// Revoking a handle twice has the same effect as revoking it once.
pub proof fn lemma_unsubscribe_idempotent(b: BusView, h: u64)
    requires
        bus_wf(b),
    ensures
        after_unsubscribe(after_unsubscribe(b, h), h) == after_unsubscribe(b, h),
{
    lemma_unsubscribe_wf(b, h);
}

/// No handle is live twice, so a signal addressed to the live subscriptions
/// reaches each of them exactly once.
pub proof fn lemma_signal_reaches_each_once(b: BusView)
    requires
        bus_wf(b),
    ensures
        b.subscribers.no_duplicates(),
{
    let s = b.subscribers;
    assert forall|i: int, j: int| 0 <= i < s.len() && 0 <= j < s.len() && i != j implies s[i] != s[j] by {
        if i > j {
            assert(s[j] < s[i]);
        } else {
            assert(s[i] < s[j]);
        }
    }
}

/// The signal that the collection changed. It carries no data of the
/// collection: `observers` are the handles it is to be delivered to, in
/// subscription order, and each of them re-reads the store.
pub struct ListChangedEvent {
    pub observers: Vec<u64>,
}

/// The registry of observers of the store. The observers themselves live
/// with the view layer, keyed by the handles handed out here.
pub struct ChangeBus {
    next: u64,
    subscribers: Vec<u64>,
}

impl View for ChangeBus {
    type V = BusView;

    closed spec fn view(&self) -> BusView {
        BusView { next: self.next, subscribers: self.subscribers@ }
    }
}

impl ChangeBus {
    pub open spec fn wf(&self) -> bool {
        bus_wf(self@)
    }

    /// A bus with no subscription.
    pub fn new() -> (r: ChangeBus)
        ensures
            r.wf(),
            r@.next == 0,
            r@.subscribers.len() == 0,
    {
        ChangeBus { next: 0, subscribers: Vec::new() }
    }

    /// The handle that the next subscription will get.
    pub fn next_handle(&self) -> (r: u64)
        ensures
            r == self@.next,
    {
        self.next
    }

    /// Registers an observer and returns the handle that revokes it.
    pub fn subscribe(&mut self) -> (h: u64)
        requires
            old(self).wf(),
            old(self)@.next < u64::MAX,
        ensures
            final(self).wf(),
            h == old(self)@.next,
            final(self)@ == after_subscribe(old(self)@),
    {
        let h = self.next;
        self.subscribers.push(h);
        self.next = h + 1;
        assert(self@.subscribers =~= old(self)@.subscribers.push(h));
        h
    }

    /// Revokes the subscription `h`. A handle that was revoked already, or
    /// never handed out, leaves the bus as it was.
    pub fn unsubscribe(&mut self, h: u64)
        requires
            old(self).wf(),
        ensures
            final(self).wf(),
            final(self)@ == after_unsubscribe(old(self)@, h),
    {
        let ghost b = self@;
        let mut i: usize = 0;
        while i < self.subscribers.len()
            invariant
                self@ == b,
                b == old(self)@,
                bus_wf(b),
                0 <= i <= b.subscribers.len(),
                forall|k: int| 0 <= k < i ==> b.subscribers[k] != h,
            decreases b.subscribers.len() - i,
        {
            if self.subscribers[i] == h {
                proof {
                    let p = b.subscribers.index_of(h);
                    assert(b.subscribers.contains(h));
                    assert(0 <= p < b.subscribers.len() && b.subscribers[p] == h);
                    if p < i as int {
                        assert(b.subscribers[p] < b.subscribers[i as int]);
                    } else if p > i as int {
                        assert(b.subscribers[i as int] < b.subscribers[p]);
                    }
                }
                self.subscribers.remove(i);
                return;
            }
            i += 1;
        }
    }

    /// The signal for one change: addressed to every live subscription, each
    /// once, in subscription order.
    pub fn notify(&self) -> (e: ListChangedEvent)
        ensures
            e.observers@ == self@.subscribers,
    {
        let mut observers: Vec<u64> = Vec::new();
        let mut i: usize = 0;
        while i < self.subscribers.len()
            invariant
                0 <= i <= self.subscribers@.len(),
                observers@ == self.subscribers@.take(i as int),
            decreases self.subscribers@.len() - i,
        {
            observers.push(self.subscribers[i]);
            i += 1;
            assert(observers@ =~= self.subscribers@.take(i as int));
        }
        assert(self.subscribers@.take(i as int) =~= self.subscribers@);
        ListChangedEvent { observers }
    }
}

} // verus!
