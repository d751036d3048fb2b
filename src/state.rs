use vstd::prelude::*;

use crate::bus::{after_subscribe, after_unsubscribe, BusView, ChangeBus, ListChangedEvent};
use crate::item::{views_of, ItemView, TodoItem};

verus! {

/// The store as a mathematical value: the identifier counter and the items
/// in display order.
pub struct StoreView {
    pub count: nat,
    pub items: Seq<ItemView>,
}

/// Identifiers rise strictly along the sequence; in particular no two
/// items share one.
pub open spec fn ids_increasing(items: Seq<ItemView>) -> bool {
    forall|i: int, j: int| 0 <= i < j < items.len() ==> items[i].id < items[j].id
}

/// Every reachable store: identifiers rise along the list, and each of them
/// was handed out before the counter's current value.
pub open spec fn store_wf(v: StoreView) -> bool {
    &&& ids_increasing(v.items)
    &&& forall|i: int| 0 <= i < v.items.len() ==> v.items[i].id < v.count
}

pub open spec fn has_id(items: Seq<ItemView>, id: nat) -> bool {
    exists|i: int| 0 <= i < items.len() && items[i].id == id
}

/// The position of the item that carries `id`, where there is one.
pub open spec fn position_of(items: Seq<ItemView>, id: nat) -> int {
    choose|i: int| 0 <= i < items.len() && items[i].id == id
}

/// The store once `title` has been inserted: the item takes the counter's
/// value as its identifier and goes to the end, and the counter moves on by one.
pub open spec fn after_insert(v: StoreView, title: Seq<char>) -> StoreView {
    StoreView {
        count: v.count + 1,
        items: v.items.push(ItemView { id: v.count, title }),
    }
}

/// The store once `id` has been removed: the item that carries it leaves and
/// the others keep their order; with no such item nothing changes.
pub open spec fn after_remove(v: StoreView, id: nat) -> StoreView {
    if has_id(v.items, id) {
        StoreView { count: v.count, items: v.items.remove(position_of(v.items, id)) }
    } else {
        v
    }
}

/// One mutation of the store.
pub enum StoreOp {
    Insert(Seq<char>),
    Remove(nat),
}

pub open spec fn apply_op(v: StoreView, op: StoreOp) -> StoreView {
    match op {
        StoreOp::Insert(title) => after_insert(v, title),
        StoreOp::Remove(id) => after_remove(v, id),
    }
}

/// The store after the mutations `ops`, applied in order from `v`.
pub open spec fn run(v: StoreView, ops: Seq<StoreOp>) -> StoreView
    decreases ops.len(),
{
    if ops.len() == 0 {
        v
    } else {
        apply_op(run(v, ops.drop_last()), ops.last())
    }
}

/// The identifiers that the insertions among `ops` return, in call order.
pub open spec fn issued(v: StoreView, ops: Seq<StoreOp>) -> Seq<nat>
    decreases ops.len(),
{
    if ops.len() == 0 {
        Seq::empty()
    } else {
        let before = issued(v, ops.drop_last());
        match ops.last() {
            StoreOp::Insert(_) => before.push(run(v, ops.drop_last()).count),
            StoreOp::Remove(_) => before,
        }
    }
}

/// Every mutation keeps the store well formed.
pub proof fn lemma_apply_wf(v: StoreView, op: StoreOp)
    requires
        store_wf(v),
    ensures
        store_wf(apply_op(v, op)),
        apply_op(v, op).count >= v.count,
{
    match op {
        StoreOp::Insert(title) => {},
        StoreOp::Remove(id) => {
            if has_id(v.items, id) {
                let p = position_of(v.items, id);
                let w = v.items.remove(p);
                assert forall|i: int, j: int| 0 <= i < j < w.len() implies w[i].id < w[j].id by {
                    let oi = if i < p { i } else { i + 1 };
                    let oj = if j < p { j } else { j + 1 };
                    assert(w[i] == v.items[oi] && w[j] == v.items[oj]);
                }
                assert forall|i: int| 0 <= i < w.len() implies w[i].id < v.count by {
                    let oi = if i < p { i } else { i + 1 };
                    assert(w[i] == v.items[oi]);
                }
            }
        },
    }
}

/// Identifiers never repeat and only grow: over any run of insertions and
/// removals, the identifiers that the insertions return rise strictly in call
/// order (so no two are equal), each at least the counter's starting value
/// and below its final one, and every state on the way is well formed.
pub proof fn lemma_issued_ids_increase(v: StoreView, ops: Seq<StoreOp>)
    requires
        store_wf(v),
    ensures
        store_wf(run(v, ops)),
        run(v, ops).count >= v.count,
        forall|i: int, j: int|
            0 <= i < j < issued(v, ops).len() ==> issued(v, ops)[i] < issued(v, ops)[j],
        forall|i: int|
            0 <= i < issued(v, ops).len() ==> v.count <= #[trigger] issued(v, ops)[i] < run(v, ops).count,
        issued(v, ops).no_duplicates(),
    decreases ops.len(),
{
    if ops.len() > 0 {
        let prev = ops.drop_last();
        lemma_issued_ids_increase(v, prev);
        lemma_apply_wf(run(v, prev), ops.last());
    }
    let s = issued(v, ops);
    assert forall|i: int, j: int| 0 <= i < s.len() && 0 <= j < s.len() && i != j implies s[i] != s[j] by {
        if i > j {
            assert(s[j] < s[i]);
        }
    }
}

/// Removing the older of two fresh items leaves the items that were there
/// before and the newer one, in that order; from an empty store, exactly the
/// newer one.
pub proof fn lemma_remove_older_of_two(v: StoreView, a: Seq<char>, b: Seq<char>)
    requires
        store_wf(v),
    ensures
        after_remove(after_insert(after_insert(v, a), b), v.count).items
            == v.items.push(ItemView { id: v.count + 1, title: b }),
        v.items.len() == 0 ==> after_remove(after_insert(after_insert(v, a), b), v.count).items
            == seq![ItemView { id: v.count + 1, title: b }],
{
    let w = after_insert(after_insert(v, a), b);
    let p = v.items.len() as int;
    assert(w.items[p].id == v.count);
    assert(has_id(w.items, v.count));
    let q = position_of(w.items, v.count);
    if q < p {
        assert(v.items[q] == w.items[q]);
    }
    assert(q == p);
    assert(w.items.remove(p) =~= v.items.push(ItemView { id: v.count + 1, title: b }));
    if v.items.len() == 0 {
        assert(v.items.push(ItemView { id: v.count + 1, title: b })
            =~= seq![ItemView { id: v.count + 1, title: b }]);
    }
}

/// Removing an identifier that was never handed out changes nothing.
pub proof fn lemma_remove_unissued(v: StoreView, id: nat)
    requires
        store_wf(v),
        id >= v.count,
    ensures
        after_remove(v, id) == v,
        !has_id(v.items, id),
{
}

/// The authoritative collection of items and the counter that identifiers
/// are drawn from.
pub struct State {
    count: usize,
    items: Vec<TodoItem>,
}

impl View for State {
    type V = StoreView;

    closed spec fn view(&self) -> StoreView {
        StoreView { count: self.count as nat, items: views_of(self.items@) }
    }
}

impl State {
    /// Every store that this type's operations build satisfies this.
    pub open spec fn wf(&self) -> bool {
        store_wf(self@)
    }

    /// An empty store whose counter starts at zero.
    pub fn new() -> (r: State)
        ensures
            r@.count == 0,
            r@.items.len() == 0,
            r.wf(),
    {
        let r = State { count: 0, items: Vec::new() };
        assert(r@.items =~= Seq::<ItemView>::empty());
        r
    }

    /// The next identifier that `insert` will hand out.
    pub fn count(&self) -> (r: usize)
        ensures
            r as nat == self@.count,
    {
        self.count
    }

    pub fn len(&self) -> (r: usize)
        ensures
            r as nat == self@.items.len(),
    {
        self.items.len()
    }

    /// Appends an item titled `title` and returns its identifier, the counter's
    /// value before the call.
    pub fn insert(&mut self, title: String) -> (r: usize)
        requires
            old(self).wf(),
            old(self)@.count < usize::MAX,
        ensures
            final(self).wf(),
            r as nat == old(self)@.count,
            final(self)@ == after_insert(old(self)@, title@),
    {
        let id = self.count;
        let item = TodoItem { id, title };
        self.items.push(item);
        self.count = id + 1;
        assert(self@.items =~= old(self)@.items.push(ItemView { id: id as nat, title: title@ }));
        id
    }

    /// Removes the item that carries `id`, searching from the front, and
    /// returns whether there was one. An unknown `id` leaves the store as it was.
    pub fn remove(&mut self, id: usize) -> (found: bool)
        requires
            old(self).wf(),
        ensures
            final(self).wf(),
            found == has_id(old(self)@.items, id as nat),
            final(self)@ == after_remove(old(self)@, id as nat),
    {
        let ghost v = self@;
        let mut i: usize = 0;
        while i < self.items.len()
            invariant
                self@ == v,
                v == old(self)@,
                store_wf(v),
                0 <= i <= self.items@.len(),
                forall|k: int| 0 <= k < i ==> v.items[k].id != id as nat,
            decreases self.items@.len() - i,
        {
            if self.items[i].id == id {
                proof {
                    assert(v.items[i as int] == self.items@[i as int]@);
                    assert(v.items[i as int].id == id as nat);
                    let p = position_of(v.items, id as nat);
                    assert(0 <= p < v.items.len() && v.items[p].id == id as nat);
                    if p < i as int {
                        assert(v.items[p].id < v.items[i as int].id);
                    } else if p > i as int {
                        assert(v.items[i as int].id < v.items[p].id);
                    }
                }
                self.items.remove(i);
                assert(self@.items =~= v.items.remove(i as int));
                assert(self@ == after_remove(v, id as nat));
                return true;
            }
            i += 1;
        }
        assert(!has_id(v.items, id as nat));
        false
    }

    /// A copy of the items in display order; the store itself is not handed out.
    pub fn snapshot(&self) -> (r: Vec<TodoItem>)
        ensures
            views_of(r@) == self@.items,
    {
        let mut r: Vec<TodoItem> = Vec::new();
        let mut i: usize = 0;
        while i < self.items.len()
            invariant
                0 <= i <= self.items@.len(),
                r@.len() == i,
                views_of(r@) == self@.items.take(i as int),
            decreases self.items@.len() - i,
        {
            let item = self.items[i].duplicate();
            assert(item@ == self@.items[i as int]);
            r.push(item);
            assert(views_of(r@) =~= self@.items.take(i + 1));
            i += 1;
        }
        assert(self@.items.take(i as int) =~= self@.items);
        r
    }
}


/// The store together with its observers, as a mathematical value.
pub struct ModelView {
    pub store: StoreView,
    pub bus: BusView,
}

/// The store and its change bus, passed explicitly to whoever needs them.
/// Every mutation goes through here, and each one that changes the store
/// yields exactly one change signal, raised after the change is applied.
pub struct StateModel {
    inner: State,
    bus: ChangeBus,
}

impl View for StateModel {
    type V = ModelView;

    closed spec fn view(&self) -> ModelView {
        ModelView { store: self.inner@, bus: self.bus@ }
    }
}

impl StateModel {
    pub open spec fn wf(&self) -> bool {
        store_wf(self@.store) && crate::bus::bus_wf(self@.bus)
    }

    /// An empty store with no observer.
    pub fn init() -> (r: StateModel)
        ensures
            r.wf(),
            r@.store.count == 0,
            r@.store.items.len() == 0,
            r@.bus.next == 0,
            r@.bus.subscribers.len() == 0,
    {
        StateModel { inner: State::new(), bus: ChangeBus::new() }
    }

    /// Read access to the store.
    pub fn state(&self) -> (r: &State)
        ensures
            r@ == self@.store,
    {
        &self.inner
    }

    /// The handle that the next subscription will get.
    pub fn next_handle(&self) -> (r: u64)
        ensures
            r == self@.bus.next,
    {
        self.bus.next_handle()
    }

    /// Registers an observer of changes; the handle revokes it.
    pub fn subscribe(&mut self) -> (h: u64)
        requires
            old(self).wf(),
            old(self)@.bus.next < u64::MAX,
        ensures
            final(self).wf(),
            h == old(self)@.bus.next,
            final(self)@.bus == after_subscribe(old(self)@.bus),
            final(self)@.store == old(self)@.store,
    {
        self.bus.subscribe()
    }

    /// Revokes a subscription; an unknown or already revoked handle changes nothing.
    pub fn unsubscribe(&mut self, h: u64)
        requires
            old(self).wf(),
        ensures
            final(self).wf(),
            final(self)@.bus == after_unsubscribe(old(self)@.bus, h),
            final(self)@.store == old(self)@.store,
    {
        self.bus.unsubscribe(h)
    }

    /// Inserts an item titled `title` and returns its identifier, with the
    /// change signal addressed to every live observer.
    pub fn push(&mut self, title: String) -> (r: (usize, ListChangedEvent))
        requires
            old(self).wf(),
            old(self)@.store.count < usize::MAX,
        ensures
            final(self).wf(),
            r.0 as nat == old(self)@.store.count,
            final(self)@.store == after_insert(old(self)@.store, title@),
            final(self)@.bus == old(self)@.bus,
            r.1.observers@ == old(self)@.bus.subscribers,
    {
        let id = self.inner.insert(title);
        let event = self.bus.notify();
        (id, event)
    }

    /// Removes the item that carries `id`. Where there is one, the change
    /// signal is returned, addressed to every live observer; an unknown `id`
    /// changes nothing and raises no signal.
    pub fn remove(&mut self, id: usize) -> (r: Option<ListChangedEvent>)
        requires
            old(self).wf(),
        ensures
            final(self).wf(),
            final(self)@.store == after_remove(old(self)@.store, id as nat),
            final(self)@.bus == old(self)@.bus,
            r is Some <==> has_id(old(self)@.store.items, id as nat),
            r matches Some(e) ==> e.observers@ == old(self)@.bus.subscribers,
    {
        if self.inner.remove(id) {
            Some(self.bus.notify())
        } else {
            None
        }
    }

    /// A copy of the items in display order.
    pub fn snapshot(&self) -> (r: Vec<TodoItem>)
        ensures
            views_of(r@) == self@.store.items,
    {
        self.inner.snapshot()
    }
}

} // verus!
