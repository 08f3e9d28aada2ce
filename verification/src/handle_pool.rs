//! The pool of open file handles behind the stateless NFS v3 protocol.
//!
//! NFS v3 has no open or close: every request names a file by its id alone.
//! The storage behind it is stateful: opening a file yields a handle that owns
//! buffers and staging data. The pool keeps one handle per file id, gives the
//! least recently used ones back when it is full, and leaves alone those that
//! a request is using.
use std::collections::{HashMap, VecDeque};
use vstd::prelude::*;

verus! {

broadcast use vstd::std_specs::hash::group_hash_axioms;

/// The number of handles that the pool keeps while none of the oldest is in use.
pub const HANDLE_POOL_CAPACITY: usize = 64;

/// One pooled handle.
#[derive(Clone, Copy, PartialEq, Eq, Structural, Debug)]
pub struct HandleEntry {
    pub file_handle: u64,
    /// The number of requests that use the handle right now.
    pub pin_count: u32,
}

/// What an insertion pushed out of the pool. The caller must release all of it.
#[derive(Clone, PartialEq, Eq, Debug)]
pub struct InsertResult {
    /// Pairs of file id and handle, oldest first, that made room.
    pub evicted: Vec<(u64, u64)>,
    /// The handle that the file had in the pool before.
    pub replaced: Option<u64>,
}

/// The contents of a pool: the entry of each file id, and the ids from the
/// least to the most recently used.
#[verifier::ext_equal]
pub ghost struct PoolState {
    pub entries: Map<u64, HandleEntry>,
    pub order: Seq<u64>,
}

/// `order` without `ino`.
pub open spec fn without(order: Seq<u64>, ino: u64) -> Seq<u64> {
    if order.contains(ino) {
        order.remove(order.index_of(ino))
    } else {
        order
    }
}

impl PoolState {
    /// Every id with an entry stands in the order exactly once, and no other.
    pub open spec fn wf(self) -> bool {
        &&& self.order.no_duplicates()
        &&& forall|ino: u64| #[trigger]
            self.order.contains(ino) <==> self.entries.contains_key(ino)
    }

    pub open spec fn empty() -> PoolState {
        PoolState { entries: Map::empty(), order: Seq::empty() }
    }

    /// The handle that is pooled for `ino`.
    pub open spec fn handle(self, ino: u64) -> Option<u64> {
        if self.entries.contains_key(ino) {
            Some(self.entries[ino].file_handle)
        } else {
            None
        }
    }

    /// The number of uses of `ino` in flight.
    pub open spec fn pins(self, ino: u64) -> nat {
        if self.entries.contains_key(ino) {
            self.entries[ino].pin_count as nat
        } else {
            0
        }
    }

    /// One more use of `ino` fits in the counter.
    pub open spec fn can_pin(self, ino: u64) -> bool {
        self.pins(ino) < u32::MAX
    }

    /// One more use of `ino`.
    pub open spec fn pin(self, ino: u64) -> PoolState {
        if self.entries.contains_key(ino) {
            let entry = self.entries[ino];
            PoolState {
                entries: self.entries.insert(
                    ino,
                    HandleEntry { pin_count: (entry.pin_count + 1) as u32, ..entry },
                ),
                ..self
            }
        } else {
            self
        }
    }

    /// One use of `ino` less, if there is one.
    pub open spec fn unpin(self, ino: u64) -> PoolState {
        if self.pins(ino) > 0 {
            let entry = self.entries[ino];
            PoolState {
                entries: self.entries.insert(
                    ino,
                    HandleEntry { pin_count: (entry.pin_count - 1) as u32, ..entry },
                ),
                ..self
            }
        } else {
            self
        }
    }

    /// `ino` pinned, and now the most recently used.
    pub open spec fn acquire(self, ino: u64) -> PoolState {
        if self.entries.contains_key(ino) {
            PoolState { order: without(self.order, ino).push(ino), ..self.pin(ino) }
        } else {
            self
        }
    }

    /// The pool without `ino`.
    pub open spec fn remove(self, ino: u64) -> PoolState {
        PoolState { entries: self.entries.remove(ino), order: without(self.order, ino) }
    }

    /// The oldest entry stands in the way of a new one and may go.
    pub open spec fn must_evict(self) -> bool {
        &&& self.order.len() >= HANDLE_POOL_CAPACITY
        &&& self.order.len() > 0
        &&& self.entries[self.order[0]].pin_count == 0
    }

    /// The oldest id and its handle.
    pub open spec fn oldest(self) -> (u64, u64) {
        (self.order[0], self.entries[self.order[0]].file_handle)
    }

    /// The pool without its oldest entry.
    pub open spec fn drop_oldest(self) -> PoolState {
        PoolState { entries: self.entries.remove(self.order[0]), order: self.order.skip(1) }
    }

    /// Oldest entries leave, one by one, until a new one fits or the oldest is
    /// in use: what stays.
    pub open spec fn shrunk(self) -> PoolState
        decreases self.order.len(),
    {
        if self.must_evict() {
            self.drop_oldest().shrunk()
        } else {
            self
        }
    }

    /// Oldest entries leave, one by one, until a new one fits or the oldest is
    /// in use: what leaves, in that order.
    pub open spec fn evictions(self) -> Seq<(u64, u64)>
        decreases self.order.len(),
    {
        if self.must_evict() {
            seq![self.oldest()] + self.drop_oldest().evictions()
        } else {
            seq![]
        }
    }

    /// `file_handle` pooled for `ino`, unused, as the most recently used.
    pub open spec fn insert(self, ino: u64, file_handle: u64) -> PoolState {
        let room = self.remove(ino).shrunk();
        PoolState {
            entries: room.entries.insert(ino, HandleEntry { file_handle, pin_count: 0 }),
            order: room.order.push(ino),
        }
    }

    /// What an insertion for `ino` pushes out besides the old handle of `ino`.
    pub open spec fn insert_evicts(self, ino: u64) -> Seq<(u64, u64)> {
        self.remove(ino).evictions()
    }

    /// Every id with its handle, oldest first.
    pub open spec fn pairs(self) -> Seq<(u64, u64)> {
        self.order.map_values(|ino: u64| (ino, self.entries[ino].file_handle))
    }
}

/// In a valid pool the order is as long as there are entries.
pub proof fn lemma_order_len(p: PoolState)
    requires
        p.wf(),
    ensures
        p.entries.dom().finite(),
        p.entries.len() == p.order.len(),
{
    p.order.unique_seq_to_set();
    assert(p.order.to_set() =~= p.entries.dom());
}

/// What is left of an order without duplicates once `ino` is taken out.
pub proof fn lemma_without(order: Seq<u64>, ino: u64)
    requires
        order.no_duplicates(),
    ensures
        without(order, ino).no_duplicates(),
        forall|k: u64| #[trigger]
            without(order, ino).contains(k) <==> order.contains(k) && k != ino,
        without(order, ino).len() == order.len() - (if order.contains(ino) {
            1int
        } else {
            0int
        }),
{
    let w = without(order, ino);
    if order.contains(ino) {
        let p = order.index_of(ino);
        assert(0 <= p < order.len() && order[p] == ino);
        assert forall|k: u64| #[trigger] w.contains(k) <==> order.contains(k) && k != ino by {
            if w.contains(k) {
                let i = w.index_of(k);
                assert(order[if i < p {
                    i
                } else {
                    i + 1
                }] == k);
            }
            if order.contains(k) && k != ino {
                let i = order.index_of(k);
                assert(w[if i < p {
                    i
                } else {
                    i - 1
                }] == k);
            }
        }
    }
}

/// Dropping the oldest entry leaves a valid pool.
pub proof fn lemma_drop_oldest(p: PoolState)
    requires
        p.wf(),
        p.order.len() > 0,
    ensures
        p.drop_oldest().wf(),
        p.entries.contains_key(p.order[0]),
{
    let q = p.drop_oldest();
    assert(p.order.contains(p.order[0]));
    assert forall|k: u64| #[trigger] q.order.contains(k) <==> q.entries.contains_key(k) by {
        if q.order.contains(k) {
            let i = q.order.index_of(k);
            assert(p.order[i + 1] == k);
            assert(p.order.contains(k));
        }
        if q.entries.contains_key(k) {
            assert(p.order.contains(k));
            let i = p.order.index_of(k);
            assert(q.order[i - 1] == k);
        }
    }
}

/// A shrunk pool is valid.
pub proof fn lemma_shrunk_wf(p: PoolState)
    requires
        p.wf(),
    ensures
        p.shrunk().wf(),
    decreases p.order.len(),
{
    if p.must_evict() {
        lemma_drop_oldest(p);
        lemma_shrunk_wf(p.drop_oldest());
    }
}

/// Taking an entry out leaves a valid pool.
pub proof fn lemma_remove_wf(p: PoolState, ino: u64)
    requires
        p.wf(),
    ensures
        p.remove(ino).wf(),
{
    lemma_without(p.order, ino);
}

/// A pool that lost entries from its old end holds no id that it did not hold.
pub proof fn lemma_shrunk_subset(p: PoolState, ino: u64)
    requires
        p.wf(),
        !p.entries.contains_key(ino),
    ensures
        !p.shrunk().entries.contains_key(ino),
    decreases p.order.len(),
{
    if p.must_evict() {
        lemma_drop_oldest(p);
        lemma_shrunk_subset(p.drop_oldest(), ino);
    }
}

/// An insertion leaves a valid pool.
pub proof fn lemma_insert_wf(p: PoolState, ino: u64, file_handle: u64)
    requires
        p.wf(),
    ensures
        p.insert(ino, file_handle).wf(),
{
    lemma_remove_wf(p, ino);
    let r = p.remove(ino);
    lemma_shrunk_wf(r);
    lemma_shrunk_subset(r, ino);
    let room = r.shrunk();
    let q = p.insert(ino, file_handle);
    assert(!room.order.contains(ino));
    assert forall|k: u64| #[trigger] q.order.contains(k) <==> q.entries.contains_key(k) by {
        if q.order.contains(k) {
            let i = q.order.index_of(k);
            if i < room.order.len() {
                assert(room.order[i] == k);
                assert(room.order.contains(k));
            }
        }
        if q.entries.contains_key(k) {
            if k == ino {
                assert(q.order[room.order.len() as int] == k);
            } else {
                assert(room.order.contains(k));
                let i = room.order.index_of(k);
                assert(q.order[i] == k);
            }
        }
    }
}

/// A pool of open file handles, one per file id.
#[derive(Debug)]
pub struct HandlePool {
    handles: HashMap<u64, HandleEntry>,
    order: VecDeque<u64>,
}

impl View for HandlePool {
    type V = PoolState;

    closed spec fn view(&self) -> PoolState {
        PoolState { entries: self.handles@, order: self.order@ }
    }
}

impl HandlePool {
    pub open spec fn wf(self) -> bool {
        self@.wf()
    }

    /// An empty pool.
    pub fn new() -> (r: HandlePool)
        ensures
            r.wf(),
            r@ == PoolState::empty(),
    {
        HandlePool { handles: HashMap::new(), order: VecDeque::new() }
    }

    /// The number of pooled handles.
    pub fn len(&self) -> (r: usize)
        requires
            self.wf(),
        ensures
            r == self@.order.len(),
    {
        self.order.len()
    }

    /// Tells whether the pool holds no handle.
    pub fn is_empty(&self) -> (r: bool)
        requires
            self.wf(),
        ensures
            r == (self@.order.len() == 0),
    {
        self.order.len() == 0
    }

    /// The ids in the pool, from the least to the most recently used.
    pub fn access_order(&self) -> (r: Vec<u64>)
        ensures
            r@ == self@.order,
    {
        let mut out: Vec<u64> = Vec::new();
        let mut i: usize = 0;
        while i < self.order.len()
            invariant
                i <= self.order@.len(),
                out@ == self.order@.take(i as int),
            decreases self.order@.len() - i,
        {
            out.push(self.order[i]);
            i = i + 1;
            assert(self.order@.take(i as int) =~= self.order@.take(i - 1).push(
                self.order@[i - 1],
            ));
        }
        assert(self.order@.take(i as int) =~= self.order@);
        out
    }

    /// The number of uses of `ino` in flight; none where it is not pooled.
    pub fn pin_count(&self, ino: u64) -> (r: u32)
        ensures
            r == self@.pins(ino),
    {
        match self.handles.get(&ino) {
            Some(entry) => entry.pin_count,
            None => 0,
        }
    }

    /// Counts one more use of `ino` and returns its handle. The order stays.
    pub fn pin(&mut self, ino: u64) -> (r: Option<u64>)
        requires
            old(self).wf(),
            old(self)@.can_pin(ino),
        ensures
            final(self).wf(),
            final(self)@ == old(self)@.pin(ino),
            r == old(self)@.handle(ino),
    {
        match self.handles.get(&ino) {
            Some(entry) => {
                let file_handle: u64 = entry.file_handle;
                let pin_count: u32 = entry.pin_count + 1;
                self.handles.insert(ino, HandleEntry { file_handle, pin_count });
                assert(self@ =~= old(self)@.pin(ino));
                Some(file_handle)
            },
            None => None,
        }
    }

    /// Counts one use of `ino` less.
    pub fn unpin(&mut self, ino: u64)
        requires
            old(self).wf(),
        ensures
            final(self).wf(),
            final(self)@ == old(self)@.unpin(ino),
    {
        if let Some(entry) = self.handles.get(&ino) {
            let file_handle: u64 = entry.file_handle;
            let pin_count: u32 = entry.pin_count;
            if pin_count > 0 {
                self.handles.insert(ino, HandleEntry { file_handle, pin_count: pin_count - 1 });
            }
        }
        assert(self@ =~= old(self)@.unpin(ino));
    }

    /// Takes `ino` out of the order.
    fn order_remove(&mut self, ino: u64)
        requires
            old(self)@.order.no_duplicates(),
        ensures
            final(self)@.order == without(old(self)@.order, ino),
            final(self)@.entries == old(self)@.entries,
    {
        let mut i: usize = 0;
        while i < self.order.len()
            invariant
                i <= self.order@.len(),
                *self == *old(self),
                self.order@.no_duplicates(),
                forall|j: int| 0 <= j < i ==> self.order@[j] != ino,
            decreases self.order@.len() - i,
        {
            if self.order[i] == ino {
                assert(self.order@.contains(ino));
                assert(self.order@.index_of(ino) == i);
                self.order.remove(i);
                return ;
            }
            i = i + 1;
        }
        assert(!self.order@.contains(ino));
    }

    /// Counts one more use of `ino`, makes it the most recently used and
    /// returns its handle. Uses stack: the entry stays until all have ended.
    pub fn acquire_shared(&mut self, ino: u64) -> (r: Option<u64>)
        requires
            old(self).wf(),
            old(self)@.can_pin(ino),
        ensures
            final(self).wf(),
            final(self)@ == old(self)@.acquire(ino),
            r == old(self)@.handle(ino),
    {
        let handle = self.pin(ino);
        if handle.is_none() {
            return None;
        }
        let ghost mid = self@;
        proof {
            assert(mid.order.contains(ino));
            lemma_without(mid.order, ino);
        }
        let n: usize = self.order.len();
        if self.order[n - 1] != ino {
            self.order_remove(ino);
            self.order.push_back(ino);
        } else {
            assert(mid.order.index_of(ino) == n - 1);
            assert(without(mid.order, ino).push(ino) =~= mid.order);
        }
        proof {
            let w = without(mid.order, ino);
            assert(self@.order == w.push(ino));
            assert forall|k: u64| #[trigger]
                self@.order.contains(k) <==> self@.entries.contains_key(k) by {
                if self@.order.contains(k) {
                    let i = self@.order.index_of(k);
                    if i < w.len() {
                        assert(w[i] == k);
                        assert(w.contains(k));
                    }
                }
                if self@.entries.contains_key(k) {
                    if k == ino {
                        assert(self@.order[w.len() as int] == k);
                    } else {
                        assert(w.contains(k));
                        let i = w.index_of(k);
                        assert(self@.order[i] == k);
                    }
                }
            }
            assert(self@ =~= old(self)@.acquire(ino));
        }
        handle
    }

    /// The handle of `ino`, left as it is. The pool may give the handle away
    /// as soon as another request runs.
    pub fn peek(&self, ino: u64) -> (r: Option<u64>)
        ensures
            r == self@.handle(ino),
    {
        match self.handles.get(&ino) {
            Some(entry) => Some(entry.file_handle),
            None => None,
        }
    }

    /// Takes `ino` out of the pool and returns the handle that it had.
    pub fn remove(&mut self, ino: u64) -> (r: Option<u64>)
        requires
            old(self).wf(),
        ensures
            final(self).wf(),
            final(self)@ == old(self)@.remove(ino),
            r == old(self)@.handle(ino),
    {
        proof {
            lemma_remove_wf(self@, ino);
        }
        match self.handles.remove(&ino) {
            Some(entry) => {
                self.order_remove(ino);
                Some(entry.file_handle)
            },
            None => {
                assert(!old(self)@.order.contains(ino));
                assert(self@ =~= old(self)@.remove(ino));
                None
            },
        }
    }

    /// Empties the pool and returns every id with its handle, oldest first.
    pub fn drain(&mut self) -> (r: Vec<(u64, u64)>)
        requires
            old(self).wf(),
        ensures
            final(self).wf(),
            final(self)@ == PoolState::empty(),
            r@ == old(self)@.pairs(),
    {
        let mut out: Vec<(u64, u64)> = Vec::new();
        let mut i: usize = 0;
        while i < self.order.len()
            invariant
                i <= self.order@.len(),
                *self == *old(self),
                self.wf(),
                out@ == self@.pairs().take(i as int),
            decreases self.order@.len() - i,
        {
            let ino: u64 = self.order[i];
            assert(self@.order.contains(ino));
            match self.handles.get(&ino) {
                Some(entry) => out.push((ino, entry.file_handle)),
                None => {
                    assert(false);
                },
            }
            i = i + 1;
            assert(self@.pairs().take(i as int) =~= self@.pairs().take(i - 1).push(
                self@.pairs()[i - 1],
            ));
        }
        assert(self@.pairs().take(i as int) =~= self@.pairs());
        self.order.clear();
        self.handles.clear();
        assert(self@ =~= PoolState::empty());
        out
    }

    /// Pools `file_handle` for `ino` as the most recently used entry.
    ///
    /// Where the pool is full the oldest entries leave first, but never one in
    /// use: an oldest entry in use lets the pool grow past its capacity, since
    /// a newer entry may be a file that was just created and whose first write
    /// is still to come. The pool shrinks back at the next insertion.
    pub fn insert(&mut self, ino: u64, file_handle: u64) -> (r: InsertResult)
        requires
            old(self).wf(),
        ensures
            final(self).wf(),
            final(self)@ == old(self)@.insert(ino, file_handle),
            r.evicted@ == old(self)@.insert_evicts(ino),
            r.replaced == old(self)@.handle(ino),
    {
        let replaced = self.remove(ino);
        let ghost start = self@;
        let mut evicted: Vec<(u64, u64)> = Vec::new();
        loop
            invariant
                self.wf(),
                start.shrunk() == self@.shrunk(),
                start.evictions() == evicted@ + self@.evictions(),
            ensures
                self.wf(),
                self@ == start.shrunk(),
                evicted@ == start.evictions(),
            decreases self.order@.len(),
        {
            proof {
                lemma_order_len(self@);
            }
            if self.handles.len() < HANDLE_POOL_CAPACITY {
                assert(evicted@ + self@.evictions() =~= evicted@);
                break;
            }
            let lru_ino: u64 = self.order[0];
            assert(self@.order.contains(lru_ino));
            let entry = match self.handles.get(&lru_ino) {
                Some(entry) => *entry,
                None => {
                    assert(false);
                    break;
                },
            };
            if entry.pin_count != 0 {
                assert(evicted@ + self@.evictions() =~= evicted@);
                break;
            }
            let ghost before = self@;
            proof {
                lemma_drop_oldest(self@);
            }
            self.order.pop_front();
            self.handles.remove(&lru_ino);
            assert(self@ =~= before.drop_oldest());
            let ghost so_far = evicted@;
            evicted.push((lru_ino, entry.file_handle));
            assert(so_far + before.evictions() =~= evicted@ + self@.evictions());
        }
        proof {
            lemma_insert_wf(old(self)@, ino, file_handle);
        }
        self.handles.insert(ino, HandleEntry { file_handle, pin_count: 0 });
        self.order.push_back(ino);
        assert(self@ =~= old(self)@.insert(ino, file_handle));
        InsertResult { evicted, replaced }
    }
}

/// The number of entries that leave to make room.
pub open spec fn evict_count(p: PoolState) -> nat {
    p.evictions().len()
}

/// Only the oldest entries leave, as many as needed, and all of them unused:
/// what leaves is a prefix of the pool in its order, what stays is the rest
/// unchanged, and afterwards a new entry fits or the oldest is in use.
pub proof fn law_eviction_takes_the_oldest(p: PoolState)
    requires
        p.wf(),
    ensures
        evict_count(p) <= p.order.len(),
        p.evictions() == p.pairs().take(evict_count(p) as int),
        p.shrunk().order == p.order.skip(evict_count(p) as int),
        forall|i: int|
            0 <= i < evict_count(p) ==> p.entries[#[trigger] p.order[i]].pin_count == 0,
        forall|k: u64| #[trigger]
            p.shrunk().entries.contains_key(k) ==> p.entries.contains_key(k)
                && p.shrunk().entries[k] == p.entries[k],
        evict_count(p) > 0 ==> p.shrunk().order.len() >= HANDLE_POOL_CAPACITY - 1,
        p.shrunk().order.len() < HANDLE_POOL_CAPACITY
            || p.shrunk().entries[p.shrunk().order[0]].pin_count > 0,
    decreases p.order.len(),
{
    if p.must_evict() {
        let q = p.drop_oldest();
        lemma_drop_oldest(p);
        law_eviction_takes_the_oldest(q);
        assert(forall|i: int| 0 <= i < q.order.len() ==> q.order[i] == p.order[i + 1]);
        assert forall|i: int| 0 <= i < q.order.len() implies #[trigger] q.pairs()[i]
            == p.pairs()[i + 1] by {
            assert(q.order[i] == p.order[i + 1]);
            assert(p.order[0] != p.order[i + 1]);
        }
        assert(p.evictions() =~= p.pairs().take(evict_count(p) as int));
        assert(p.shrunk().order =~= p.order.skip(evict_count(p) as int));
        assert forall|i: int| 0 <= i < evict_count(p) implies p.entries[#[trigger] p.order[i]].pin_count
            == 0 by {
            if i > 0 {
                assert(q.order[i - 1] == p.order[i]);
                assert(p.order[0] != p.order[i]);
            }
        }
    } else {
        assert(p.evictions() =~= p.pairs().take(0));
        assert(p.order.skip(0) =~= p.order);
    }
}

/// An entry in use is never pushed out: whatever is inserted for another file,
/// it stays, with its handle and its count.
pub proof fn law_entries_in_use_stay(p: PoolState, ino: u64, file_handle: u64, other: u64)
    requires
        p.wf(),
        other != ino,
        p.pins(other) > 0,
    ensures
        p.insert(ino, file_handle).entries.contains_key(other),
        p.insert(ino, file_handle).entries[other] == p.entries[other],
{
    let r = p.remove(ino);
    lemma_remove_wf(p, ino);
    law_insert_hands_back_each_handle(p, ino, file_handle, other);
    law_eviction_takes_the_oldest(r);
    if r.evictions().contains((other, p.entries[other].file_handle)) {
        let i = r.evictions().index_of((other, p.entries[other].file_handle));
        assert(r.pairs()[i].0 == other);
        assert(r.order[i] == other);
        assert(false);
    }
}

/// No handle is lost and none is handed back twice: of each other file that was
/// pooled, an insertion keeps the entry or hands its handle back, never both.
pub proof fn law_insert_hands_back_each_handle(
    p: PoolState,
    ino: u64,
    file_handle: u64,
    other: u64,
)
    requires
        p.wf(),
        other != ino,
        p.entries.contains_key(other),
    ensures
        ({
            let q = p.insert(ino, file_handle);
            let pair = (other, p.entries[other].file_handle);
            &&& q.entries.contains_key(other) <==> !p.insert_evicts(ino).contains(pair)
            &&& q.entries.contains_key(other) ==> q.entries[other] == p.entries[other]
        }),
        p.insert_evicts(ino).no_duplicates(),
{
    let r = p.remove(ino);
    lemma_remove_wf(p, ino);
    law_eviction_takes_the_oldest(r);
    lemma_shrunk_wf(r);
    let k = evict_count(r) as int;
    let ev = r.evictions();
    let pair = (other, p.entries[other].file_handle);
    assert(r.entries.contains_key(other));
    assert(r.order.contains(other));
    let at = r.order.index_of(other);
    assert(r.pairs()[at] == pair);
    if at < k {
        assert(ev[at] == pair);
        if r.shrunk().entries.contains_key(other) {
            assert(r.shrunk().order.contains(other));
            let j = r.shrunk().order.index_of(other);
            assert(r.order[j + k] == other);
            assert(false);
        }
    } else {
        assert(r.shrunk().order[at - k] == other);
        assert(r.shrunk().order.contains(other));
        if ev.contains(pair) {
            let j = ev.index_of(pair);
            assert(r.pairs()[j].0 == other);
            assert(r.order[j] == other);
            assert(false);
        }
    }
    assert forall|i: int, j: int| 0 <= i < ev.len() && 0 <= j < ev.len() && i != j implies ev[i]
        != ev[j] by {
        assert(ev[i].0 == r.order[i]);
        assert(ev[j].0 == r.order[j]);
    }
}

/// After an insertion the file has the new handle, unused.
pub proof fn law_insert_then_lookup(p: PoolState, ino: u64, file_handle: u64)
    requires
        p.wf(),
    ensures
        p.insert(ino, file_handle).handle(ino) == Some(file_handle),
        p.insert(ino, file_handle).pins(ino) == 0,
        p.insert(ino, file_handle).order.last() == ino,
{
}

/// An insertion leaves at most the capacity, unless the oldest entry is in use.
/// So the pool is back within its capacity at the first insertion after all
/// uses have ended.
pub proof fn law_pool_is_bounded(p: PoolState, ino: u64, file_handle: u64)
    requires
        p.wf(),
    ensures
        ({
            let q = p.insert(ino, file_handle);
            ||| q.order.len() <= HANDLE_POOL_CAPACITY
            ||| q.pins(q.order[0]) > 0
        }),
        (forall|k: u64| p.pins(k) == 0) ==> p.insert(ino, file_handle).order.len()
            <= HANDLE_POOL_CAPACITY,
{
    let r = p.remove(ino);
    lemma_remove_wf(p, ino);
    law_eviction_takes_the_oldest(r);
    lemma_shrunk_wf(r);
    lemma_shrunk_subset(r, ino);
    let room = r.shrunk();
    if room.order.len() >= HANDLE_POOL_CAPACITY {
        let oldest = room.order[0];
        assert(room.order.contains(oldest));
        assert(p.insert(ino, file_handle).order[0] == oldest);
        assert(p.pins(oldest) > 0);
    }
}

/// A use that begins and ends leaves the pool as it was; begun through
/// [`HandlePool::acquire_shared`], it leaves the entries as they were.
pub proof fn law_unpin_undoes_pin(p: PoolState, ino: u64)
    requires
        p.wf(),
        p.can_pin(ino),
    ensures
        p.pin(ino).unpin(ino) == p,
        p.acquire(ino).unpin(ino).entries == p.entries,
{
    assert(p.pin(ino).unpin(ino).entries =~= p.entries);
    assert(p.acquire(ino).unpin(ino).entries =~= p.entries);
}

/// Uses stack: each counts on its own, and only its own file's entry changes.
pub proof fn law_uses_stack(p: PoolState, ino: u64, other: u64)
    requires
        p.wf(),
        p.entries.contains_key(ino),
        p.can_pin(ino),
        other != ino,
    ensures
        p.acquire(ino).pins(ino) == p.pins(ino) + 1,
        p.acquire(ino).handle(ino) == p.handle(ino),
        p.acquire(ino).order.last() == ino,
        p.acquire(ino).pins(other) == p.pins(other),
        p.acquire(ino).handle(other) == p.handle(other),
{
}

/// Emptying the pool hands back each pooled handle, once.
pub proof fn law_drain_hands_back_each_handle(p: PoolState, ino: u64, file_handle: u64)
    requires
        p.wf(),
    ensures
        p.pairs().no_duplicates(),
        p.pairs().contains((ino, file_handle)) <==> p.handle(ino) == Some(file_handle),
{
    let pairs = p.pairs();
    assert forall|i: int, j: int|
        0 <= i < pairs.len() && 0 <= j < pairs.len() && i != j implies pairs[i] != pairs[j] by {
        assert(pairs[i].0 == p.order[i]);
        assert(pairs[j].0 == p.order[j]);
    }
    if pairs.contains((ino, file_handle)) {
        let i = pairs.index_of((ino, file_handle));
        assert(p.order[i] == ino);
        assert(p.order.contains(ino));
    }
    if p.handle(ino) == Some(file_handle) {
        assert(p.order.contains(ino));
        let i = p.order.index_of(ino);
        assert(pairs[i] == (ino, file_handle));
    }
}

} // verus!
