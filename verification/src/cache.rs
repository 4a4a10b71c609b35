//! The bounded first-in first-out cache between the pipeline and its clients.
use std::collections::VecDeque;
use vstd::prelude::*;

verus! {

/// The signals that can be cached.
#[derive(Debug, Clone, Copy, PartialEq, Eq, Structural)]
pub enum Kind {
    Logs,
    Traces,
}

impl Kind {
    /// The word for this kind in an item's header.
    pub open spec fn word(self) -> Seq<char> {
        match self {
            Kind::Logs => "logs"@,
            Kind::Traces => "traces"@,
        }
    }

    /// The word for this kind in an item's header.
    pub fn as_str(self) -> (word: &'static str)
        ensures
            word@ == self.word(),
    {
        match self {
            Kind::Logs => "logs",
            Kind::Traces => "traces",
        }
    }
}

/// One cached request, under the number it was given when it came in.
#[derive(Debug)]
pub struct CachedItem {
    pub id: u64,
    pub kind: Kind,
    pub bytes: Vec<u8>,
}

/// A [`CachedItem`] as a mathematical value.
pub struct ItemView {
    pub id: u64,
    pub kind: Kind,
    pub bytes: Seq<u8>,
}

impl View for CachedItem {
    type V = ItemView;

    open spec fn view(&self) -> ItemView {
        ItemView { id: self.id, kind: self.kind, bytes: self.bytes@ }
    }
}

impl Clone for CachedItem {
    fn clone(&self) -> (item: Self)
        ensures
            item@ == self@,
    {
        let bytes: Vec<u8> = self.bytes.clone();
        assert(bytes@ =~= self.bytes@);
        CachedItem { id: self.id, kind: self.kind, bytes }
    }
}

/// What came of a push: the number of the new item, and the numbers of the items that were lost to
/// it. The new item is itself among these if it was turned away.
#[derive(Debug)]
pub struct Pushed {
    pub id: u64,
    pub lost: Vec<u64>,
}

/// The number of payload bytes in `items` together.
pub open spec fn total_bytes(items: Seq<ItemView>) -> nat
    decreases items.len(),
{
    if items.len() == 0 {
        0
    } else {
        total_bytes(items.drop_last()) + items.last().bytes.len()
    }
}

/// A [`FifoCache`] as a mathematical value: what is cached, oldest first, which item is out with
/// a client, the number of the next item, and the two limits.
#[verifier::ext_equal]
pub struct CacheView {
    pub items: Seq<ItemView>,
    pub inflight: Option<u64>,
    pub next_id: u64,
    pub max_items: nat,
    pub max_total_bytes: nat,
}

impl CacheView {
    /// What holds of every cache:
    /// - the numbers of the items are below `next_id` and rise from the oldest to the newest;
    /// - there are never more items, and never more bytes, than allowed;
    /// - an item in flight is cached, and is the oldest.
    pub open spec fn valid(self) -> bool {
        &&& 1 <= self.next_id
        &&& forall|i: int|
            0 <= i < self.items.len() ==> 1 <= (#[trigger] self.items[i]).id < self.next_id
        &&& forall|i: int, j: int|
            0 <= i < j < self.items.len() ==> (#[trigger] self.items[i]).id < (
            #[trigger] self.items[j]).id
        &&& self.items.len() <= self.max_items
        &&& total_bytes(self.items) <= self.max_total_bytes
        &&& self.inflight is Some ==> self.head_inflight()
    }

    /// Whether item `id` is cached.
    pub open spec fn holds(self, id: u64) -> bool {
        exists|i: int| 0 <= i < self.items.len() && (#[trigger] self.items[i]).id == id
    }

    /// Whether the oldest item is in flight.
    pub open spec fn head_inflight(self) -> bool {
        self.items.len() > 0 && self.inflight == Some(self.items[0].id)
    }

    /// The number of items that cannot be dropped: one, the oldest, while it is in flight.
    pub open spec fn pinned(self) -> int {
        if self.head_inflight() {
            1
        } else {
            0
        }
    }

    /// What is left of the items once `count` of them are dropped: the oldest go first, but while
    /// the oldest is in flight the newest go instead.
    pub open spec fn after_drops(self, count: int) -> Seq<ItemView> {
        if self.head_inflight() {
            self.items.take(self.items.len() - count)
        } else {
            self.items.skip(count)
        }
    }

    /// The numbers of the items that `count` drops take out, in the order in which they go.
    pub open spec fn dropped_ids(self, count: int) -> Seq<u64> {
        if self.head_inflight() {
            Seq::new(count as nat, |i: int| self.items[self.items.len() - 1 - i].id)
        } else {
            Seq::new(count as nat, |i: int| self.items[i].id)
        }
    }

    /// Whether one more item, of `incoming` bytes, fits next to `items`.
    pub open spec fn has_room(self, items: Seq<ItemView>, incoming: nat) -> bool {
        items.len() < self.max_items && total_bytes(items) + incoming <= self.max_total_bytes
    }

    /// Whether an item of `incoming` bytes can be cached at all: it fits next to what cannot be
    /// dropped.
    pub open spec fn takes(self, incoming: nat) -> bool {
        self.has_room(self.items.take(self.pinned()), incoming)
    }

    /// Whether `count` is the number of items lost to a push of `incoming` bytes: the smallest
    /// number of drops after which the new item fits, or one, the new item itself, if it can not
    /// be cached.
    pub open spec fn drops_needed(self, incoming: nat, count: int) -> bool {
        if self.takes(incoming) {
            &&& 0 <= count <= self.items.len() - self.pinned()
            &&& self.has_room(self.after_drops(count), incoming)
            &&& forall|k: int|
                0 <= k < count ==> !self.has_room(#[trigger] self.after_drops(k), incoming)
        } else {
            count == 1
        }
    }

    /// The numbers of the items lost to a push of `incoming` bytes, `count` of them.
    pub open spec fn lost_ids(self, incoming: nat, count: int) -> Seq<u64> {
        if self.takes(incoming) {
            self.dropped_ids(count)
        } else {
            seq![self.next_id]
        }
    }

    /// This cache after a push to which `count` items are lost.
    pub open spec fn pushed(self, kind: Kind, bytes: Seq<u8>, count: int) -> CacheView {
        CacheView {
            items: if self.takes(bytes.len()) {
                self.after_drops(count).push(ItemView { id: self.next_id, kind, bytes })
            } else {
                self.items
            },
            next_id: (self.next_id + 1) as u64,
            ..self
        }
    }

    /// The item that can be handed to a client: the oldest, while no item is in flight.
    pub open spec fn available(self) -> Option<ItemView> {
        if self.inflight is None && self.items.len() > 0 {
            Some(self.items[0])
        } else {
            None
        }
    }

    /// This cache once the available item, if there is one, is in flight.
    pub open spec fn reserved(self) -> CacheView {
        match self.available() {
            Some(item) => CacheView { inflight: Some(item.id), ..self },
            None => self,
        }
    }

    /// Whether an acknowledgement of `id` counts: `id` is the oldest item and in flight.
    pub open spec fn can_ack(self, id: u64) -> bool {
        self.head_inflight() && self.items[0].id == id
    }

    /// This cache after an acknowledgement of `id`.
    pub open spec fn acked(self, id: u64) -> CacheView {
        if self.can_ack(id) {
            CacheView { items: self.items.drop_first(), inflight: None, ..self }
        } else {
            self
        }
    }

    /// This cache once `id` is no longer in flight.
    pub open spec fn released(self, id: u64) -> CacheView {
        if self.inflight == Some(id) {
            CacheView { inflight: None, ..self }
        } else {
            self
        }
    }
}

/// A first-in first-out cache of items, bounded in number and in bytes. At most one item is in
/// flight, that is, handed to a client that has not answered yet.
#[derive(Debug)]
pub struct FifoCache {
    q: VecDeque<CachedItem>,
    inflight: Option<u64>,
    next_id: u64,
    total_bytes: usize,
    max_items: usize,
    max_total_bytes: usize,
}

impl View for FifoCache {
    type V = CacheView;

    closed spec fn view(&self) -> CacheView {
        CacheView {
            items: item_views(self.q@),
            inflight: self.inflight,
            next_id: self.next_id,
            max_items: self.max_items as nat,
            max_total_bytes: self.max_total_bytes as nat,
        }
    }
}

/// The views of `items`, in their order.
spec fn item_views(items: Seq<CachedItem>) -> Seq<ItemView> {
    Seq::new(items.len(), |i: int| items[i]@)
}

/// The bytes of all items are those of the oldest and those of the rest.
pub(crate) proof fn lemma_total_bytes_first(items: Seq<ItemView>)
    requires
        items.len() > 0,
    ensures
        total_bytes(items) == items[0].bytes.len() + total_bytes(items.drop_first()),
    decreases items.len(),
{
    if items.len() > 1 {
        lemma_total_bytes_first(items.drop_last());
        assert(items.drop_last().drop_first() =~= items.drop_first().drop_last());
        assert(items.drop_first().last() == items.last());
    } else {
        assert(items.drop_last() =~= Seq::empty());
        assert(items.drop_first() =~= Seq::empty());
    }
}

impl FifoCache {
    /// Whether the running byte count agrees with the items.
    pub closed spec fn counted(&self) -> bool {
        self.total_bytes == total_bytes(self@.items)
    }

    /// Whether the cache is well formed.
    pub open spec fn wf(&self) -> bool {
        self@.valid() && self.counted()
    }

    /// An empty cache with the given limits.
    pub fn new(max_items: usize, max_total_bytes: usize) -> (cache: Self)
        ensures
            cache.wf(),
            cache@ == (CacheView {
                items: Seq::empty(),
                inflight: None,
                next_id: 1,
                max_items: max_items as nat,
                max_total_bytes: max_total_bytes as nat,
            }),
    {
        let cache = FifoCache {
            q: VecDeque::new(),
            inflight: None,
            next_id: 1,
            total_bytes: 0,
            max_items,
            max_total_bytes,
        };
        assert(cache@.items =~= Seq::empty());
        cache
    }

    /// The number of cached items.
    pub fn len(&self) -> (count: usize)
        ensures
            count == self@.items.len(),
    {
        self.q.len()
    }

    /// Whether one more item of `incoming` bytes fits next to `items` items of `bytes` bytes.
    fn fits(&self, items: usize, bytes: usize, incoming: usize) -> (room: bool)
        ensures
            room == (items < self@.max_items && bytes + incoming <= self@.max_total_bytes),
    {
        items < self.max_items && match bytes.checked_add(incoming) {
            Some(sum) => sum <= self.max_total_bytes,
            None => false,
        }
    }

    /// Whether the oldest item is in flight.
    fn is_head_inflight(&self) -> (inflight: bool)
        ensures
            inflight == self@.head_inflight(),
    {
        match self.inflight {
            Some(id) => self.q.len() > 0 && self.q[0].id == id,
            None => false,
        }
    }

    /// Whether an item of `incoming` bytes can be cached at all.
    fn can_take(&self, incoming: usize) -> (takes: bool)
        ensures
            takes == self@.takes(incoming as nat),
    {
        let ghost kept = self@.items.take(self@.pinned());
        if self.is_head_inflight() {
            proof {
                assert(kept.drop_last() =~= Seq::empty());
                assert(total_bytes(kept.drop_last()) == 0);
            }
            self.fits(1, self.q[0].bytes.len(), incoming)
        } else {
            assert(total_bytes(kept) == 0);
            self.fits(0, 0, incoming)
        }
    }

    /// Drops one item, the oldest, or the newest while the oldest is in flight, and gives its
    /// number.
    fn drop_one(&mut self) -> (id: u64)
        requires
            old(self).counted(),
            old(self)@.items.len() > 0,
        ensures
            final(self).counted(),
            final(self)@ == (CacheView { items: old(self)@.after_drops(1), ..old(self)@ }),
            id == old(self)@.dropped_ids(1)[0],
    {
        let ghost before = self@.items;
        proof {
            lemma_total_bytes_first(before);
        }
        let from_back: bool = self.is_head_inflight();
        let removed: Option<CachedItem> = if from_back {
            self.q.pop_back()
        } else {
            self.q.pop_front()
        };
        assert(from_back ==> self@.items =~= before.drop_last());
        assert(!from_back ==> self@.items =~= before.drop_first());
        assert(self@.items =~= old(self)@.after_drops(1));
        match removed {
            Some(item) => {
                self.total_bytes = self.total_bytes.saturating_sub(item.bytes.len());
                item.id
            },
            None => 0,
        }
    }

    /// Drops as many items as it takes until an item of `incoming` bytes fits, and gives their
    /// numbers.
    fn make_room(&mut self, incoming: usize) -> (dropped: Vec<u64>)
        requires
            old(self).wf(),
            old(self)@.takes(incoming as nat),
        ensures
            final(self).counted(),
            old(self)@.drops_needed(incoming as nat, dropped@.len() as int),
            dropped@ == old(self)@.dropped_ids(dropped@.len() as int),
            final(self)@ == (CacheView {
                items: old(self)@.after_drops(dropped@.len() as int),
                ..old(self)@
            }),
    {
        let ghost before = self@;
        let mut dropped: Vec<u64> = Vec::new();
        proof {
            assert(before.after_drops(0) =~= before.items);
            assert(before.after_drops(before.items.len() - before.pinned()) =~= before.items.take(
                before.pinned(),
            ));
            assert(dropped@ =~= before.dropped_ids(0));
        }
        while !self.fits(self.q.len(), self.total_bytes, incoming)
            invariant
                before.valid(),
                before.takes(incoming as nat),
                before.after_drops(before.items.len() - before.pinned()) == before.items.take(
                    before.pinned(),
                ),
                self.counted(),
                dropped@.len() <= before.items.len() - before.pinned(),
                dropped@ == before.dropped_ids(dropped@.len() as int),
                self@ == (CacheView {
                    items: before.after_drops(dropped@.len() as int),
                    ..before
                }),
                forall|k: int|
                    0 <= k < dropped@.len() ==> !before.has_room(
                        #[trigger] before.after_drops(k),
                        incoming as nat,
                    ),
            decreases self@.items.len(),
        {
            let ghost here = self@;
            let ghost count = dropped@.len() as int;
            assert(!before.has_room(before.after_drops(count), incoming as nat));
            assert(here.head_inflight() == before.head_inflight());
            let id: u64 = self.drop_one();
            dropped.push(id);
            assert(here.after_drops(1) =~= before.after_drops(count + 1));
            assert(dropped@ =~= before.dropped_ids(count + 1));
        }
        dropped
    }

    /// Caches an item, unless it can not be cached, and gives its number, and the numbers of the
    /// items that were lost to it.
    pub fn push_item(&mut self, kind: Kind, bytes: Vec<u8>) -> (pushed: Pushed)
        requires
            old(self).wf(),
            old(self)@.next_id < u64::MAX,
        ensures
            final(self).wf(),
            pushed.id == old(self)@.next_id,
            old(self)@.drops_needed(bytes@.len(), pushed.lost@.len() as int),
            pushed.lost@ == old(self)@.lost_ids(bytes@.len(), pushed.lost@.len() as int),
            final(self)@ == old(self)@.pushed(kind, bytes@, pushed.lost@.len() as int),
            old(self)@.items.len() < old(self)@.max_items && total_bytes(old(self)@.items)
                + bytes@.len() <= old(self)@.max_total_bytes ==> pushed.lost@.len() == 0
                && final(self)@.items == old(self)@.items.push(
                ItemView { id: old(self)@.next_id, kind, bytes: bytes@ },
            ),
    {
        let ghost before = self@;
        proof {
            crate::laws::cache::fitting_item_is_taken(before, bytes@.len());
        }
        let id: u64 = self.next_id;
        let incoming: usize = bytes.len();
        if !self.can_take(incoming) {
            self.next_id = self.next_id + 1;
            assert(self@.items =~= before.items);
            let mut lost: Vec<u64> = Vec::new();
            lost.push(id);
            return Pushed { id, lost };
        }
        let lost: Vec<u64> = self.make_room(incoming);
        let ghost kept = self@.items;
        self.next_id = self.next_id + 1;
        self.total_bytes = self.total_bytes + incoming;
        self.q.push_back(CachedItem { id, kind, bytes });
        assert(self@.items =~= before.pushed(kind, bytes@, lost@.len() as int).items);
        assert(self@.items.drop_last() =~= kept);
        Pushed { id, lost }
    }

    /// Caches an item, unless it can not be cached, and gives its number, and how many items were
    /// dropped, itself counted if it was turned away.
    pub fn push(&mut self, kind: Kind, bytes: Vec<u8>) -> (pushed: (u64, usize))
        requires
            old(self).wf(),
            old(self)@.next_id < u64::MAX,
        ensures
            final(self).wf(),
            pushed.0 == old(self)@.next_id,
            old(self)@.drops_needed(bytes@.len(), pushed.1 as int),
            final(self)@ == old(self)@.pushed(kind, bytes@, pushed.1 as int),
            old(self)@.items.len() < old(self)@.max_items && total_bytes(old(self)@.items)
                + bytes@.len() <= old(self)@.max_total_bytes ==> pushed.1 == 0
                && final(self)@.items == old(self)@.items.push(
                ItemView { id: old(self)@.next_id, kind, bytes: bytes@ },
            ),
            old(self)@.head_inflight() ==> final(self)@.items.len() >= 1 && final(self)@.items[0]
                == old(self)@.items[0] && final(self)@.inflight == old(self)@.inflight,
    {
        let pushed: Pushed = self.push_item(kind, bytes);
        (pushed.id, pushed.lost.len())
    }

    /// Puts the oldest item in flight and gives a copy of it, if it is there and no item is in
    /// flight yet. The item stays in the cache.
    pub fn reserve_head(&mut self) -> (head: Option<CachedItem>)
        requires
            old(self).wf(),
        ensures
            final(self).wf(),
            final(self)@ == old(self)@.reserved(),
            head is Some == old(self)@.available() is Some,
            head matches Some(item) ==> Some(item@) == old(self)@.available(),
    {
        if self.inflight.is_none() && self.q.len() > 0 {
            let head: CachedItem = self.q[0].clone();
            self.inflight = Some(head.id);
            assert(self@.items =~= old(self)@.items);
            Some(head)
        } else {
            None
        }
    }

    /// Takes the oldest item out of the cache if it is `id` and in flight; tells whether it was.
    pub fn ack_and_pop(&mut self, id: u64) -> (popped: bool)
        requires
            old(self).wf(),
        ensures
            final(self).wf(),
            popped == old(self)@.can_ack(id),
            final(self)@ == old(self)@.acked(id),
    {
        let ghost before = self@.items;
        let head_ok: bool = self.q.len() > 0 && self.q[0].id == id;
        let inflight_ok: bool = match self.inflight {
            Some(inflight) => inflight == id,
            None => false,
        };
        if head_ok && inflight_ok {
            proof {
                lemma_total_bytes_first(before);
            }
            if let Some(removed) = self.q.pop_front() {
                self.total_bytes = self.total_bytes.saturating_sub(removed.bytes.len());
            }
            self.inflight = None;
            assert(self@.items =~= before.drop_first());
            true
        } else {
            false
        }
    }

    /// Takes `id` out of flight, if it is in flight, so that it can be handed out again; tells
    /// whether it was.
    pub fn release_inflight(&mut self, id: u64) -> (released: bool)
        requires
            old(self).wf(),
        ensures
            final(self).wf(),
            released == (old(self)@.inflight == Some(id)),
            final(self)@ == old(self)@.released(id),
    {
        let held: bool = match self.inflight {
            Some(inflight) => inflight == id,
            None => false,
        };
        if held {
            self.inflight = None;
            assert(self@.items =~= old(self)@.items);
        }
        held
    }

    /// Whether another item can still be numbered.
    pub fn can_number(&self) -> (free: bool)
        ensures
            free == (self@.next_id < u64::MAX),
    {
        self.next_id < u64::MAX
    }
}

} // verus!
