//! What holds of the cache.
use vstd::prelude::*;

use crate::cache::{CacheView, CachedItem, ItemView, Kind};

verus! {

/// A push keeps the cache within its limits on items and on bytes.
pub proof fn push_stays_within_limits(before: CacheView, kind: Kind, bytes: Seq<u8>, count: int)
    requires
        before.valid(),
        before.drops_needed(bytes.len(), count),
    ensures
        before.pushed(kind, bytes, count).items.len() <= before.max_items,
        crate::cache::total_bytes(before.pushed(kind, bytes, count).items)
            <= before.max_total_bytes,
{
    if before.takes(bytes.len()) {
        let after = before.pushed(kind, bytes, count).items;
        assert(after.drop_last() =~= before.after_drops(count));
    }
}

/// The bytes of two runs of items together are the bytes of the one and those of the other; the
/// bytes of a single item are its own.
pub proof fn bytes_add_up(first: Seq<ItemView>, second: Seq<ItemView>, item: ItemView)
    ensures
        crate::cache::total_bytes(first + second) == crate::cache::total_bytes(first)
            + crate::cache::total_bytes(second),
        crate::cache::total_bytes(seq![item]) == item.bytes.len(),
    decreases second.len(),
{
    assert(seq![item].drop_last() =~= Seq::empty());
    assert(crate::cache::total_bytes(seq![item].drop_last()) == 0);
    if second.len() == 0 {
        assert(first + second =~= first);
    } else {
        bytes_add_up(first, second.drop_last(), item);
        assert((first + second).drop_last() =~= first + second.drop_last());
    }
}

/// An item that fits next to all that is cached is cached, in flight or not: nothing is dropped,
/// everything stays where it is, and the new item is the newest.
pub proof fn push_that_fits_drops_nothing(
    before: CacheView,
    kind: Kind,
    bytes: Seq<u8>,
    count: int,
)
    requires
        before.items.len() < before.max_items,
        crate::cache::total_bytes(before.items) + bytes.len() <= before.max_total_bytes,
        before.drops_needed(bytes.len(), count),
    ensures
        count == 0,
        before.lost_ids(bytes.len(), count).len() == 0,
        before.pushed(kind, bytes, count).items == before.items.push(
            ItemView { id: before.next_id, kind, bytes },
        ),
{
    fitting_item_is_taken(before, bytes.len());
}

/// An item that fits next to all that is cached can be cached, and needs no drop.
pub proof fn fitting_item_is_taken(before: CacheView, incoming: nat)
    ensures
        before.items.len() < before.max_items && crate::cache::total_bytes(before.items) + incoming
            <= before.max_total_bytes ==> {
            &&& before.takes(incoming)
            &&& before.after_drops(0) == before.items
            &&& forall|count: int| #[trigger]
                before.drops_needed(incoming, count) ==> count == 0
        },
{
    let pinned = before.pinned();
    let item = ItemView { id: 0, kind: Kind::Logs, bytes: Seq::empty() };
    bytes_add_up(before.items.take(pinned), before.items.skip(pinned), item);
    assert(before.items.take(pinned) + before.items.skip(pinned) =~= before.items);
    assert(before.after_drops(0) =~= before.items);
    assert forall|count: int| #[trigger]
        before.drops_needed(incoming, count) && before.items.len() < before.max_items
            && crate::cache::total_bytes(before.items) + incoming
            <= before.max_total_bytes implies count == 0 by {
        assert(before.takes(incoming));
        assert(count <= 0 || !before.has_room(before.after_drops(0), incoming));
    }
}

/// With no item in flight, an item that is within the limits by itself is cached as the newest. For
/// that the oldest items go, oldest first, and no more of them than it takes: the new item fits
/// once they are gone, and would not fit if one of them stayed.
pub proof fn push_drops_as_few_of_the_oldest_as_it_takes(
    before: CacheView,
    kind: Kind,
    bytes: Seq<u8>,
    count: int,
)
    requires
        before.inflight is None,
        before.max_items > 0,
        bytes.len() <= before.max_total_bytes,
        before.drops_needed(bytes.len(), count),
    ensures
        0 <= count <= before.items.len(),
        ({
            let after = before.pushed(kind, bytes, count);
            let lost = before.lost_ids(bytes.len(), count);
            let kept = before.items.skip(count);
            &&& after.items == kept.push(ItemView { id: before.next_id, kind, bytes })
            &&& after.inflight is None
            &&& kept.len() + 1 <= before.max_items
            &&& crate::cache::total_bytes(kept) + bytes.len() <= before.max_total_bytes
            &&& lost.len() == count
            &&& forall|i: int| 0 <= i < count ==> #[trigger] lost[i] == before.items[i].id
        }),
        forall|fewer: int|
            0 <= fewer < count ==> {
                let kept = #[trigger] before.items.skip(fewer);
                ||| kept.len() + 1 > before.max_items
                ||| crate::cache::total_bytes(kept) + bytes.len() > before.max_total_bytes
            },
{
    assert(before.items.take(0) =~= Seq::empty());
    assert(before.takes(bytes.len()));
    assert forall|fewer: int| 0 <= fewer < count implies !before.has_room(
        #[trigger] before.items.skip(fewer),
        bytes.len(),
    ) by {
        assert(before.after_drops(fewer) == before.items.skip(fewer));
    }
}

/// While the oldest item is in flight, an item that fits next to it is cached as the newest. For
/// that the newest items go, newest first, and no more of them than it takes: the new item fits
/// once they are gone, and would not fit if one of them stayed. The item in flight stays.
pub proof fn push_drops_as_few_of_the_newest_as_it_takes(
    before: CacheView,
    kind: Kind,
    bytes: Seq<u8>,
    count: int,
)
    requires
        before.items.len() > 0,
        before.inflight == Some(before.items[0].id),
        before.max_items > 1,
        before.items[0].bytes.len() + bytes.len() <= before.max_total_bytes,
        before.drops_needed(bytes.len(), count),
    ensures
        0 <= count < before.items.len(),
        ({
            let after = before.pushed(kind, bytes, count);
            let lost = before.lost_ids(bytes.len(), count);
            let kept = before.items.take(before.items.len() - count);
            &&& after.items == kept.push(ItemView { id: before.next_id, kind, bytes })
            &&& after.inflight == before.inflight
            &&& kept.len() + 1 <= before.max_items
            &&& crate::cache::total_bytes(kept) + bytes.len() <= before.max_total_bytes
            &&& lost.len() == count
            &&& forall|i: int|
                0 <= i < count ==> #[trigger] lost[i] == before.items[before.items.len() - 1 - i].id
        }),
        forall|more: int|
            before.items.len() - count < more <= before.items.len() ==> {
                let kept = #[trigger] before.items.take(more);
                ||| kept.len() + 1 > before.max_items
                ||| crate::cache::total_bytes(kept) + bytes.len() > before.max_total_bytes
            },
{
    let head = before.items[0];
    bytes_add_up(Seq::empty(), Seq::empty(), head);
    assert(before.items.take(1) =~= seq![head]);
    assert(before.takes(bytes.len()));
    let len = before.items.len() as int;
    assert forall|more: int| len - count < more <= len implies !before.has_room(
        #[trigger] before.items.take(more),
        bytes.len(),
    ) by {
        assert(before.after_drops(len - more) == before.items.take(more));
    }
}

/// An item that is over the limits by itself, or next to the item in flight, is turned away: it is
/// the one item lost, and what was cached, and in flight, is so afterwards.
pub proof fn push_over_the_limits_changes_no_item(
    before: CacheView,
    kind: Kind,
    bytes: Seq<u8>,
    count: int,
)
    requires
        before.drops_needed(bytes.len(), count),
        ({
            ||| before.max_items == 0
            ||| bytes.len() > before.max_total_bytes
            ||| before.items.len() > 0 && before.inflight == Some(before.items[0].id) && (
            before.max_items == 1 || before.items[0].bytes.len() + bytes.len()
                > before.max_total_bytes)
        }),
    ensures
        count == 1,
        before.lost_ids(bytes.len(), count).len() == 1,
        before.lost_ids(bytes.len(), count)[0] == before.next_id,
        before.pushed(kind, bytes, count).items == before.items,
        before.pushed(kind, bytes, count).inflight == before.inflight,
{
    if before.items.len() > 0 {
        let head = before.items[0];
        bytes_add_up(Seq::empty(), Seq::empty(), head);
        assert(before.items.take(1) =~= seq![head]);
    }
    assert(!before.takes(bytes.len()));
}

/// Every push uses up one number, and none changes the limits or what is in flight.
pub proof fn push_uses_one_number(before: CacheView, kind: Kind, bytes: Seq<u8>, count: int)
    requires
        before.next_id < u64::MAX,
    ensures
        before.pushed(kind, bytes, count).next_id == before.next_id + 1,
        before.pushed(kind, bytes, count).inflight == before.inflight,
        before.pushed(kind, bytes, count).max_items == before.max_items,
        before.pushed(kind, bytes, count).max_total_bytes == before.max_total_bytes,
{
}

/// A valid cache holds no more items, and no more bytes, than it may; its items are numbered from
/// the oldest to the newest, below the next number; and what is in flight is its oldest item.
pub proof fn valid_cache_is_in_order(cache: CacheView)
    requires
        cache.valid(),
    ensures
        cache.items.len() <= cache.max_items,
        crate::cache::total_bytes(cache.items) <= cache.max_total_bytes,
        forall|i: int, j: int|
            0 <= i < j < cache.items.len() ==> (#[trigger] cache.items[i]).id < (
            #[trigger] cache.items[j]).id,
        forall|i: int|
            0 <= i < cache.items.len() ==> 0 < (#[trigger] cache.items[i]).id < cache.next_id,
        cache.inflight matches Some(id) ==> cache.items.len() > 0 && cache.items[0].id == id,
{
}

/// The oldest item is handed out, as it is, whenever there is one and none is in flight, and only
/// then. It is in flight afterwards, and nothing else changes.
pub proof fn oldest_item_is_handed_out(cache: CacheView)
    ensures
        cache.items.len() > 0 && cache.inflight is None ==> {
            &&& cache.available() == Some(cache.items[0])
            &&& cache.reserved().inflight == Some(cache.items[0].id)
        },
        cache.items.len() == 0 || cache.inflight is Some ==> {
            &&& cache.available() is None
            &&& cache.reserved().inflight == cache.inflight
        },
        cache.reserved().items == cache.items,
        cache.reserved().next_id == cache.next_id,
        cache.reserved().max_items == cache.max_items,
        cache.reserved().max_total_bytes == cache.max_total_bytes,
{
}

/// An acknowledgement counts if and only if it names the oldest item while that is in flight. One
/// that counts takes this item out of the cache and leaves the others in their order; one that does
/// not changes nothing.
pub proof fn ack_takes_the_oldest_item_in_flight(cache: CacheView, id: u64)
    ensures
        cache.can_ack(id) <==> cache.items.len() > 0 && cache.items[0].id == id && cache.inflight
            == Some(id),
        cache.can_ack(id) ==> {
            &&& cache.items == seq![cache.items[0]] + cache.acked(id).items
            &&& cache.acked(id).inflight is None
        },
        !cache.can_ack(id) ==> cache.acked(id) == cache,
        cache.acked(id).next_id == cache.next_id,
        cache.acked(id).max_items == cache.max_items,
        cache.acked(id).max_total_bytes == cache.max_total_bytes,
{
}

/// An item that is given back is no longer in flight; all items stay, and what else is in flight
/// stays so.
pub proof fn release_ends_the_flight_of_one_item(cache: CacheView, id: u64)
    ensures
        cache.inflight == Some(id) ==> cache.released(id).inflight is None,
        cache.inflight != Some(id) ==> cache.released(id).inflight == cache.inflight,
        cache.released(id).items == cache.items,
        cache.released(id).next_id == cache.next_id,
        cache.released(id).max_items == cache.max_items,
        cache.released(id).max_total_bytes == cache.max_total_bytes,
{
}

/// An item is seen with its own number, kind and bytes.
pub proof fn item_is_seen_as_it_is(item: CachedItem)
    ensures
        item@.id == item.id,
        item@.kind == item.kind,
        item@.bytes == item.bytes@,
{
}

/// How many items are lost to a push is determined: there is exactly one such number.
pub proof fn push_loses_one_count(before: CacheView, incoming: nat, first: int, second: int)
    requires
        before.drops_needed(incoming, first),
        before.drops_needed(incoming, second),
    ensures
        first == second,
{
    if before.takes(incoming) {
        if first < second {
            assert(!before.has_room(before.after_drops(first), incoming));
        }
        if second < first {
            assert(!before.has_room(before.after_drops(second), incoming));
        }
    }
}

/// For every push there is a number of items that are lost to it.
pub proof fn push_always_ends(before: CacheView, incoming: nat) -> (count: int)
    ensures
        before.drops_needed(incoming, count),
{
    if before.takes(incoming) {
        assert(before.after_drops(before.items.len() - before.pinned()) =~= before.items.take(
            before.pinned(),
        ));
        first_with_room(before, incoming, 0)
    } else {
        1
    }
}

/// The smallest number of drops, from `from` on, after which there is room.
proof fn first_with_room(before: CacheView, incoming: nat, from: int) -> (count: int)
    requires
        before.takes(incoming),
        before.after_drops(before.items.len() - before.pinned()) == before.items.take(
            before.pinned(),
        ),
        0 <= from <= before.items.len() - before.pinned(),
        forall|k: int|
            0 <= k < from ==> !before.has_room(#[trigger] before.after_drops(k), incoming),
    ensures
        before.drops_needed(incoming, count),
    decreases before.items.len() - from,
{
    if before.has_room(before.after_drops(from), incoming) {
        from
    } else {
        first_with_room(before, incoming, from + 1)
    }
}

/// A push drops the oldest items first, caches the new item as the newest, and leaves the rest in
/// their order: unless the oldest item is in flight, what is cached afterwards is the end of what
/// was cached before, followed by the new item.
pub proof fn push_drops_oldest_first(before: CacheView, kind: Kind, bytes: Seq<u8>, count: int)
    requires
        !before.head_inflight(),
        before.takes(bytes.len()),
        before.drops_needed(bytes.len(), count),
    ensures
        before.pushed(kind, bytes, count).items == before.items.skip(count).push(
            ItemView { id: before.next_id, kind, bytes },
        ),
{
}

/// While the oldest item is in flight, a push drops the newest items first, and leaves the rest in
/// their order.
pub proof fn push_drops_newest_behind_item_in_flight(
    before: CacheView,
    kind: Kind,
    bytes: Seq<u8>,
    count: int,
)
    requires
        before.head_inflight(),
        before.takes(bytes.len()),
        before.drops_needed(bytes.len(), count),
    ensures
        before.pushed(kind, bytes, count).items == before.items.take(
            before.items.len() - count,
        ).push(ItemView { id: before.next_id, kind, bytes }),
{
}

/// An item that does not fit even next to what cannot be dropped is turned away: it is the only
/// one lost, and all others stay.
pub proof fn item_without_room_is_turned_away(
    before: CacheView,
    kind: Kind,
    bytes: Seq<u8>,
    count: int,
)
    requires
        !before.takes(bytes.len()),
        before.drops_needed(bytes.len(), count),
    ensures
        before.pushed(kind, bytes, count).items == before.items,
        before.lost_ids(bytes.len(), count) == seq![before.next_id],
        count == 1,
{
}

/// With no item in flight, an item is turned away only if it is over the limits by itself.
pub proof fn item_within_limits_is_cached(before: CacheView, incoming: nat)
    requires
        before.valid(),
        before.inflight is None,
        before.max_items > 0,
        incoming <= before.max_total_bytes,
    ensures
        before.takes(incoming),
{
    assert(before.items.take(0) =~= Seq::empty());
}

/// A push never drops the item in flight; its client can still acknowledge it.
pub proof fn push_spares_item_in_flight(
    before: CacheView,
    kind: Kind,
    bytes: Seq<u8>,
    count: int,
    id: u64,
)
    requires
        before.can_ack(id),
        before.drops_needed(bytes.len(), count),
    ensures
        before.pushed(kind, bytes, count).items.len() >= 1,
        before.pushed(kind, bytes, count).items[0] == before.items[0],
        before.pushed(kind, bytes, count).can_ack(id),
{
}

/// Every operation keeps the cache valid.
pub proof fn operations_keep_cache_valid(
    before: CacheView,
    kind: Kind,
    bytes: Seq<u8>,
    count: int,
    id: u64,
)
    requires
        before.valid(),
    ensures
        before.next_id < u64::MAX && before.drops_needed(bytes.len(), count) ==> before.pushed(
            kind,
            bytes,
            count,
        ).valid(),
        before.reserved().valid(),
        before.acked(id).valid(),
        before.released(id).valid(),
{
    if before.drops_needed(bytes.len(), count) {
        push_stays_within_limits(before, kind, bytes, count);
    }
    if before.items.len() > 0 {
        crate::cache::lemma_total_bytes_first(before.items);
    }
}

/// While an item is in flight no item is handed out, and handing one out takes nothing out of
/// the cache: at most one item is in flight at a time.
pub proof fn one_item_in_flight(cache: CacheView)
    ensures
        cache.inflight is Some ==> cache.available() is None && cache.reserved() == cache,
        cache.reserved().available() is None,
        cache.reserved().items == cache.items,
{
}

/// An item that its client gives up is handed out again, unchanged.
pub proof fn released_item_is_handed_out_again(cache: CacheView, item: ItemView)
    requires
        cache.available() == Some(item),
    ensures
        cache.reserved().released(item.id) == cache,
        cache.reserved().released(item.id).available() == Some(item),
{
}

/// An item that was handed out can be acknowledged, and that takes it, and nothing else, out of
/// the cache.
pub proof fn handed_out_item_can_be_acked(cache: CacheView, item: ItemView)
    requires
        cache.available() == Some(item),
    ensures
        cache.reserved().can_ack(item.id),
        cache.reserved().acked(item.id).items == cache.items.drop_first(),
        cache.reserved().acked(item.id).inflight is None,
{
}

/// An acknowledgement counts once: afterwards the item is gone and cannot be acknowledged again,
/// whatever is handed out next.
pub proof fn ack_counts_once(cache: CacheView, id: u64)
    requires
        cache.valid(),
        cache.can_ack(id),
    ensures
        forall|i: int|
            0 <= i < cache.acked(id).items.len() ==> (#[trigger] cache.acked(id).items[i]).id > id,
        !cache.acked(id).can_ack(id),
        !cache.acked(id).reserved().can_ack(id),
{
    let after = cache.acked(id);
    assert forall|i: int| 0 <= i < after.items.len() implies (#[trigger] after.items[i]).id > id by {
        assert(after.items[i] == cache.items[i + 1]);
    }
}

/// An acknowledgement of an item that is not in flight changes nothing.
pub proof fn unexpected_ack_changes_nothing(cache: CacheView, id: u64)
    requires
        cache.inflight != Some(id),
    ensures
        !cache.can_ack(id),
        cache.acked(id) == cache,
        cache.released(id) == cache,
{
}

/// The cache after `rounds` rounds, in each of which the available item is handed out and
/// acknowledged.
pub open spec fn after_rounds(cache: CacheView, rounds: nat) -> CacheView
    decreases rounds,
{
    if rounds == 0 {
        cache
    } else {
        let earlier = after_rounds(cache, (rounds - 1) as nat);
        match earlier.available() {
            Some(item) => earlier.reserved().acked(item.id),
            None => earlier,
        }
    }
}

/// Items come out in the order in which they went in: after as many rounds as there are items
/// before it, each item is the one handed out next, with the bytes that were pushed.
pub proof fn items_come_out_in_order(cache: CacheView, position: int)
    requires
        cache.inflight is None,
        0 <= position < cache.items.len(),
    ensures
        after_rounds(cache, position as nat).available() == Some(cache.items[position]),
        after_rounds(cache, position as nat).items == cache.items.skip(position),
{
    rounds_take_from_the_front(cache, position as nat);
}

/// What is pushed comes out unchanged: once the item in flight, if there is one, is given back,
/// and the items before it are handed out and acknowledged, the one handed out next is the one
/// pushed.
pub proof fn pushed_item_comes_out(before: CacheView, kind: Kind, bytes: Seq<u8>, count: int)
    requires
        before.takes(bytes.len()),
        before.drops_needed(bytes.len(), count),
    ensures
        ({
            let after = before.pushed(kind, bytes, count);
            let free = CacheView { inflight: None, ..after };
            after_rounds(free, (after.items.len() - 1) as nat).available() == Some(
                ItemView { id: before.next_id, kind, bytes },
            )
        }),
{
    let after = before.pushed(kind, bytes, count);
    let free = CacheView { inflight: None, ..after };
    items_come_out_in_order(free, after.items.len() - 1);
}

/// After some rounds the items are those that were there, without as many of the oldest.
proof fn rounds_take_from_the_front(cache: CacheView, rounds: nat)
    requires
        cache.inflight is None,
        rounds <= cache.items.len(),
    ensures
        after_rounds(cache, rounds).items == cache.items.skip(rounds as int),
        after_rounds(cache, rounds).inflight is None,
    decreases rounds,
{
    if rounds == 0 {
        assert(cache.items.skip(0) =~= cache.items);
    } else {
        rounds_take_from_the_front(cache, (rounds - 1) as nat);
        assert(cache.items.skip(rounds - 1).drop_first() =~= cache.items.skip(rounds as int));
    }
}

/// What became of the numbered items of a cache that was `start`: what is cached, which items
/// were delivered, and which were lost, in the order in which that happened.
pub struct Ledger {
    pub start: CacheView,
    pub cache: CacheView,
    pub delivered: Seq<u64>,
    pub lost: Seq<u64>,
}

impl Ledger {
    /// Whether `id` is the number of an item that was there at the start or has come since.
    pub open spec fn known(self, id: u64) -> bool {
        self.start.holds(id) || self.start.next_id <= id < self.cache.next_id
    }

    /// Whether the ledger adds up:
    /// - every item is cached, delivered or lost, and only one of these;
    /// - items are delivered in the order in which they came, and none is delivered or lost twice;
    /// - an item that is delivered is older than all that are still cached.
    pub open spec fn balanced(self) -> bool {
        &&& self.start.valid()
        &&& self.cache.valid()
        &&& self.start.next_id <= self.cache.next_id
        &&& forall|id: u64| #[trigger]
            self.known(id) <==> self.cache.holds(id) || self.delivered.contains(id)
                || self.lost.contains(id)
        &&& forall|id: u64| #[trigger]
            self.lost.contains(id) ==> !self.delivered.contains(id) && !self.cache.holds(id)
        &&& forall|i: int, j: int|
            0 <= i < j < self.delivered.len() ==> #[trigger] self.delivered[i]
                < #[trigger] self.delivered[j]
        &&& forall|i: int, j: int|
            0 <= i < self.delivered.len() && 0 <= j < self.cache.items.len()
                ==> #[trigger] self.delivered[i] < (#[trigger] self.cache.items[j]).id
        &&& forall|i: int|
            0 <= i < self.delivered.len() ==> #[trigger] self.delivered[i] < self.cache.next_id
        &&& self.lost.no_duplicates()
    }

    /// The ledger of a cache to which nothing has happened.
    pub open spec fn opened(cache: CacheView) -> Ledger {
        Ledger { start: cache, cache, delivered: Seq::empty(), lost: Seq::empty() }
    }

    /// This ledger after a push to which `count` items are lost.
    pub open spec fn with_push(self, kind: Kind, bytes: Seq<u8>, count: int) -> Ledger {
        Ledger {
            cache: self.cache.pushed(kind, bytes, count),
            lost: self.lost + self.cache.lost_ids(bytes.len(), count),
            ..self
        }
    }

    /// This ledger after an acknowledgement of `id`.
    pub open spec fn with_ack(self, id: u64) -> Ledger {
        if self.cache.can_ack(id) {
            Ledger { cache: self.cache.acked(id), delivered: self.delivered.push(id), ..self }
        } else {
            self
        }
    }
}

/// A push takes out of the cache exactly the items that it loses, each once.
proof fn push_accounts_for_every_item(before: CacheView, kind: Kind, bytes: Seq<u8>, count: int)
    requires
        before.valid(),
        before.next_id < u64::MAX,
        before.drops_needed(bytes.len(), count),
    ensures
        ({
            let after = before.pushed(kind, bytes, count);
            let lost = before.lost_ids(bytes.len(), count);
            &&& lost.len() == count
            &&& lost.no_duplicates()
            &&& forall|id: u64|
                (#[trigger] after.holds(id) || lost.contains(id)) <==> before.holds(id) || id
                    == before.next_id
            &&& forall|id: u64| #[trigger] lost.contains(id) ==> !after.holds(id)
            &&& after.items.len() + count == before.items.len() + 1
        }),
{
    let after = before.pushed(kind, bytes, count);
    let lost = before.lost_ids(bytes.len(), count);
    let len = before.items.len() as int;
    if before.takes(bytes.len()) {
        let kept = before.after_drops(count);
        let shift = if before.head_inflight() {
            0
        } else {
            count
        };
        assert forall|j: int| 0 <= j < kept.len() implies (#[trigger] after.items[j])
            == before.items[j + shift] by {}
        assert(after.items[kept.len() as int].id == before.next_id);
        assert forall|id: u64| #[trigger] after.holds(id) implies before.holds(id) || id
            == before.next_id by {
            let j = choose|j: int| 0 <= j < after.items.len() && (#[trigger] after.items[j]).id == id;
            if j < kept.len() {
                assert(before.items[j + shift].id == id);
            }
        }
        assert forall|id: u64| lost.contains(id) implies before.holds(id) && !after.holds(id) by {
            let k = choose|k: int| 0 <= k < lost.len() && lost[k] == id;
            let at = if before.head_inflight() {
                len - 1 - k
            } else {
                k
            };
            assert(before.items[at].id == id);
            assert forall|j: int| 0 <= j < after.items.len() implies (#[trigger] after.items[j]).id
                != id by {
                if j < kept.len() {
                    assert(after.items[j] == before.items[j + shift]);
                }
            }
        }
        assert forall|id: u64| before.holds(id) implies after.holds(id) || lost.contains(id) by {
            let i = choose|i: int| 0 <= i < len && (#[trigger] before.items[i]).id == id;
            if before.head_inflight() {
                if i < len - count {
                    assert(after.items[i].id == id);
                } else {
                    assert(lost[len - 1 - i] == id);
                }
            } else if i < count {
                assert(lost[i] == id);
            } else {
                assert(after.items[i - count].id == id);
            }
        }
        assert(after.holds(before.next_id));
    } else {
        assert(lost[0] == before.next_id);
        assert forall|id: u64| #[trigger] lost.contains(id) implies !after.holds(id) && id
            == before.next_id by {}
        assert forall|id: u64| #[trigger] after.holds(id) implies before.holds(id) by {
            let j = choose|j: int| 0 <= j < after.items.len() && (#[trigger] after.items[j]).id == id;
            assert(before.items[j].id == id);
        }
        assert forall|id: u64| before.holds(id) implies #[trigger] after.holds(id) by {
            let j = choose|j: int|
                0 <= j < before.items.len() && (#[trigger] before.items[j]).id == id;
            assert(after.items[j].id == id);
        }
    }
}

/// An item that a ledger knows has a number below the next.
proof fn known_items_are_numbered(ledger: Ledger, id: u64)
    requires
        ledger.balanced(),
        ledger.known(id),
    ensures
        id < ledger.cache.next_id,
{
    if ledger.start.holds(id) {
        let i = choose|i: int|
            0 <= i < ledger.start.items.len() && (#[trigger] ledger.start.items[i]).id == id;
        assert(ledger.start.items[i].id < ledger.start.next_id);
    }
}

/// The ledger of a cache to which nothing has happened adds up.
pub proof fn opened_ledger_is_balanced(cache: CacheView)
    requires
        cache.valid(),
    ensures
        Ledger::opened(cache).balanced(),
{
}

/// A push keeps a ledger balanced.
pub proof fn push_keeps_ledger_balanced(ledger: Ledger, kind: Kind, bytes: Seq<u8>, count: int)
    requires
        ledger.balanced(),
        ledger.cache.next_id < u64::MAX,
        ledger.cache.drops_needed(bytes.len(), count),
    ensures
        ledger.with_push(kind, bytes, count).balanced(),
        ledger.with_push(kind, bytes, count).lost.len() == ledger.lost.len() + count,
{
    let before = ledger.cache;
    let after = ledger.with_push(kind, bytes, count);
    let gone = before.lost_ids(bytes.len(), count);
    operations_keep_cache_valid(before, kind, bytes, count, 0);
    push_accounts_for_every_item(before, kind, bytes, count);
    assert forall|id: u64| #[trigger] after.lost.contains(id) <==> ledger.lost.contains(id)
        || gone.contains(id) by {
        if ledger.lost.contains(id) {
            let k = choose|k: int| 0 <= k < ledger.lost.len() && ledger.lost[k] == id;
            assert(after.lost[k] == id);
        }
        if gone.contains(id) {
            let k = choose|k: int| 0 <= k < gone.len() && gone[k] == id;
            assert(after.lost[ledger.lost.len() + k] == id);
        }
    }
    assert forall|id: u64| #[trigger] ledger.known(id) implies id < before.next_id by {
        known_items_are_numbered(ledger, id);
    }
    assert forall|id: u64| gone.contains(id) implies !ledger.lost.contains(id)
        && !ledger.delivered.contains(id) by {
        if before.holds(id) {
            if ledger.delivered.contains(id) {
                let k = choose|k: int| 0 <= k < ledger.delivered.len() && ledger.delivered[k] == id;
                let j = choose|j: int|
                    0 <= j < before.items.len() && (#[trigger] before.items[j]).id == id;
                assert(ledger.delivered[k] < before.items[j].id);
            }
        } else {
            assert(id == before.next_id);
            assert(!ledger.known(id));
        }
    }
    assert forall|id: u64| #[trigger] after.known(id) <==> after.cache.holds(id)
        || after.delivered.contains(id) || after.lost.contains(id) by {
        assert(after.known(id) <==> ledger.known(id) || id == before.next_id);
    }
    assert forall|id: u64| #[trigger] after.lost.contains(id) implies !after.delivered.contains(id)
        && !after.cache.holds(id) by {
        if ledger.lost.contains(id) {
            assert(ledger.known(id));
            assert(!before.holds(id));
        }
    }
    assert forall|i: int, j: int|
        0 <= i < after.delivered.len() && 0 <= j < after.cache.items.len() implies
        #[trigger] after.delivered[i] < (#[trigger] after.cache.items[j]).id by {
        let id = after.cache.items[j].id;
        assert(after.cache.holds(id));
        if before.holds(id) {
            let k = choose|k: int|
                0 <= k < before.items.len() && (#[trigger] before.items[k]).id == id;
            assert(ledger.delivered[i] < before.items[k].id);
        }
    }
    assert forall|i: int, j: int|
        0 <= i < after.lost.len() && 0 <= j < after.lost.len() && i != j implies after.lost[i]
        != after.lost[j] by {
        let split = ledger.lost.len();
        if i < split && j >= split {
            assert(gone.contains(gone[j - split]));
            assert(ledger.lost.contains(ledger.lost[i]));
        }
        if j < split && i >= split {
            assert(gone.contains(gone[i - split]));
            assert(ledger.lost.contains(ledger.lost[j]));
        }
    }
}

/// An acknowledgement keeps a ledger balanced.
pub proof fn ack_keeps_ledger_balanced(ledger: Ledger, id: u64)
    requires
        ledger.balanced(),
    ensures
        ledger.with_ack(id).balanced(),
{
    let before = ledger.cache;
    let after = ledger.with_ack(id);
    if before.can_ack(id) {
        operations_keep_cache_valid(before, Kind::Logs, Seq::empty(), 0, id);
        assert forall|j: int| 0 <= j < after.cache.items.len() implies (
        #[trigger] after.cache.items[j]) == before.items[j + 1] by {}
        assert forall|x: u64| #[trigger] after.delivered.contains(x) <==> ledger.delivered.contains(
            x,
        ) || x == id by {
            if ledger.delivered.contains(x) {
                let k = choose|k: int| 0 <= k < ledger.delivered.len() && ledger.delivered[k] == x;
                assert(after.delivered[k] == x);
            }
            if x == id {
                assert(after.delivered[ledger.delivered.len() as int] == x);
            }
        }
        assert forall|x: u64| (#[trigger] after.cache.holds(x) || x == id) <==> before.holds(x) by {
            if after.cache.holds(x) {
                let j = choose|j: int|
                    0 <= j < after.cache.items.len() && (#[trigger] after.cache.items[j]).id == x;
                assert(before.items[j + 1].id == x);
            }
            if x == id {
                assert(before.items[0].id == x);
            }
            if before.holds(x) && x != id {
                let j = choose|j: int|
                    0 <= j < before.items.len() && (#[trigger] before.items[j]).id == x;
                assert(after.cache.items[j - 1].id == x);
            }
        }
        assert forall|x: u64| #[trigger] after.known(x) <==> after.cache.holds(x)
            || after.delivered.contains(x) || after.lost.contains(x) by {
            assert(after.known(x) == ledger.known(x));
        }
        assert forall|x: u64| #[trigger] after.lost.contains(x) implies !after.delivered.contains(x)
            && !after.cache.holds(x) by {
            assert(ledger.lost.contains(x));
            assert(before.holds(id));
        }
    }
}

/// What leaves all items in the cache keeps a ledger balanced.
pub proof fn standing_items_keep_ledger_balanced(ledger: Ledger, cache: CacheView)
    requires
        ledger.balanced(),
        cache.valid(),
        cache.items == ledger.cache.items,
        cache.next_id == ledger.cache.next_id,
    ensures
        (Ledger { cache, ..ledger }).balanced(),
{
    let after = Ledger { cache, ..ledger };
    assert forall|id: u64| #[trigger] after.known(id) <==> after.cache.holds(id)
        || after.delivered.contains(id) || after.lost.contains(id) by {
        assert(after.known(id) == ledger.known(id));
        assert(after.cache.holds(id) == ledger.cache.holds(id));
    }
    assert forall|id: u64| #[trigger] after.lost.contains(id) implies !after.delivered.contains(id)
        && !after.cache.holds(id) by {
        assert(ledger.lost.contains(id));
        assert(after.cache.holds(id) == ledger.cache.holds(id));
    }
}

/// Something done to a cache.
pub enum CacheOp {
    Push(Kind, Seq<u8>),
    Reserve,
    Ack(u64),
    Release(u64),
}

/// The number of items lost to a push of `incoming` bytes.
pub open spec fn losses(cache: CacheView, incoming: nat) -> int {
    choose|count: int| cache.drops_needed(incoming, count)
}

/// A ledger after one more operation.
pub open spec fn extended(ledger: Ledger, op: CacheOp) -> Ledger {
    match op {
        CacheOp::Push(kind, bytes) => ledger.with_push(
            kind,
            bytes,
            losses(ledger.cache, bytes.len()),
        ),
        CacheOp::Reserve => Ledger { cache: ledger.cache.reserved(), ..ledger },
        CacheOp::Ack(id) => ledger.with_ack(id),
        CacheOp::Release(id) => Ledger { cache: ledger.cache.released(id), ..ledger },
    }
}

/// The ledger of a cache to which `ops` are done, one after the other.
pub open spec fn history(cache: CacheView, ops: Seq<CacheOp>) -> Ledger
    decreases ops.len(),
{
    if ops.len() == 0 {
        Ledger::opened(cache)
    } else {
        extended(history(cache, ops.drop_last()), ops.last())
    }
}

/// How many of `ops` are pushes.
pub open spec fn pushes(ops: Seq<CacheOp>) -> nat
    decreases ops.len(),
{
    if ops.len() == 0 {
        0
    } else {
        pushes(ops.drop_last()) + if ops.last() is Push {
            1nat
        } else {
            0nat
        }
    }
}

/// Whatever is done to a cache, in whatever order, its ledger adds up: items are delivered in the
/// order in which they came, none twice, and every item is cached, delivered or lost. The numbers
/// of the items have no gap: there are as many as there were pushes.
pub proof fn every_history_is_balanced(cache: CacheView, ops: Seq<CacheOp>)
    requires
        cache.valid(),
        cache.next_id + pushes(ops) <= u64::MAX,
    ensures
        history(cache, ops).start == cache,
        history(cache, ops).balanced(),
        history(cache, ops).cache.next_id == cache.next_id + pushes(ops),
        history(cache, ops).cache.items.len() + history(cache, ops).delivered.len() + history(
            cache,
            ops,
        ).lost.len() == cache.items.len() + pushes(ops),
    decreases ops.len(),
{
    if ops.len() == 0 {
        opened_ledger_is_balanced(cache);
    } else {
        every_history_is_balanced(cache, ops.drop_last());
        let before = history(cache, ops.drop_last());
        match ops.last() {
            CacheOp::Push(kind, bytes) => {
                let _ = push_always_ends(before.cache, bytes.len());
                let count = losses(before.cache, bytes.len());
                assert(before.cache.drops_needed(bytes.len(), count));
                push_keeps_ledger_balanced(before, kind, bytes, count);
                push_accounts_for_every_item(before.cache, kind, bytes, count);
            },
            CacheOp::Reserve => {
                operations_keep_cache_valid(before.cache, Kind::Logs, Seq::empty(), 0, 0);
                standing_items_keep_ledger_balanced(before, before.cache.reserved());
            },
            CacheOp::Ack(id) => {
                ack_keeps_ledger_balanced(before, id);
            },
            CacheOp::Release(id) => {
                operations_keep_cache_valid(before.cache, Kind::Logs, Seq::empty(), 0, id);
                standing_items_keep_ledger_balanced(before, before.cache.released(id));
            },
        }
    }
}

} // verus!
