//! What holds of conversations with clients.
use vstd::prelude::*;

use crate::cache::{CacheView, ItemView, Kind};
use crate::client::{ActionView, ClientAction, ClientEvent, ClientState, ClientStep, Reply};

verus! {

/// Every step of a conversation keeps the cache valid.
pub proof fn steps_keep_cache_valid(state: ClientState, cache: CacheView, event: ClientEvent)
    requires
        cache.valid(),
    ensures
        crate::client::step(state, cache, event).cache.valid(),
{
    let id = match state {
        ClientState::AwaitAck { id } => id,
        _ => 0,
    };
    crate::laws::cache::operations_keep_cache_valid(cache, Kind::Logs, Seq::empty(), 0, id);
}

/// A conversation takes an item out of the cache only when its client acknowledges it: then it
/// takes the oldest item, which was in flight. Otherwise all items stay.
pub proof fn only_an_ack_removes_an_item(state: ClientState, cache: CacheView, event: ClientEvent)
    ensures
        ({
            let after = crate::client::step(state, cache, event);
            match after.delivered {
                None => after.cache.items == cache.items,
                Some(id) => {
                    &&& state == (ClientState::AwaitAck { id })
                    &&& event matches ClientEvent::Line(line) && crate::client::is_ack(line@, id)
                    &&& cache.can_ack(id)
                    &&& after.cache.items == cache.items.drop_first()
                    &&& after.action == ActionView::SendReply(Reply::Done)
                },
            }
        }),
{
}

/// However a client answers, or fails to answer, its item is no longer in flight afterwards.
pub proof fn answered_item_leaves_flight(id: u64, cache: CacheView, event: ClientEvent)
    requires
        event is Line || event is Eof || event is ReadFailed || event is TimedOut,
    ensures
        crate::client::step(ClientState::AwaitAck { id }, cache, event).cache.inflight != Some(id),
{
}

/// A client that does not acknowledge its item leaves it to be handed out again: if the item was
/// still cached, it is the one handed out next.
pub proof fn unacknowledged_item_is_handed_out_again(id: u64, cache: CacheView, event: ClientEvent)
    requires
        cache.can_ack(id),
        event is Eof || event is ReadFailed || event is TimedOut || (event matches ClientEvent::Line(
            line,
        ) && !crate::client::is_ack(line@, id)),
    ensures
        ({
            let after = crate::client::step(ClientState::AwaitAck { id }, cache, event);
            &&& after.cache.items == cache.items
            &&& after.cache.available() == Some(cache.items[0])
            &&& after.wake_clients
        }),
{
}

/// A client that acknowledges the item it holds is told that this counted, and the item leaves
/// the cache.
pub proof fn ack_of_item_in_flight_counts(id: u64, cache: CacheView, line: String)
    requires
        cache.valid(),
        cache.inflight == Some(id),
        crate::client::is_ack(line@, id),
    ensures
        ({
            let after = crate::client::step(
                ClientState::AwaitAck { id },
                cache,
                ClientEvent::Line(line),
            );
            &&& after.action == ActionView::SendReply(Reply::Done)
            &&& after.delivered == Some(id)
            &&& after.cache.items == cache.items.drop_first()
        }),
{
}

/// An acknowledgement of an item that is not in flight is refused, and changes nothing.
pub proof fn ack_of_other_item_is_refused(id: u64, cache: CacheView, line: String)
    requires
        cache.inflight != Some(id),
        crate::client::is_ack(line@, id),
    ensures
        ({
            let after = crate::client::step(
                ClientState::AwaitAck { id },
                cache,
                ClientEvent::Line(line),
            );
            &&& after.action == ActionView::SendReply(Reply::StateMismatch)
            &&& after.cache == cache
        }),
{
}

/// A client that asks while an item is available gets that item: its number, kind and length in
/// the header, and its bytes.
pub proof fn request_gets_the_oldest_item(cache: CacheView, item: ItemView, line: String)
    requires
        cache.available() == Some(item),
        crate::client::is_request(line@),
    ensures
        ({
            let after = crate::client::step(
                ClientState::AwaitRequest,
                cache,
                ClientEvent::Line(line),
            );
            &&& after.action == (ActionView::SendItem {
                header: crate::client::item_header(item),
                body: item.bytes,
            })
            &&& after.next == (ClientState::Sending { id: item.id })
            &&& after.cache.can_ack(item.id)
        }),
{
}

/// A client that says anything but `GET` is told so and gets no item.
pub proof fn other_words_are_refused(cache: CacheView, line: String)
    requires
        !crate::client::is_request(line@),
    ensures
        ({
            let after = crate::client::step(
                ClientState::AwaitRequest,
                cache,
                ClientEvent::Line(line),
            );
            &&& after.action == ActionView::SendReply(Reply::ExpectedGet)
            &&& after.next == ClientState::Replying
            &&& after.cache == cache
        }),
{
}

/// A client wakes the others exactly when it takes an item out of flight.
pub proof fn clients_are_woken_when_flight_ends(
    state: ClientState,
    cache: CacheView,
    event: ClientEvent,
)
    ensures
        ({
            let after = crate::client::step(state, cache, event);
            after.wake_clients <==> cache.inflight is Some && after.cache.inflight is None
        }),
{
}

/// A client that wants an item gets the oldest one, whether it has just asked or has waited, as
/// soon as there is one and none is in flight: its header, then all its bytes. The item is in
/// flight from then on, and stays in the cache.
pub proof fn wanted_item_is_sent(state: ClientState, cache: CacheView, event: ClientEvent)
    requires
        cache.items.len() > 0,
        cache.inflight is None,
        ({
            ||| state is AwaitRequest && (event matches ClientEvent::Line(line)
                && crate::client::is_request(line@))
            ||| state is AwaitItem && event is CacheChanged
        }),
    ensures
        ({
            let after = crate::client::step(state, cache, event);
            let item = cache.items[0];
            &&& after.action == (ActionView::SendItem {
                header: crate::client::item_header(item),
                body: item.bytes,
            })
            &&& after.next == (ClientState::Sending { id: item.id })
            &&& after.cache.inflight == Some(item.id)
            &&& after.cache.items == cache.items
            &&& after.pdata_sent == 1
        }),
{
}

/// A client that wants an item waits while there is none, or one is in flight; nothing changes.
pub proof fn client_waits_for_an_item(state: ClientState, cache: CacheView, event: ClientEvent)
    requires
        cache.items.len() == 0 || cache.inflight is Some,
        ({
            ||| state is AwaitRequest && (event matches ClientEvent::Line(line)
                && crate::client::is_request(line@))
            ||| state is AwaitItem && event is CacheChanged
        }),
    ensures
        ({
            let after = crate::client::step(state, cache, event);
            &&& after.action is AwaitChange
            &&& after.next is AwaitItem
            &&& after.cache == cache
        }),
{
}

/// Waiting makes no difference: a client that is woken gets what it would get if it asked now.
pub proof fn waiting_makes_no_difference(cache: CacheView, line: String)
    requires
        crate::client::is_request(line@),
    ensures
        crate::client::step(ClientState::AwaitItem, cache, ClientEvent::CacheChanged)
            == crate::client::step(ClientState::AwaitRequest, cache, ClientEvent::Line(line)),
{
}

/// Whatever is sent to whichever client, it is the oldest item, and no other client holds it: its
/// own header, its own bytes, and it counts as sent once. Nothing else counts as sent.
pub proof fn only_the_oldest_item_is_sent(state: ClientState, cache: CacheView, event: ClientEvent)
    ensures
        ({
            let after = crate::client::step(state, cache, event);
            match after.action {
                ActionView::SendItem { header, body } => {
                    &&& cache.items.len() > 0
                    &&& cache.inflight is None
                    &&& header == crate::client::item_header(cache.items[0])
                    &&& body == cache.items[0].bytes
                    &&& after.next == (ClientState::Sending { id: cache.items[0].id })
                    &&& after.cache.inflight == Some(cache.items[0].id)
                    &&& after.pdata_sent == 1
                    &&& state is AwaitRequest && event is Line || state is AwaitItem
                        && event is CacheChanged
                },
                _ => after.pdata_sent == 0 && (after.next is Sending ==> after.next == state),
            }
        }),
{
}

/// No step numbers an item or changes the limits, and every step tells how many items are cached
/// after it.
pub proof fn steps_count_the_cached_items(state: ClientState, cache: CacheView, event: ClientEvent)
    ensures
        ({
            let after = crate::client::step(state, cache, event);
            &&& after.pdata_count == after.cache.items.len()
            &&& after.cache.next_id == cache.next_id
            &&& after.cache.max_items == cache.max_items
            &&& after.cache.max_total_bytes == cache.max_total_bytes
        }),
{
}

/// Once an item is sent, the answer to this item is read; if sending it fails, the conversation
/// ends with the reason. The cache stays as it is.
pub proof fn sent_item_is_to_be_answered(id: u64, cache: CacheView, reason: String)
    ensures
        ({
            let state = ClientState::Sending { id };
            let sent = crate::client::step(state, cache, ClientEvent::Written);
            let failed = crate::client::step(state, cache, ClientEvent::WriteFailed(reason));
            &&& sent.action is ReadAck
            &&& sent.next == (ClientState::AwaitAck { id })
            &&& sent.cache == cache
            &&& failed.action == ActionView::Finish(Err(reason@))
            &&& failed.next is Closed
            &&& failed.cache == cache
        }),
{
}

/// What a client is told of its answer to item `id`: `OK` if it acknowledges the item while that is
/// the oldest and in flight; that the state does not match if it acknowledges the item at any other
/// time; and otherwise that the answer is none. Only in the first case is the item delivered.
pub proof fn answer_is_told_what_it_did(id: u64, cache: CacheView, line: String)
    ensures
        ({
            let after = crate::client::step(
                ClientState::AwaitAck { id },
                cache,
                ClientEvent::Line(line),
            );
            let held = cache.items.len() > 0 && cache.items[0].id == id && cache.inflight == Some(
                id,
            );
            &&& after.next is Replying
            &&& after.action == ActionView::SendReply(
                if !crate::client::is_ack(line@, id) {
                    Reply::BadAck
                } else if held {
                    Reply::Done
                } else {
                    Reply::StateMismatch
                },
            )
            &&& after.delivered == if crate::client::is_ack(line@, id) && held {
                Some(id)
            } else {
                None
            }
            &&& after.delivered is Some ==> cache.items == seq![cache.items[0]] + after.cache.items
            &&& after.delivered is None ==> after.cache.items == cache.items
            &&& cache.inflight == Some(id) ==> after.cache.inflight is None
            &&& cache.inflight != Some(id) ==> after.cache.inflight == cache.inflight
        }),
{
}

/// A client that does not answer leaves its item to the others. One that closes its side ends the
/// conversation well; one that cannot be read ends it with the reason; and one that takes too long
/// is told so.
pub proof fn missing_answer_gives_the_item_back(id: u64, cache: CacheView, event: ClientEvent)
    requires
        event is Eof || event is ReadFailed || event is TimedOut,
    ensures
        ({
            let after = crate::client::step(ClientState::AwaitAck { id }, cache, event);
            &&& match event {
                ClientEvent::ReadFailed(reason) => after.next is Closed && after.action
                    == ActionView::Finish(Err("read error: "@ + reason@)),
                ClientEvent::TimedOut => after.next is ReplyingTimeout && after.action
                    == ActionView::SendReply(Reply::AckTimeout),
                _ => after.next is Closed && after.action == ActionView::Finish(Ok(())),
            }
            &&& after.delivered is None
            &&& after.cache.items == cache.items
            &&& cache.inflight == Some(id) ==> after.cache.inflight is None
            &&& cache.inflight != Some(id) ==> after.cache.inflight == cache.inflight
        }),
{
}

/// A conversation ends once its last reply is sent: well, or with the reason why it could not be
/// sent, except that nobody cares whether a client that took too long hears of it. The cache stays
/// as it is.
pub proof fn last_reply_ends_the_conversation(cache: CacheView, reason: String)
    ensures
        ({
            let sent = crate::client::step(ClientState::Replying, cache, ClientEvent::Written);
            let failed = crate::client::step(
                ClientState::Replying,
                cache,
                ClientEvent::WriteFailed(reason),
            );
            let late = crate::client::step(
                ClientState::ReplyingTimeout,
                cache,
                ClientEvent::Written,
            );
            let unheard = crate::client::step(
                ClientState::ReplyingTimeout,
                cache,
                ClientEvent::WriteFailed(reason),
            );
            &&& sent.action == ActionView::Finish(Ok(()))
            &&& failed.action == ActionView::Finish(Err(reason@))
            &&& late.action == ActionView::Finish(Ok(()))
            &&& unheard.action == ActionView::Finish(Ok(()))
            &&& sent.next is Closed && failed.next is Closed && late.next is Closed
                && unheard.next is Closed
            &&& sent.cache == cache && failed.cache == cache && late.cache == cache
                && unheard.cache == cache
        }),
{
}

/// A client that goes away before it asks ends the conversation, well, or with the reason why it
/// cannot be read. The cache stays as it is.
pub proof fn client_can_leave_without_asking(cache: CacheView, reason: String)
    ensures
        ({
            let left = crate::client::step(ClientState::AwaitRequest, cache, ClientEvent::Eof);
            let failed = crate::client::step(
                ClientState::AwaitRequest,
                cache,
                ClientEvent::ReadFailed(reason),
            );
            &&& left.action == ActionView::Finish(Ok(()))
            &&& left.next is Closed
            &&& left.cache == cache
            &&& failed.action == ActionView::Finish(Err(reason@))
            &&& failed.next is Closed
            &&& failed.cache == cache
        }),
{
}

/// An event that does not belong to the state of a conversation changes nothing and asks for
/// nothing. While nothing is being sent, nothing can have been sent; while nothing is being read,
/// nothing can have been read; time runs out on an answer only; and the cache matters only to a
/// client that waits for an item. Once closed, a conversation stays closed.
pub proof fn stray_events_do_nothing(state: ClientState, cache: CacheView, event: ClientEvent)
    requires
        ({
            let reads = state is AwaitRequest || state is AwaitAck;
            let sends = state is Sending || state is Replying || state is ReplyingTimeout;
            ||| state is Closed
            ||| (event is Line || event is Eof || event is ReadFailed) && !reads
            ||| (event is Written || event is WriteFailed) && !sends
            ||| event is TimedOut && state !is AwaitAck
            ||| event is CacheChanged && state !is AwaitItem
        }),
    ensures
        ({
            let after = crate::client::step(state, cache, event);
            &&& after.next == state
            &&& after.action is Nothing
            &&& after.cache == cache
            &&& after.pdata_sent == 0
            &&& !after.wake_clients
            &&& after.delivered is None
        }),
{
}

/// A client that asks for the oldest item, gets it and acknowledges it is told so, and has taken
/// that item and no other out of the cache; the next client gets the next one. If it acknowledges
/// nothing, the cache is as it was before it asked.
pub proof fn conversation_delivers_one_item(cache: CacheView, request: String, answer: String)
    requires
        cache.items.len() > 0,
        cache.inflight is None,
        crate::client::is_request(request@),
    ensures
        ({
            let id = cache.items[0].id;
            let asked = crate::client::step(
                ClientState::AwaitRequest,
                cache,
                ClientEvent::Line(request),
            );
            let sent = crate::client::step(asked.next, asked.cache, ClientEvent::Written);
            let answered = crate::client::step(sent.next, sent.cache, ClientEvent::Line(answer));
            let gone = crate::client::step(sent.next, sent.cache, ClientEvent::Eof);
            &&& asked.action matches ActionView::SendItem { header: _, body } && body
                == cache.items[0].bytes
            &&& sent.action is ReadAck
            &&& crate::client::is_ack(answer@, id) ==> {
                &&& answered.action == ActionView::SendReply(Reply::Done)
                &&& answered.delivered == Some(id)
                &&& answered.cache.inflight is None
                &&& answered.cache.items == cache.items.skip(1)
                &&& cache.items.len() > 1 ==> answered.cache.available() == Some(cache.items[1])
            }
            &&& !crate::client::is_ack(answer@, id) ==> answered.cache == cache
            &&& gone.cache == cache
        }),
{
    assert(cache.items.drop_first() =~= cache.items.skip(1));
}

/// An action is seen as it is, with all that is to be sent, and so is a step.
pub proof fn step_is_seen_as_it_is(step: ClientStep, cache: CacheView)
    ensures
        match step.action {
            ClientAction::AwaitChange => step.action@ is AwaitChange,
            ClientAction::SendItem { header, body } => step.action@ is SendItem
                && step.action@->header == header@ && step.action@->body == body@,
            ClientAction::ReadAck => step.action@ is ReadAck,
            ClientAction::SendReply(reply) => step.action@ == ActionView::SendReply(reply),
            ClientAction::Finish(Ok(_)) => step.action@ == ActionView::Finish(Ok(())),
            ClientAction::Finish(Err(reason)) => step.action@ == ActionView::Finish(Err(reason@)),
            ClientAction::Nothing => step.action@ is Nothing,
        },
        step.with(cache).next == step.next,
        step.with(cache).action == step.action@,
        step.with(cache).pdata_sent == step.pdata_sent,
        step.with(cache).pdata_count == step.pdata_count,
        step.with(cache).wake_clients == step.wake_clients,
        step.with(cache).delivered == step.delivered,
        step.with(cache).cache == cache,
{
}

/// How far a conversation has come, as a number.
pub open spec fn progress(state: ClientState) -> nat {
    match state {
        ClientState::AwaitRequest => 0,
        ClientState::AwaitItem => 1,
        ClientState::Sending { id: _ } => 2,
        ClientState::AwaitAck { id: _ } => 3,
        ClientState::Replying => 4,
        ClientState::ReplyingTimeout => 4,
        ClientState::Closed => 5,
    }
}

/// A conversation only moves forward, so it serves one item at most; where it stays, nothing
/// changes in the cache.
pub proof fn conversations_move_forward(state: ClientState, cache: CacheView, event: ClientEvent)
    ensures
        ({
            let after = crate::client::step(state, cache, event);
            ||| progress(after.next) > progress(state)
            ||| after.next == state && after.cache == cache && after.delivered is None
        }),
{
}

} // verus!
