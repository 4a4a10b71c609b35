//! One client's conversation: it asks with `GET`, gets one item, and answers `ACK <id>`.
use vstd::prelude::*;
use vstd::string::StringExecFns;

use crate::cache::{CacheView, CachedItem, FifoCache, ItemView};
use crate::text::{line_is, to_decimal};

verus! {

/// How far a conversation has come.
#[derive(Debug, Clone, Copy, PartialEq, Eq, Structural)]
pub enum ClientState {
    /// The client has not asked yet.
    AwaitRequest,
    /// The client has asked and there was no item to hand out.
    AwaitItem,
    /// Item `id` is being sent.
    Sending { id: u64 },
    /// Item `id` is sent and not answered yet.
    AwaitAck { id: u64 },
    /// The last reply is being sent.
    Replying,
    /// The reply that the answer came too late is being sent.
    ReplyingTimeout,
    /// The conversation is over.
    Closed,
}

/// What happens in a conversation.
#[derive(Debug)]
pub enum ClientEvent {
    /// A line came, with or without its end.
    Line(String),
    /// The client closed its side.
    Eof,
    /// Reading failed, for a reason.
    ReadFailed(String),
    /// The time to answer is over.
    TimedOut,
    /// The cache changed, or may have changed.
    CacheChanged,
    /// What was to be sent is sent.
    Written,
    /// Sending failed, for a reason.
    WriteFailed(String),
}

/// The last words to a client.
#[derive(Debug, Clone, Copy, PartialEq, Eq, Structural)]
pub enum Reply {
    ExpectedGet,
    Done,
    StateMismatch,
    BadAck,
    AckTimeout,
}

impl Reply {
    /// The text of the reply. It ends in a backslash and an `n`, not in a line feed.
    pub open spec fn text(self) -> Seq<char> {
        match self {
            Reply::ExpectedGet => "ERR expected 'GET'\\n"@,
            Reply::Done => "OK\\n"@,
            Reply::StateMismatch => "ERR state mismatch\\n"@,
            Reply::BadAck => "ERR bad ack\\n"@,
            Reply::AckTimeout => "ERR ack timeout\\n"@,
        }
    }

    /// The text of the reply.
    pub fn as_str(self) -> (text: &'static str)
        ensures
            text@ == self.text(),
    {
        match self {
            Reply::ExpectedGet => "ERR expected 'GET'\\n",
            Reply::Done => "OK\\n",
            Reply::StateMismatch => "ERR state mismatch\\n",
            Reply::BadAck => "ERR bad ack\\n",
            Reply::AckTimeout => "ERR ack timeout\\n",
        }
    }
}

/// What to do next in a conversation.
#[derive(Debug)]
pub enum ClientAction {
    /// Wait until the cache changes.
    AwaitChange,
    /// Send the header, then the body.
    SendItem { header: String, body: Vec<u8> },
    /// Read a line, for no longer than the time to answer.
    ReadAck,
    /// Send the reply.
    SendReply(Reply),
    /// End the conversation, well or with an error.
    Finish(Result<(), String>),
    /// Nothing: the event does not belong here.
    Nothing,
}

/// A [`ClientAction`] as a mathematical value.
pub enum ActionView {
    AwaitChange,
    SendItem { header: Seq<char>, body: Seq<u8> },
    ReadAck,
    SendReply(Reply),
    Finish(Result<(), Seq<char>>),
    Nothing,
}

impl View for ClientAction {
    type V = ActionView;

    open spec fn view(&self) -> ActionView {
        match self {
            ClientAction::AwaitChange => ActionView::AwaitChange,
            ClientAction::SendItem { header, body } => ActionView::SendItem {
                header: header@,
                body: body@,
            },
            ClientAction::ReadAck => ActionView::ReadAck,
            ClientAction::SendReply(reply) => ActionView::SendReply(*reply),
            ClientAction::Finish(Ok(_)) => ActionView::Finish(Ok(())),
            ClientAction::Finish(Err(reason)) => ActionView::Finish(Err(reason@)),
            ClientAction::Nothing => ActionView::Nothing,
        }
    }
}

/// One step of a conversation.
#[derive(Debug)]
pub struct ClientStep {
    /// How far the conversation has come now.
    pub next: ClientState,
    /// What to do next.
    pub action: ClientAction,
    /// What to add to the metric `pdata_sent`.
    pub pdata_sent: u64,
    /// The number of items in the cache now, for the metric `pdata_count`.
    pub pdata_count: u64,
    /// Whether other clients that wait for an item are to be woken.
    pub wake_clients: bool,
    /// The item that the client has just acknowledged and that has left the cache.
    pub delivered: Option<u64>,
}

/// One step of a conversation as a mathematical value, together with the cache after it.
pub struct StepView {
    pub next: ClientState,
    pub action: ActionView,
    pub pdata_sent: u64,
    pub pdata_count: nat,
    pub wake_clients: bool,
    pub delivered: Option<u64>,
    pub cache: CacheView,
}

impl ClientStep {
    /// This step together with the cache after it.
    pub open spec fn with(self, cache: CacheView) -> StepView {
        StepView {
            next: self.next,
            action: self.action@,
            pdata_sent: self.pdata_sent,
            pdata_count: self.pdata_count as nat,
            wake_clients: self.wake_clients,
            delivered: self.delivered,
            cache,
        }
    }
}

/// The header of an item: its number, its kind and its length in bytes. It ends in a backslash
/// and an `n`, not in a line feed.
pub open spec fn item_header(item: ItemView) -> Seq<char> {
    "ITEM "@ + crate::text::decimal(item.id as nat) + " "@ + item.kind.word() + " "@
        + crate::text::decimal(item.bytes.len()) + "\\n"@
}

/// Whether `line` asks for an item.
pub open spec fn is_request(line: Seq<char>) -> bool {
    crate::text::trimmed(line) == "GET"@
}

/// Whether `line` acknowledges item `id`.
pub open spec fn is_ack(line: Seq<char>, id: u64) -> bool {
    crate::text::trimmed(line) == "ACK "@ + crate::text::decimal(id as nat)
}

/// A step that leaves the cache as it is, wakes nobody and delivers nothing.
pub open spec fn quiet(next: ClientState, action: ActionView, cache: CacheView) -> StepView {
    StepView {
        next,
        action,
        pdata_sent: 0,
        pdata_count: cache.items.len(),
        wake_clients: false,
        delivered: None,
        cache,
    }
}

/// The step of a client that wants an item: it gets the available one, or waits.
pub open spec fn hand_out_step(cache: CacheView) -> StepView {
    match cache.available() {
        Some(item) => StepView {
            next: ClientState::Sending { id: item.id },
            action: ActionView::SendItem { header: item_header(item), body: item.bytes },
            pdata_sent: 1,
            pdata_count: cache.items.len(),
            wake_clients: false,
            delivered: None,
            cache: cache.reserved(),
        },
        None => quiet(ClientState::AwaitItem, ActionView::AwaitChange, cache),
    }
}

/// The step of a client that had item `id` and gives it up: the item is out of flight, and the
/// others are woken if it was in flight.
pub open spec fn give_up_step(
    next: ClientState,
    action: ActionView,
    cache: CacheView,
    id: u64,
) -> StepView {
    StepView {
        next,
        action,
        pdata_sent: 0,
        pdata_count: cache.items.len(),
        wake_clients: cache.inflight == Some(id),
        delivered: None,
        cache: cache.released(id),
    }
}

/// The step of a client that answers item `id` with `line`.
pub open spec fn answer_step(cache: CacheView, id: u64, line: Seq<char>) -> StepView {
    if !is_ack(line, id) {
        give_up_step(ClientState::Replying, ActionView::SendReply(Reply::BadAck), cache, id)
    } else if cache.can_ack(id) {
        StepView {
            next: ClientState::Replying,
            action: ActionView::SendReply(Reply::Done),
            pdata_sent: 0,
            pdata_count: (cache.items.len() - 1) as nat,
            wake_clients: true,
            delivered: Some(id),
            cache: cache.acked(id),
        }
    } else {
        give_up_step(ClientState::Replying, ActionView::SendReply(Reply::StateMismatch), cache, id)
    }
}

/// What an event does in a conversation and to the cache. An event that does not belong to the
/// state does nothing.
pub open spec fn step(state: ClientState, cache: CacheView, event: ClientEvent) -> StepView {
    let closed = ClientState::Closed;
    match (state, event) {
        (ClientState::AwaitRequest, ClientEvent::Line(line)) => if is_request(line@) {
            hand_out_step(cache)
        } else {
            quiet(ClientState::Replying, ActionView::SendReply(Reply::ExpectedGet), cache)
        },
        (ClientState::AwaitRequest, ClientEvent::Eof) => quiet(
            closed,
            ActionView::Finish(Ok(())),
            cache,
        ),
        (ClientState::AwaitRequest, ClientEvent::ReadFailed(reason)) => quiet(
            closed,
            ActionView::Finish(Err(reason@)),
            cache,
        ),
        (ClientState::AwaitItem, ClientEvent::CacheChanged) => hand_out_step(cache),
        (ClientState::Sending { id }, ClientEvent::Written) => quiet(
            ClientState::AwaitAck { id },
            ActionView::ReadAck,
            cache,
        ),
        (ClientState::Sending { id: _ }, ClientEvent::WriteFailed(reason)) => quiet(
            closed,
            ActionView::Finish(Err(reason@)),
            cache,
        ),
        (ClientState::AwaitAck { id }, ClientEvent::Line(line)) => answer_step(cache, id, line@),
        (ClientState::AwaitAck { id }, ClientEvent::Eof) => give_up_step(
            closed,
            ActionView::Finish(Ok(())),
            cache,
            id,
        ),
        (ClientState::AwaitAck { id }, ClientEvent::ReadFailed(reason)) => give_up_step(
            closed,
            ActionView::Finish(Err("read error: "@ + reason@)),
            cache,
            id,
        ),
        (ClientState::AwaitAck { id }, ClientEvent::TimedOut) => give_up_step(
            ClientState::ReplyingTimeout,
            ActionView::SendReply(Reply::AckTimeout),
            cache,
            id,
        ),
        (ClientState::Replying, ClientEvent::Written) => quiet(
            closed,
            ActionView::Finish(Ok(())),
            cache,
        ),
        (ClientState::Replying, ClientEvent::WriteFailed(reason)) => quiet(
            closed,
            ActionView::Finish(Err(reason@)),
            cache,
        ),
        (ClientState::ReplyingTimeout, ClientEvent::Written) => quiet(
            closed,
            ActionView::Finish(Ok(())),
            cache,
        ),
        (ClientState::ReplyingTimeout, ClientEvent::WriteFailed(_)) => quiet(
            closed,
            ActionView::Finish(Ok(())),
            cache,
        ),
        _ => quiet(state, ActionView::Nothing, cache),
    }
}

/// Writes the header of an item.
pub fn write_header(item: &CachedItem) -> (header: String)
    ensures
        header@ == item_header(item@),
{
    let id: String = to_decimal(item.id);
    let length: String = to_decimal(item.bytes.len() as u64);
    let mut header: String = "ITEM ".to_string();
    header.append(id.as_str());
    header.append(" ");
    header.append(item.kind.as_str());
    header.append(" ");
    header.append(length.as_str());
    header.append("\\n");
    header
}

/// A step that changes nothing in the cache.
fn quiet_step(cache: &FifoCache, next: ClientState, action: ClientAction) -> (result: ClientStep)
    ensures
        result.with(cache@) == quiet(next, action@, cache@),
{
    ClientStep {
        next,
        action,
        pdata_sent: 0,
        pdata_count: cache.len() as u64,
        wake_clients: false,
        delivered: None,
    }
}

/// Hands the available item to a client, or has it wait.
fn hand_out(cache: &mut FifoCache) -> (result: ClientStep)
    requires
        old(cache).wf(),
    ensures
        final(cache).wf(),
        result.with(final(cache)@) == hand_out_step(old(cache)@),
{
    match cache.reserve_head() {
        Some(item) => {
            let header: String = write_header(&item);
            ClientStep {
                next: ClientState::Sending { id: item.id },
                action: ClientAction::SendItem { header, body: item.bytes },
                pdata_sent: 1,
                pdata_count: cache.len() as u64,
                wake_clients: false,
                delivered: None,
            }
        },
        None => quiet_step(cache, ClientState::AwaitItem, ClientAction::AwaitChange),
    }
}

/// Takes back item `id` from a client.
fn give_up(cache: &mut FifoCache, id: u64, next: ClientState, action: ClientAction) -> (result:
    ClientStep)
    requires
        old(cache).wf(),
    ensures
        final(cache).wf(),
        result.with(final(cache)@) == give_up_step(next, action@, old(cache)@, id),
{
    let wake_clients: bool = cache.release_inflight(id);
    ClientStep {
        next,
        action,
        pdata_sent: 0,
        pdata_count: cache.len() as u64,
        wake_clients,
        delivered: None,
    }
}

/// Takes a client's answer to item `id`.
fn answer(cache: &mut FifoCache, id: u64, line: &str) -> (result: ClientStep)
    requires
        old(cache).wf(),
    ensures
        final(cache).wf(),
        result.with(final(cache)@) == answer_step(old(cache)@, id, line@),
{
    let mut expected: String = "ACK ".to_string();
    let number: String = to_decimal(id);
    expected.append(number.as_str());
    if !line_is(line, expected.as_str()) {
        return give_up(
            cache,
            id,
            ClientState::Replying,
            ClientAction::SendReply(Reply::BadAck),
        );
    }
    if cache.ack_and_pop(id) {
        ClientStep {
            next: ClientState::Replying,
            action: ClientAction::SendReply(Reply::Done),
            pdata_sent: 0,
            pdata_count: cache.len() as u64,
            wake_clients: true,
            delivered: Some(id),
        }
    } else {
        give_up(cache, id, ClientState::Replying, ClientAction::SendReply(Reply::StateMismatch))
    }
}

/// Takes an event of a conversation that has come as far as `state`.
pub fn handle_client(state: ClientState, cache: &mut FifoCache, event: ClientEvent) -> (result:
    ClientStep)
    requires
        old(cache).wf(),
    ensures
        final(cache).wf(),
        result.with(final(cache)@) == step(state, old(cache)@, event),
        result.action matches ClientAction::SendItem { header, body } ==> old(cache)@.items.len()
            > 0 && header@ == item_header(old(cache)@.items[0]) && body@
            == old(cache)@.items[0].bytes,
{
    match (state, event) {
        (ClientState::AwaitRequest, ClientEvent::Line(line)) => {
            if line_is(line.as_str(), "GET") {
                hand_out(cache)
            } else {
                quiet_step(
                    cache,
                    ClientState::Replying,
                    ClientAction::SendReply(Reply::ExpectedGet),
                )
            }
        },
        (ClientState::AwaitRequest, ClientEvent::Eof) => quiet_step(
            cache,
            ClientState::Closed,
            ClientAction::Finish(Ok(())),
        ),
        (ClientState::AwaitRequest, ClientEvent::ReadFailed(reason)) => quiet_step(
            cache,
            ClientState::Closed,
            ClientAction::Finish(Err(reason)),
        ),
        (ClientState::AwaitItem, ClientEvent::CacheChanged) => hand_out(cache),
        (ClientState::Sending { id }, ClientEvent::Written) => quiet_step(
            cache,
            ClientState::AwaitAck { id },
            ClientAction::ReadAck,
        ),
        (ClientState::Sending { id: _ }, ClientEvent::WriteFailed(reason)) => quiet_step(
            cache,
            ClientState::Closed,
            ClientAction::Finish(Err(reason)),
        ),
        (ClientState::AwaitAck { id }, ClientEvent::Line(line)) => answer(
            cache,
            id,
            line.as_str(),
        ),
        (ClientState::AwaitAck { id }, ClientEvent::Eof) => give_up(
            cache,
            id,
            ClientState::Closed,
            ClientAction::Finish(Ok(())),
        ),
        (ClientState::AwaitAck { id }, ClientEvent::ReadFailed(reason)) => {
            let mut text: String = "read error: ".to_string();
            text.append(reason.as_str());
            give_up(cache, id, ClientState::Closed, ClientAction::Finish(Err(text)))
        },
        (ClientState::AwaitAck { id }, ClientEvent::TimedOut) => give_up(
            cache,
            id,
            ClientState::ReplyingTimeout,
            ClientAction::SendReply(Reply::AckTimeout),
        ),
        (ClientState::Replying, ClientEvent::Written) => quiet_step(
            cache,
            ClientState::Closed,
            ClientAction::Finish(Ok(())),
        ),
        (ClientState::Replying, ClientEvent::WriteFailed(reason)) => quiet_step(
            cache,
            ClientState::Closed,
            ClientAction::Finish(Err(reason)),
        ),
        (ClientState::ReplyingTimeout, ClientEvent::Written) => quiet_step(
            cache,
            ClientState::Closed,
            ClientAction::Finish(Ok(())),
        ),
        (ClientState::ReplyingTimeout, ClientEvent::WriteFailed(_)) => quiet_step(
            cache,
            ClientState::Closed,
            ClientAction::Finish(Ok(())),
        ),
        (state, _) => quiet_step(cache, state, ClientAction::Nothing),
    }
}

} // verus!
