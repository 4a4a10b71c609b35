//! What holds of the exporter, for one payload and over a whole run.
use vstd::prelude::*;

use crate::cache::{CacheView, ItemView, Kind};
use crate::client::{ActionView, ClientEvent, ClientState, ClientStep};
use crate::exporter::{
    Admission, ExporterView, PdataOutcome, PipelineAction, PipelineMessage, UpstreamReply,
};
use crate::laws::cache::Ledger;
use crate::metrics::Metrics;
use crate::payload::{OtapPayload, OtlpProtoBytes, SignalType};

verus! {

/// A payload is answered with a NACK exactly if it does not count as exported, and the cache then
/// stays as it is. One that holds nothing is acknowledged at once and leaves the cache as it is.
/// Clients are woken exactly if the payload is offered to the cache, also if it is turned away
/// there. Nothing counts as sent.
pub proof fn reply_matches_what_was_done(
    before: ExporterView,
    payload: OtapPayload,
    may_return_payload: bool,
    decodes: bool,
    after: ExporterView,
    outcome: PdataOutcome,
)
    requires
        crate::exporter::settled(before, payload, may_return_payload, decodes, after, outcome),
    ensures
        outcome.reply is Nack <==> !outcome.exported,
        outcome.reply is Nack ==> after.cache == before.cache,
        payload.holds_nothing() ==> outcome.reply is Ack && after.cache == before.cache,
        outcome.wake_clients <==> crate::exporter::admission(
            payload,
            before.config.validate_otlp,
            decodes,
        ) is Item,
        after.metrics.exporter.pdata_sent == before.metrics.exporter.pdata_sent,
{
}

/// A payload that the cache cannot have room for is turned away: all items stay, it is the one item
/// dropped, and it counts as exported all the same. Where upstream is acknowledged on enqueue, it
/// is acknowledged, for good. Otherwise its acknowledgement is put off and it is lost at once, so
/// that it is refused.
pub proof fn payload_without_room_is_turned_away(
    before: ExporterView,
    payload: OtapPayload,
    may_return_payload: bool,
    decodes: bool,
    after: ExporterView,
    outcome: PdataOutcome,
)
    requires
        crate::exporter::settled(before, payload, may_return_payload, decodes, after, outcome),
        crate::exporter::admission(payload, before.config.validate_otlp, decodes) matches
            Admission::Item(_, bytes) && !before.cache.takes(bytes.len()),
    ensures
        after.cache.items == before.cache.items,
        after.cache.inflight == before.cache.inflight,
        outcome.pdata_dropped == 1,
        outcome.pdata_count == before.cache.items.len(),
        outcome.exported,
        outcome.wake_clients,
        before.config.ack_upstream_on_enqueue ==> outcome.reply is Ack && outcome.lost@.len() == 0,
        !before.config.ack_upstream_on_enqueue ==> outcome.reply == (
        UpstreamReply::AckAfterDelivery { id: before.cache.next_id }) && outcome.lost@ == seq![
            before.cache.next_id,
        ],
{
}

/// A payload that is cached reaches a client: once the item in flight, if there is one, is given
/// back, and the items before it are handed out and acknowledged, the item handed out next has its
/// kind and its bytes.
pub proof fn cached_payload_comes_out(
    before: ExporterView,
    payload: OtapPayload,
    may_return_payload: bool,
    decodes: bool,
    after: ExporterView,
    outcome: PdataOutcome,
)
    requires
        crate::exporter::settled(before, payload, may_return_payload, decodes, after, outcome),
        crate::exporter::admission(payload, before.config.validate_otlp, decodes) is Item,
        crate::exporter::otlp_item(payload) matches Ok((_, bytes)) && before.cache.takes(
            bytes.len(),
        ),
    ensures
        ({
            let free = CacheView { inflight: None, ..after.cache };
            crate::exporter::otlp_item(payload) matches Ok((kind, bytes))
                && crate::laws::cache::after_rounds(
                free,
                (free.items.len() - 1) as nat,
            ).available() == Some(ItemView { id: before.cache.next_id, kind, bytes })
        }),
{
    if let Ok((kind, bytes)) = crate::exporter::otlp_item(payload) {
        crate::laws::cache::pushed_item_comes_out(
            before.cache,
            kind,
            bytes,
            outcome.pdata_dropped as int,
        );
    }
}

/// Where requests are validated, one that does not decode is never cached.
pub proof fn invalid_request_is_never_cached(payload: OtapPayload)
    ensures
        !(crate::exporter::admission(payload, true, false) is Item),
{
}

/// Metrics are never cached: a request for them is refused, validated or not.
pub proof fn metrics_are_refused(bytes: Vec<u8>, validate: bool, decodes: bool)
    requires
        bytes@.len() > 0,
    ensures
        crate::exporter::admission(
            OtapPayload::OtlpBytes(OtlpProtoBytes::ExportMetricsRequest(bytes)),
            validate,
            decodes,
        ) == Admission::Refusal("req-response exporter does not support metrics"@),
{
}

/// Whatever becomes of a payload, it goes back with the reply if upstream may want it back, refused
/// or not; and otherwise an empty request of its signal does.
pub proof fn payload_goes_back_if_wanted(
    before: ExporterView,
    payload: OtapPayload,
    may_return_payload: bool,
    decodes: bool,
    after: ExporterView,
    outcome: PdataOutcome,
)
    requires
        crate::exporter::settled(before, payload, may_return_payload, decodes, after, outcome),
    ensures
        may_return_payload ==> outcome.returned == payload,
        !may_return_payload ==> match outcome.returned {
            OtapPayload::OtlpBytes(OtlpProtoBytes::ExportLogsRequest(bytes)) => bytes@.len() == 0
                && payload.signal() == SignalType::Logs,
            OtapPayload::OtlpBytes(OtlpProtoBytes::ExportMetricsRequest(bytes)) => bytes@.len() == 0
                && payload.signal() == SignalType::Metrics,
            OtapPayload::OtlpBytes(OtlpProtoBytes::ExportTracesRequest(bytes)) => bytes@.len() == 0
                && payload.signal() == SignalType::Traces,
            OtapPayload::OtapArrowRecords(_) => false,
        },
{
}

/// A payload that holds nothing is acknowledged at once, however acknowledgements are configured. It
/// counts as exported, drops nothing and wakes nobody.
pub proof fn empty_payload_is_acknowledged(
    before: ExporterView,
    payload: OtapPayload,
    may_return_payload: bool,
    decodes: bool,
    after: ExporterView,
    outcome: PdataOutcome,
)
    requires
        crate::exporter::settled(before, payload, may_return_payload, decodes, after, outcome),
        payload.holds_nothing(),
    ensures
        outcome.reply is Ack,
        outcome.exported,
        outcome.pdata_dropped == 0,
        outcome.lost@.len() == 0,
        !outcome.wake_clients,
        after.cache == before.cache,
{
}

/// A payload that holds something but has no request that can be cached is refused, for the reason
/// why it has none. It counts as failed, drops nothing and wakes nobody.
pub proof fn payload_without_item_is_refused(
    before: ExporterView,
    payload: OtapPayload,
    may_return_payload: bool,
    decodes: bool,
    after: ExporterView,
    outcome: PdataOutcome,
)
    requires
        crate::exporter::settled(before, payload, may_return_payload, decodes, after, outcome),
        !payload.holds_nothing(),
        ({
            ||| payload.request() is Err
            ||| payload.request() matches Ok(request) && request is ExportMetricsRequest
            ||| before.config.validate_otlp && !decodes
        }),
    ensures
        outcome.reply matches UpstreamReply::Nack { reason } && reason@ == match payload.request() {
            Err(cause) => "Failed OTAP->OTLP conversion: "@ + cause@,
            Ok(OtlpProtoBytes::ExportMetricsRequest(_)) => {
                "req-response exporter does not support metrics"@
            },
            Ok(OtlpProtoBytes::ExportLogsRequest(_)) => "Failed to decode logs request"@,
            Ok(OtlpProtoBytes::ExportTracesRequest(_)) => "Failed to decode traces request"@,
        },
        !outcome.exported,
        outcome.pdata_dropped == 0,
        outcome.lost@.len() == 0,
        !outcome.wake_clients,
        after.cache == before.cache,
{
}

/// A payload with a request for logs or traces, which decodes where requests are validated, is
/// pushed into the cache as an item of that kind with the bytes of the request. It counts as
/// exported and wakes clients. Where upstream is acknowledged on enqueue, it is acknowledged and
/// what is lost to it is nobody's concern. Otherwise its acknowledgement waits for the delivery of
/// its item, and upstream learns what is lost to it.
pub proof fn request_is_pushed_into_the_cache(
    before: ExporterView,
    payload: OtapPayload,
    may_return_payload: bool,
    decodes: bool,
    after: ExporterView,
    outcome: PdataOutcome,
    kind: Kind,
    bytes: Vec<u8>,
)
    requires
        crate::exporter::settled(before, payload, may_return_payload, decodes, after, outcome),
        !payload.holds_nothing(),
        payload.request() == Ok::<OtlpProtoBytes, String>(
            match kind {
                Kind::Logs => OtlpProtoBytes::ExportLogsRequest(bytes),
                Kind::Traces => OtlpProtoBytes::ExportTracesRequest(bytes),
            },
        ),
        !before.config.validate_otlp || decodes,
    ensures
        before.cache.drops_needed(bytes@.len(), outcome.pdata_dropped as int),
        after.cache == before.cache.pushed(kind, bytes@, outcome.pdata_dropped as int),
        outcome.exported,
        outcome.wake_clients,
        before.config.ack_upstream_on_enqueue ==> outcome.reply is Ack && outcome.lost@.len() == 0,
        !before.config.ack_upstream_on_enqueue ==> {
            &&& outcome.reply matches UpstreamReply::AckAfterDelivery { id } && id
                == before.cache.next_id
            &&& outcome.lost@ == before.cache.lost_ids(bytes@.len(), outcome.pdata_dropped as int)
        },
{
}

/// A payload that fits next to all that is cached is the newest item afterwards, under the next
/// number; nothing is dropped for it.
pub proof fn request_that_fits_is_cached(
    before: ExporterView,
    payload: OtapPayload,
    may_return_payload: bool,
    decodes: bool,
    after: ExporterView,
    outcome: PdataOutcome,
    kind: Kind,
    bytes: Vec<u8>,
)
    requires
        crate::exporter::settled(before, payload, may_return_payload, decodes, after, outcome),
        !payload.holds_nothing(),
        payload.request() == Ok::<OtlpProtoBytes, String>(
            match kind {
                Kind::Logs => OtlpProtoBytes::ExportLogsRequest(bytes),
                Kind::Traces => OtlpProtoBytes::ExportTracesRequest(bytes),
            },
        ),
        !before.config.validate_otlp || decodes,
        before.cache.items.len() < before.cache.max_items,
        crate::cache::total_bytes(before.cache.items) + bytes@.len()
            <= before.cache.max_total_bytes,
    ensures
        after.cache.items == before.cache.items.push(
            ItemView { id: before.cache.next_id, kind, bytes: bytes@ },
        ),
        after.cache.inflight == before.cache.inflight,
        outcome.pdata_dropped == 0,
        outcome.lost@.len() == 0,
{
    crate::laws::cache::push_that_fits_drops_nothing(
        before.cache,
        kind,
        bytes@,
        outcome.pdata_dropped as int,
    );
}

/// A payload reaches the client that waits for it: with nothing cached, it is cached if it is within
/// the limits, the clients that wait are woken, and the one that comes first is sent its bytes.
pub proof fn waiting_client_gets_the_payload(
    before: ExporterView,
    payload: OtapPayload,
    may_return_payload: bool,
    decodes: bool,
    after: ExporterView,
    outcome: PdataOutcome,
    kind: Kind,
    bytes: Vec<u8>,
)
    requires
        crate::exporter::settled(before, payload, may_return_payload, decodes, after, outcome),
        before.cache.valid(),
        before.cache.items.len() == 0,
        before.cache.max_items > 0,
        bytes@.len() <= before.cache.max_total_bytes,
        !payload.holds_nothing(),
        payload.request() == Ok::<OtlpProtoBytes, String>(
            match kind {
                Kind::Logs => OtlpProtoBytes::ExportLogsRequest(bytes),
                Kind::Traces => OtlpProtoBytes::ExportTracesRequest(bytes),
            },
        ),
        !before.config.validate_otlp || decodes,
    ensures
        outcome.wake_clients,
        ({
            let item = ItemView { id: before.cache.next_id, kind, bytes: bytes@ };
            let woken = crate::client::step(
                ClientState::AwaitItem,
                after.cache,
                ClientEvent::CacheChanged,
            );
            &&& woken.action == (ActionView::SendItem {
                header: crate::client::item_header(item),
                body: bytes@,
            })
            &&& woken.next == (ClientState::Sending { id: before.cache.next_id })
        }),
{
    request_that_fits_is_cached(
        before,
        payload,
        may_return_payload,
        decodes,
        after,
        outcome,
        kind,
        bytes,
    );
}

/// A payload is counted as what came of it, under its own signal: once as consumed, and once as
/// exported or failed; what is lost to it is counted as dropped; and what is cached afterwards is
/// counted as cached. The configuration stays as it is.
pub proof fn payload_is_counted_as_it_was_answered(
    before: ExporterView,
    payload: OtapPayload,
    may_return_payload: bool,
    decodes: bool,
    after: ExporterView,
    outcome: PdataOutcome,
)
    requires
        crate::exporter::settled(before, payload, may_return_payload, decodes, after, outcome),
    ensures
        after.config == before.config,
        outcome.signal_type == payload.signal(),
        outcome.pdata_count == after.cache.items.len(),
        after.metrics == before.metrics.with_payload(
            payload.signal(),
            outcome.reply !is Nack,
            outcome.pdata_dropped,
            outcome.pdata_count,
        ),
{
}

/// What the exporter does follows from the message alone: it ends on a shutdown and reports when
/// metrics are collected, with the metrics as they stand; it answers a payload; and it ignores
/// everything else. Only a payload changes anything.
pub proof fn only_payloads_change_the_exporter(
    before: ExporterView,
    message: PipelineMessage,
    after: ExporterView,
    action: PipelineAction,
)
    requires
        crate::exporter::responds(before, message, after, action),
    ensures
        message !is PData ==> after == before,
        message is Shutdown <==> action is Terminate,
        message is CollectTelemetry <==> action is ReportMetrics,
        message is PData <==> action is Settle,
        message is Other <==> action is Ignore,
        action matches PipelineAction::Terminate(metrics) ==> metrics == before.metrics,
        action matches PipelineAction::ReportMetrics(metrics) ==> metrics == before.metrics,
{
}

/// A payload is settled by whether its own request decodes: logs as logs, traces as traces.
pub proof fn payload_is_settled_by_its_own_request(
    before: ExporterView,
    payload: OtapPayload,
    may_return_payload: bool,
    after: ExporterView,
    action: PipelineAction,
)
    requires
        crate::exporter::responds(
            before,
            PipelineMessage::PData { payload, may_return_payload },
            after,
            action,
        ),
    ensures
        action matches PipelineAction::Settle(outcome) && crate::exporter::settled(
            before,
            payload,
            may_return_payload,
            match payload.request() {
                Ok(OtlpProtoBytes::ExportLogsRequest(bytes)) => {
                    crate::payload::logs_request_decodes(bytes@)
                },
                Ok(OtlpProtoBytes::ExportTracesRequest(bytes)) => {
                    crate::payload::traces_request_decodes(bytes@)
                },
                _ => true,
            },
            after,
            outcome,
        ),
{
}

/// Upstream gets back exactly what it sent, whatever it is told, if it may want it back.
pub proof fn answered_payload_goes_back_if_wanted(
    before: ExporterView,
    payload: OtapPayload,
    after: ExporterView,
    action: PipelineAction,
)
    requires
        crate::exporter::responds(
            before,
            PipelineMessage::PData { payload, may_return_payload: true },
            after,
            action,
        ),
    ensures
        action matches PipelineAction::Settle(outcome) && outcome.returned == payload,
{
}

/// A message is taken as long as there is a number left. Once there is none, only a payload that
/// would be pushed into the cache is not: one that holds something, with a request for logs or
/// traces, which decodes where requests are validated.
pub proof fn only_a_number_can_be_missing(before: ExporterView, message: PipelineMessage)
    ensures
        before.cache.next_id < u64::MAX ==> crate::exporter::can_take_message(before, message),
        before.cache.next_id == u64::MAX ==> (crate::exporter::can_take_message(before, message)
            <==> match message {
            PipelineMessage::PData { payload, may_return_payload: _ } => {
                payload.holds_nothing() || match payload.request() {
                    Ok(OtlpProtoBytes::ExportLogsRequest(bytes)) => before.config.validate_otlp
                        && !crate::payload::logs_request_decodes(bytes@),
                    Ok(OtlpProtoBytes::ExportTracesRequest(bytes)) => before.config.validate_otlp
                        && !crate::payload::traces_request_decodes(bytes@),
                    _ => true,
                }
            },
            _ => true,
        }),
{
}

/// The numbers suffice for a payload that is not pushed into the cache, and for one that is as long
/// as one is left.
pub proof fn only_a_pushed_payload_takes_a_number(
    before: ExporterView,
    payload: OtapPayload,
    decodes: bool,
)
    ensures
        before.cache.next_id < u64::MAX ==> crate::exporter::has_number(before, payload, decodes),
        before.cache.next_id == u64::MAX ==> (crate::exporter::has_number(before, payload, decodes)
            <==> payload.holds_nothing() || payload.request() is Err || (payload.request()
            matches Ok(request) && request is ExportMetricsRequest) || (
        before.config.validate_otlp && !decodes)),
{
}

/// A valid exporter has a valid cache with the configured limits, neither below one, and counts as
/// cached what is cached.
pub proof fn valid_exporter_keeps_its_limits(exporter: ExporterView)
    requires
        exporter.valid(),
    ensures
        exporter.cache.valid(),
        exporter.config.max_items > 0 ==> exporter.cache.max_items == exporter.config.max_items,
        exporter.config.max_items == 0 ==> exporter.cache.max_items == 1,
        exporter.config.max_total_bytes > 0 ==> exporter.cache.max_total_bytes
            == exporter.config.max_total_bytes,
        exporter.config.max_total_bytes == 0 ==> exporter.cache.max_total_bytes == 1,
        exporter.metrics.exporter.pdata_count == exporter.cache.items.len(),
{
}

/// An event of a client's conversation does to the exporter's cache what it does to that cache by
/// itself, and gives the same step. An item that goes out counts as sent once; payloads are not
/// counted, nor is anything dropped; and the configuration stays as it is.
pub proof fn conversation_is_about_the_cache(
    before: ExporterView,
    state: ClientState,
    event: ClientEvent,
    after: ExporterView,
    step: ClientStep,
    due: Option<u64>,
)
    requires
        crate::exporter::converses(before, state, event, after, step, due),
    ensures
        ({
            let alone = crate::client::step(state, before.cache, event);
            &&& step.next == alone.next
            &&& step.action@ == alone.action
            &&& step.pdata_sent == alone.pdata_sent
            &&& step.wake_clients == alone.wake_clients
            &&& step.delivered == alone.delivered
            &&& after.cache == alone.cache
        }),
        after.config == before.config,
        after.metrics.pdata == before.metrics.pdata,
        after.metrics.exporter.pdata_dropped == before.metrics.exporter.pdata_dropped,
        after.metrics.exporter.pdata_count == after.cache.items.len(),
        step.action@ is SendItem && before.metrics.exporter.pdata_sent < u64::MAX
            ==> after.metrics.exporter.pdata_sent == before.metrics.exporter.pdata_sent + 1,
        step.action@ !is SendItem ==> after.metrics.exporter.pdata_sent
            == before.metrics.exporter.pdata_sent,
        before.config.ack_upstream_on_enqueue ==> due is None,
        !before.config.ack_upstream_on_enqueue ==> due == step.delivered,
{
}

/// Something that happens to an exporter.
pub enum Happening {
    Message(PipelineMessage),
    Client(ClientState, ClientEvent),
}

/// What the exporter gives for it.
pub enum Response {
    Message(PipelineAction),
    Client(ClientStep, Option<u64>),
}

/// Whether `response` is what `happening` leads to, and `after` what it makes of the exporter.
pub open spec fn leads_to(
    before: ExporterView,
    happening: Happening,
    after: ExporterView,
    response: Response,
) -> bool {
    match (happening, response) {
        (Happening::Message(message), Response::Message(action)) => {
            &&& crate::exporter::can_take_message(before, message)
            &&& crate::exporter::responds(before, message, after, action)
        },
        (Happening::Client(state, event), Response::Client(step, due)) => {
            crate::exporter::converses(before, state, event, after, step, due)
        },
        _ => false,
    }
}

/// A run of an exporter: what happened, one after the other, what the exporter gave for each, and
/// what it was before and after each.
pub struct Run {
    pub states: Seq<ExporterView>,
    pub happenings: Seq<Happening>,
    pub responses: Seq<Response>,
}

impl Run {
    /// Whether this is a run of an exporter.
    pub open spec fn valid(self) -> bool {
        &&& self.states.len() == self.happenings.len() + 1
        &&& self.responses.len() == self.happenings.len()
        &&& self.states[0].valid()
        &&& forall|i: int|
            #![trigger self.happenings[i]]
            0 <= i < self.happenings.len() ==> leads_to(
                self.states[i],
                self.happenings[i],
                self.states[i + 1],
                self.responses[i],
            )
    }

    /// The payload that came at `i`, if one did.
    pub open spec fn payload(self, i: int) -> Option<OtapPayload> {
        match self.happenings[i] {
            Happening::Message(PipelineMessage::PData { payload, may_return_payload: _ }) => Some(
                payload,
            ),
            _ => None,
        }
    }

    /// What came of the payload that came at `i`, if one did.
    pub open spec fn outcome(self, i: int) -> Option<PdataOutcome> {
        match self.responses[i] {
            Response::Message(PipelineAction::Settle(outcome)) => Some(outcome),
            _ => None,
        }
    }

    /// Whether upstream was told at `i` that a payload is acknowledged or refused: the one that
    /// came at `i`, or another whose acknowledgement waited.
    pub open spec fn notifies(self, i: int) -> bool {
        match self.responses[i] {
            Response::Message(PipelineAction::Settle(outcome)) => {
                outcome.reply is Ack || outcome.reply is Nack || outcome.lost@.len() > 0
            },
            Response::Client(_, due) => due is Some,
            _ => false,
        }
    }

    /// Where, before `n`, payloads came, in their order.
    pub open spec fn arrivals(self, n: nat) -> Seq<int>
        decreases n,
    {
        if n == 0 {
            Seq::empty()
        } else {
            let earlier = self.arrivals((n - 1) as nat);
            if self.payload(n - 1) is Some {
                earlier.push(n - 1)
            } else {
                earlier
            }
        }
    }

    /// Where, before `n`, upstream was told something, in their order.
    pub open spec fn notifications(self, n: nat) -> Seq<int>
        decreases n,
    {
        if n == 0 {
            Seq::empty()
        } else {
            let earlier = self.notifications((n - 1) as nat);
            if self.notifies(n - 1) {
                earlier.push(n - 1)
            } else {
                earlier
            }
        }
    }

    /// How many payloads of `signal` came before `n`.
    pub open spec fn consumed(self, n: nat, signal: SignalType) -> nat
        decreases n,
    {
        if n == 0 {
            0
        } else {
            self.consumed((n - 1) as nat, signal) + match self.payload(n - 1) {
                Some(payload) if payload.signal() == signal => 1nat,
                _ => 0nat,
            }
        }
    }

    /// How many payloads of `signal` were acknowledged on arrival before `n`.
    pub open spec fn acked(self, n: nat, signal: SignalType) -> nat
        decreases n,
    {
        if n == 0 {
            0
        } else {
            self.acked((n - 1) as nat, signal) + match self.outcome(n - 1) {
                Some(outcome) if outcome.signal_type == signal && outcome.reply is Ack => 1nat,
                _ => 0nat,
            }
        }
    }

    /// How many payloads of `signal` were refused on arrival before `n`.
    pub open spec fn nacked(self, n: nat, signal: SignalType) -> nat
        decreases n,
    {
        if n == 0 {
            0
        } else {
            self.nacked((n - 1) as nat, signal) + match self.outcome(n - 1) {
                Some(outcome) if outcome.signal_type == signal && outcome.reply is Nack => 1nat,
                _ => 0nat,
            }
        }
    }

    /// How many items went out to clients before `n`.
    pub open spec fn handed_out(self, n: nat) -> nat
        decreases n,
    {
        if n == 0 {
            0
        } else {
            self.handed_out((n - 1) as nat) + match self.responses[n - 1] {
                Response::Client(step, _) if step.action@ is SendItem => 1nat,
                _ => 0nat,
            }
        }
    }

    /// The items, by number, whose payloads' acknowledgement was put off before `n`.
    pub open spec fn deferred(self, n: nat) -> Seq<u64>
        decreases n,
    {
        if n == 0 {
            Seq::empty()
        } else {
            let earlier = self.deferred((n - 1) as nat);
            match self.outcome(n - 1) {
                Some(outcome) => match outcome.reply {
                    UpstreamReply::AckAfterDelivery { id } => earlier.push(id),
                    _ => earlier,
                },
                None => earlier,
            }
        }
    }

    /// The items, by number, whose payloads were acknowledged after delivery before `n`.
    pub open spec fn due(self, n: nat) -> Seq<u64>
        decreases n,
    {
        if n == 0 {
            Seq::empty()
        } else {
            let earlier = self.due((n - 1) as nat);
            match self.responses[n - 1] {
                Response::Client(_, Some(id)) => earlier.push(id),
                _ => earlier,
            }
        }
    }

    /// The items, by number, whose payloads were refused before `n` because they were lost.
    pub open spec fn refused(self, n: nat) -> Seq<u64>
        decreases n,
    {
        if n == 0 {
            Seq::empty()
        } else {
            let earlier = self.refused((n - 1) as nat);
            match self.outcome(n - 1) {
                Some(outcome) => earlier + outcome.lost@,
                None => earlier,
            }
        }
    }

    /// What became of the items before `n`.
    pub open spec fn ledger(self, n: nat) -> Ledger
        decreases n,
    {
        if n == 0 {
            Ledger::opened(self.states[0].cache)
        } else {
            let earlier = self.ledger((n - 1) as nat);
            let standing = Ledger { cache: self.states[n as int].cache, ..earlier };
            match (self.happenings[n - 1], self.responses[n - 1]) {
                (
                    Happening::Message(
                        PipelineMessage::PData { payload, may_return_payload: _ },
                    ),
                    Response::Message(PipelineAction::Settle(outcome)),
                ) => match crate::exporter::admission(
                    payload,
                    self.states[n - 1].config.validate_otlp,
                    crate::payload::request_decodes(payload),
                ) {
                    Admission::Item(kind, bytes) => earlier.with_push(
                        kind,
                        bytes,
                        outcome.pdata_dropped as int,
                    ),
                    _ => standing,
                },
                (_, Response::Client(step, _)) => match step.delivered {
                    Some(id) => earlier.with_ack(id),
                    None => standing,
                },
                _ => standing,
            }
        }
    }
}

/// Throughout a run the exporter stays valid and keeps its configuration.
pub proof fn runs_keep_exporter_valid(run: Run, n: nat)
    requires
        run.valid(),
        n <= run.happenings.len(),
    ensures
        run.states[n as int].valid(),
        run.states[n as int].config == run.states[0].config,
    decreases n,
{
    if n > 0 {
        let i = n - 1;
        runs_keep_exporter_valid(run, i as nat);
        let _ = run.happenings[i];
        let before = run.states[i];
        match run.happenings[i] {
            Happening::Message(PipelineMessage::PData { payload, may_return_payload: _ }) => {
                match crate::exporter::admission(
                    payload,
                    before.config.validate_otlp,
                    crate::payload::request_decodes(payload),
                ) {
                    Admission::Item(kind, bytes) => {
                        let dropped = run.outcome(i)->0.pdata_dropped;
                        crate::laws::cache::operations_keep_cache_valid(
                            before.cache,
                            kind,
                            bytes,
                            dropped as int,
                            0,
                        );
                    },
                    _ => {},
                }
            },
            Happening::Client(state, event) => {
                crate::laws::client::steps_keep_cache_valid(state, before.cache, event);
            },
            _ => {},
        }
    }
}

/// Where upstream is acknowledged on enqueue, it is told of every payload exactly once: when it
/// comes, and so in the order in which payloads come. Nothing else makes the exporter tell
/// upstream anything.
pub proof fn every_payload_is_answered_in_order(run: Run, n: nat)
    requires
        run.valid(),
        run.states[0].config.ack_upstream_on_enqueue,
        n <= run.happenings.len(),
    ensures
        run.notifications(n) == run.arrivals(n),
        forall|i: int|
            0 <= i < n ==> (#[trigger] run.outcome(i) matches Some(outcome) ==> (outcome.reply is Ack
                || outcome.reply is Nack) && outcome.lost@.len() == 0),
    decreases n,
{
    if n > 0 {
        let i = n - 1;
        every_payload_is_answered_in_order(run, i as nat);
        runs_keep_exporter_valid(run, i as nat);
        let _ = run.happenings[i];
    }
}

/// Every payload that comes is answered, and the reply carries the payload itself if upstream may
/// want it back, and an empty one of its signal if not.
pub proof fn replies_return_their_own_payload(run: Run, i: int)
    requires
        run.valid(),
        0 <= i < run.happenings.len(),
    ensures
        run.payload(i) is Some <==> run.outcome(i) is Some,
        run.happenings[i] matches Happening::Message(
            PipelineMessage::PData { payload, may_return_payload },
        ) ==> {
            let returned = run.outcome(i)->0.returned;
            &&& may_return_payload ==> returned == payload
            &&& !may_return_payload ==> returned.holds_nothing() && returned.signal()
                == payload.signal()
        },
{
    let _ = run.happenings[i];
}

/// The metrics of a run that starts with none: for each signal, what was consumed is what came,
/// and is exported or failed. Where upstream is acknowledged on enqueue, what is exported is what
/// was acknowledged, and what failed is what was refused. What was sent is what was handed to
/// clients, and what is counted as cached is cached.
pub proof fn metrics_count_what_happened(run: Run, n: nat, signal: SignalType)
    requires
        run.valid(),
        run.states[0].metrics == Metrics::zero(),
        n <= run.happenings.len(),
        n <= u64::MAX,
    ensures
        ({
            let metrics = run.states[n as int].metrics;
            let counts = metrics.pdata.signal(signal);
            &&& counts.consumed == run.consumed(n, signal)
            &&& counts.consumed == counts.exported + counts.failed
            &&& counts.failed == run.nacked(n, signal)
            &&& run.states[0].config.ack_upstream_on_enqueue ==> counts.exported == run.acked(
                n,
                signal,
            )
            &&& metrics.exporter.pdata_sent == run.handed_out(n)
            &&& metrics.exporter.pdata_count == run.states[n as int].cache.items.len()
        }),
{
    counts_follow_the_run(run, n, signal);
    runs_keep_exporter_valid(run, n);
}

/// The counters of a run, together with bounds that keep them from reaching their limit.
proof fn counts_follow_the_run(run: Run, n: nat, signal: SignalType)
    requires
        run.valid(),
        run.states[0].metrics == Metrics::zero(),
        n <= run.happenings.len(),
        n <= u64::MAX,
    ensures
        ({
            let metrics = run.states[n as int].metrics;
            let counts = metrics.pdata.signal(signal);
            &&& counts.consumed == run.consumed(n, signal)
            &&& counts.consumed == counts.exported + counts.failed
            &&& counts.failed == run.nacked(n, signal)
            &&& run.states[0].config.ack_upstream_on_enqueue ==> counts.exported == run.acked(
                n,
                signal,
            )
            &&& metrics.exporter.pdata_sent == run.handed_out(n)
            &&& run.consumed(n, signal) <= n
            &&& run.handed_out(n) <= n
        }),
    decreases n,
{
    if n > 0 {
        let i = n - 1;
        counts_follow_the_run(run, i as nat, signal);
        runs_keep_exporter_valid(run, i as nat);
        let _ = run.happenings[i];
    }
}

/// The ledger of a run is about the exporter's cache, and adds up. The metric `pdata_dropped` of a
/// run that starts with none, and with an empty cache, is the number of items lost.
pub proof fn every_run_is_balanced(run: Run, n: nat)
    requires
        run.valid(),
        n <= run.happenings.len(),
    ensures
        run.ledger(n).start == run.states[0].cache,
        run.ledger(n).cache == run.states[n as int].cache,
        run.ledger(n).balanced(),
        run.ledger(n).cache.items.len() + run.ledger(n).delivered.len() + run.ledger(n).lost.len()
            == run.ledger(n).start.items.len() + run.ledger(n).cache.next_id - run.ledger(
            n,
        ).start.next_id,
        run.states[0].metrics == Metrics::zero() && run.states[0].cache.items.len() == 0
            ==> run.states[n as int].metrics.exporter.pdata_dropped == run.ledger(n).lost.len(),
    decreases n,
{
    if n == 0 {
        crate::laws::cache::opened_ledger_is_balanced(run.states[0].cache);
    } else {
        let i = n - 1;
        every_run_is_balanced(run, i as nat);
        runs_keep_exporter_valid(run, i as nat);
        runs_keep_exporter_valid(run, n);
        let _ = run.happenings[i];
        let earlier = run.ledger(i as nat);
        let before = run.states[i];
        let after = run.states[n as int];
        match run.happenings[i] {
            Happening::Message(PipelineMessage::PData { payload, may_return_payload: _ }) => {
                match crate::exporter::admission(
                    payload,
                    before.config.validate_otlp,
                    crate::payload::request_decodes(payload),
                ) {
                    Admission::Item(kind, bytes) => {
                        let dropped = run.outcome(i)->0.pdata_dropped as int;
                        crate::laws::cache::push_keeps_ledger_balanced(
                            earlier,
                            kind,
                            bytes,
                            dropped,
                        );
                    },
                    _ => {
                        crate::laws::cache::standing_items_keep_ledger_balanced(
                            earlier,
                            after.cache,
                        );
                    },
                }
            },
            Happening::Client(state, event) => {
                let step = crate::client::step(state, before.cache, event);
                crate::laws::client::only_an_ack_removes_an_item(state, before.cache, event);
                match step.delivered {
                    Some(id) => {
                        crate::laws::cache::ack_keeps_ledger_balanced(earlier, id);
                    },
                    None => {
                        crate::laws::cache::standing_items_keep_ledger_balanced(
                            earlier,
                            after.cache,
                        );
                    },
                }
            },
            _ => {
                crate::laws::cache::standing_items_keep_ledger_balanced(earlier, after.cache);
            },
        }
    }
}

/// Where upstream is acknowledged after delivery, what it is told follows the ledger: payloads are
/// put off as their items are numbered, acknowledged as these are delivered, and refused as these
/// are lost.
proof fn notices_follow_the_ledger(run: Run, n: nat)
    requires
        run.valid(),
        !run.states[0].config.ack_upstream_on_enqueue,
        n <= run.happenings.len(),
    ensures
        run.due(n) == run.ledger(n).delivered,
        run.refused(n) == run.ledger(n).lost,
        run.deferred(n).len() == run.states[n as int].cache.next_id - run.states[0].cache.next_id,
        forall|k: int|
            0 <= k < run.deferred(n).len() ==> #[trigger] run.deferred(n)[k]
                == run.states[0].cache.next_id + k,
    decreases n,
{
    if n > 0 {
        let i = n - 1;
        notices_follow_the_ledger(run, i as nat);
        every_run_is_balanced(run, i as nat);
        runs_keep_exporter_valid(run, i as nat);
        let _ = run.happenings[i];
        match run.happenings[i] {
            Happening::Message(message) => {
                if let Some(outcome) = run.outcome(i) {
                    assert(outcome.lost@.len() == 0 ==> run.refused(i as nat) + outcome.lost@
                        =~= run.refused(i as nat));
                }
            },
            Happening::Client(state, event) => {
                crate::laws::client::only_an_ack_removes_an_item(
                    state,
                    run.states[i].cache,
                    event,
                );
            },
        }
    }
}

/// Where upstream is acknowledged after delivery, every payload that was put off is at any time
/// exactly one of these: still cached; acknowledged, after a client acknowledged its item; or
/// refused, since its item was lost. It is acknowledged or refused once at most, and
/// acknowledgements come in the order in which the payloads came.
pub proof fn deferred_payload_is_answered_once(run: Run, n: nat)
    requires
        run.valid(),
        run.states[0].cache.items.len() == 0,
        !run.states[0].config.ack_upstream_on_enqueue,
        n <= run.happenings.len(),
    ensures
        forall|id: u64| #[trigger]
            run.deferred(n).contains(id) <==> run.states[n as int].cache.holds(id) || run.due(
                n,
            ).contains(id) || run.refused(n).contains(id),
        forall|id: u64| #[trigger]
            run.due(n).contains(id) ==> !run.states[n as int].cache.holds(id),
        forall|id: u64| #[trigger]
            run.refused(n).contains(id) ==> !run.due(n).contains(id)
                && !run.states[n as int].cache.holds(id),
        forall|i: int, j: int|
            0 <= i < j < run.due(n).len() ==> #[trigger] run.due(n)[i] < #[trigger] run.due(n)[j],
        run.refused(n).no_duplicates(),
        run.deferred(n).no_duplicates(),
{
    every_run_is_balanced(run, n);
    notices_follow_the_ledger(run, n);
    let ledger = run.ledger(n);
    let cache = run.states[n as int].cache;
    let first = run.states[0].cache.next_id;
    assert forall|id: u64| #[trigger] run.deferred(n).contains(id) <==> ledger.known(id) by {
        if ledger.known(id) {
            assert(run.deferred(n)[id - first] == id);
        }
    }
    assert forall|id: u64| #[trigger] run.due(n).contains(id) implies !cache.holds(id) by {
        let k = choose|k: int| 0 <= k < run.due(n).len() && run.due(n)[k] == id;
        assert forall|j: int| 0 <= j < cache.items.len() implies (#[trigger] cache.items[j]).id
            != id by {
            assert(ledger.delivered[k] < ledger.cache.items[j].id);
        }
    }
}

/// An acknowledgement upstream is due only in the step in which a client acknowledges the item, and
/// only if it was put off.
pub proof fn ack_is_due_on_delivery_only(
    before: ExporterView,
    state: ClientState,
    event: ClientEvent,
    after: ExporterView,
    step: ClientStep,
    due: Option<u64>,
)
    requires
        crate::exporter::converses(before, state, event, after, step, due),
    ensures
        due matches Some(id) ==> {
            &&& !before.config.ack_upstream_on_enqueue
            &&& state == (ClientState::AwaitAck { id })
            &&& event matches ClientEvent::Line(line) && crate::client::is_ack(line@, id)
            &&& before.cache.can_ack(id)
            &&& after.cache.items == before.cache.items.drop_first()
        },
        !before.config.ack_upstream_on_enqueue ==> due == step.delivered,
{
    crate::laws::client::only_an_ack_removes_an_item(state, before.cache, event);
}

} // verus!
