//! The exporter: what it does with each message of the pipeline and each event of a client.
use vstd::prelude::*;
use vstd::string::StringExecFns;

use crate::cache::{CacheView, FifoCache, Kind, Pushed};
use crate::client::{handle_client, ClientEvent, ClientState, ClientStep};
use crate::config::{Config, ConfigError, PartialConfig};
use crate::metrics::Metrics;
use crate::payload::{OtapPayload, OtlpProtoBytes, SignalType};

verus! {

/// A message from the pipeline.
#[derive(Debug)]
pub enum PipelineMessage {
    /// The pipeline shuts down.
    Shutdown,
    /// The pipeline collects the metrics.
    CollectTelemetry,
    /// A payload to export. `may_return_payload` tells whether upstream may want it back.
    PData { payload: OtapPayload, may_return_payload: bool },
    /// Any other message.
    Other,
}

/// What upstream is told of a payload.
#[derive(Debug)]
pub enum UpstreamReply {
    /// The payload is acknowledged. It holds nothing, or it was offered to the cache, which may
    /// have turned it away for want of room.
    Ack,
    /// The payload was offered to the cache as item `id` and is acknowledged once a client
    /// acknowledges that item. If the cache turned it away, `id` is among the lost items of the
    /// same outcome.
    AckAfterDelivery { id: u64 },
    /// The payload is refused.
    Nack { reason: String },
}

/// What came of a payload.
#[derive(Debug)]
pub struct PdataOutcome {
    /// The signal that it counts under.
    pub signal_type: SignalType,
    /// Whether it counts as exported, else as failed.
    pub exported: bool,
    /// How many items were lost to it.
    pub pdata_dropped: u64,
    /// How many items are cached now.
    pub pdata_count: u64,
    /// Whether clients that wait for an item are to be woken: they are for every payload that is
    /// offered to the cache, also for one that it turns away.
    pub wake_clients: bool,
    /// What upstream is told of the payload.
    pub reply: UpstreamReply,
    /// The payload that goes back with the reply.
    pub returned: OtapPayload,
    /// The items, this one among them if it was turned away, that no client can acknowledge any
    /// more although the acknowledgement of their payloads waits for one. These payloads are
    /// refused, for [`loss_reason`].
    pub lost: Vec<u64>,
}

/// What the exporter does about a message.
#[derive(Debug)]
pub enum PipelineAction {
    /// End, with this last snapshot of the metrics.
    Terminate(Metrics),
    /// Report the metrics.
    ReportMetrics(Metrics),
    /// Reply upstream.
    Settle(PdataOutcome),
    /// Nothing.
    Ignore,
}

/// The reason for which a payload is refused whose item was dropped before its delivery.
pub open spec fn dropped_before_delivery() -> Seq<char> {
    "dropped from the cache before delivery"@
}

/// The reason for which a payload is refused whose item was dropped before its delivery.
pub fn loss_reason() -> (reason: &'static str)
    ensures
        reason@ == dropped_before_delivery(),
{
    "dropped from the cache before delivery"
}

/// The reason for which a request of the given kind that does not decode is refused.
pub open spec fn decode_failure(kind: Kind) -> Seq<char> {
    match kind {
        Kind::Logs => "Failed to decode logs request"@,
        Kind::Traces => "Failed to decode traces request"@,
    }
}

/// The item that a payload becomes, or the reason why it becomes none.
pub open spec fn otlp_item(payload: OtapPayload) -> Result<(Kind, Seq<u8>), Seq<char>> {
    if payload.holds_nothing() {
        Err("empty payload"@)
    } else {
        match payload.request() {
            Err(reason) => Err("Failed OTAP->OTLP conversion: "@ + reason@),
            Ok(OtlpProtoBytes::ExportLogsRequest(bytes)) => Ok((Kind::Logs, bytes@)),
            Ok(OtlpProtoBytes::ExportTracesRequest(bytes)) => Ok((Kind::Traces, bytes@)),
            Ok(OtlpProtoBytes::ExportMetricsRequest(_)) => Err(
                "req-response exporter does not support metrics"@,
            ),
        }
    }
}

/// What is to become of a payload.
pub enum Admission {
    /// It holds nothing and is done with.
    Nothing,
    /// It is offered to the cache as an item, which takes it if it can have room for it.
    Item(Kind, Seq<u8>),
    /// It is refused, for a reason.
    Refusal(Seq<char>),
}

/// What is to become of `payload`, where requests are validated or not, and its request decodes
/// or not.
pub open spec fn admission(payload: OtapPayload, validate: bool, decodes: bool) -> Admission {
    if payload.holds_nothing() {
        Admission::Nothing
    } else {
        match otlp_item(payload) {
            Err(reason) => Admission::Refusal(reason),
            Ok((kind, bytes)) => if validate && !decodes {
                Admission::Refusal(decode_failure(kind))
            } else {
                Admission::Item(kind, bytes)
            },
        }
    }
}

/// A [`ReqResponseExporter`] as a mathematical value.
pub struct ExporterView {
    pub config: Config,
    pub cache: CacheView,
    pub metrics: Metrics,
}

/// Whether `outcome` is what comes of `payload`, and `after` what it makes of the exporter.
pub open spec fn settled(
    before: ExporterView,
    payload: OtapPayload,
    may_return_payload: bool,
    decodes: bool,
    after: ExporterView,
    outcome: PdataOutcome,
) -> bool {
    &&& after.config == before.config
    &&& after.metrics == before.metrics.with_payload(
        outcome.signal_type,
        outcome.exported,
        outcome.pdata_dropped,
        outcome.pdata_count,
    )
    &&& outcome.pdata_count == after.cache.items.len()
    &&& outcome.signal_type == payload.signal()
    &&& if may_return_payload {
        outcome.returned == payload
    } else {
        outcome.returned.signal() == payload.signal() && outcome.returned.holds_nothing()
            && outcome.returned is OtlpBytes
    }
    &&& match admission(payload, before.config.validate_otlp, decodes) {
        Admission::Nothing => {
            &&& after.cache == before.cache
            &&& outcome.exported
            &&& outcome.pdata_dropped == 0
            &&& outcome.lost@ == Seq::<u64>::empty()
            &&& !outcome.wake_clients
            &&& outcome.reply is Ack
        },
        Admission::Refusal(reason) => {
            &&& after.cache == before.cache
            &&& !outcome.exported
            &&& outcome.pdata_dropped == 0
            &&& outcome.lost@ == Seq::<u64>::empty()
            &&& !outcome.wake_clients
            &&& outcome.reply matches UpstreamReply::Nack { reason: text } && text@ == reason
        },
        Admission::Item(kind, bytes) => {
            let dropped = outcome.pdata_dropped as int;
            &&& before.cache.drops_needed(bytes.len(), dropped)
            &&& after.cache == before.cache.pushed(kind, bytes, dropped)
            &&& outcome.exported
            &&& outcome.lost@ == if before.config.ack_upstream_on_enqueue {
                Seq::empty()
            } else {
                before.cache.lost_ids(bytes.len(), dropped)
            }
            &&& outcome.wake_clients
            &&& outcome.reply == if before.config.ack_upstream_on_enqueue {
                UpstreamReply::Ack
            } else {
                UpstreamReply::AckAfterDelivery { id: before.cache.next_id }
            }
        },
    }
}

/// Whether the exporter has a number left for `payload`, if it is offered to the cache.
pub open spec fn has_number(before: ExporterView, payload: OtapPayload, decodes: bool) -> bool {
    admission(payload, before.config.validate_otlp, decodes) is Item ==> before.cache.next_id
        < u64::MAX
}

/// Whether the exporter has a number left for the payload that `message` brings, if it brings one
/// and that is offered to the cache.
pub open spec fn can_take_message(before: ExporterView, message: PipelineMessage) -> bool {
    match message {
        PipelineMessage::PData { payload, may_return_payload: _ } => has_number(
            before,
            payload,
            crate::payload::request_decodes(payload),
        ),
        _ => true,
    }
}

/// Whether `action` is what the exporter does about `message`, and `after` what that makes of it.
pub open spec fn responds(
    before: ExporterView,
    message: PipelineMessage,
    after: ExporterView,
    action: PipelineAction,
) -> bool {
    match message {
        PipelineMessage::Shutdown => {
            &&& after == before
            &&& action == PipelineAction::Terminate(before.metrics)
        },
        PipelineMessage::CollectTelemetry => {
            &&& after == before
            &&& action == PipelineAction::ReportMetrics(before.metrics)
        },
        PipelineMessage::PData { payload, may_return_payload } => {
            &&& action is Settle
            &&& settled(
                before,
                payload,
                may_return_payload,
                crate::payload::request_decodes(payload),
                after,
                action->Settle_0,
            )
        },
        PipelineMessage::Other => after == before && action is Ignore,
    }
}

/// The item whose payload upstream is to be acknowledged now that a client has acknowledged the
/// item `delivered`.
pub open spec fn ack_due(config: Config, delivered: Option<u64>) -> Option<u64> {
    if config.ack_upstream_on_enqueue {
        None
    } else {
        delivered
    }
}

/// Whether `step`, and the upstream acknowledgement `due`, are what an event of a client's
/// conversation leads to, and `after` what it makes of the exporter.
pub open spec fn converses(
    before: ExporterView,
    state: ClientState,
    event: ClientEvent,
    after: ExporterView,
    step: ClientStep,
    due: Option<u64>,
) -> bool {
    &&& after.config == before.config
    &&& step.with(after.cache) == crate::client::step(state, before.cache, event)
    &&& after.metrics == before.metrics.with_delivery(step.pdata_sent, step.pdata_count)
    &&& due == ack_due(before.config, step.delivered)
}

/// req-response exporter that sends OTAP data to requesting applications
#[derive(Debug)]
pub struct ReqResponseExporter {
    config: Config,
    cache: FifoCache,
    metrics: Metrics,
}

impl View for ReqResponseExporter {
    type V = ExporterView;

    closed spec fn view(&self) -> ExporterView {
        ExporterView { config: self.config, cache: self.cache@, metrics: self.metrics }
    }
}

impl ExporterView {
    /// What holds of every exporter: its cache is valid and has the configured limits, and the
    /// metric `pdata_count` is the number of cached items.
    pub open spec fn valid(self) -> bool {
        &&& self.cache.valid()
        &&& self.cache.max_items == self.config.item_limit()
        &&& self.cache.max_total_bytes == self.config.byte_limit()
        &&& self.metrics.exporter.pdata_count == self.cache.items.len()
    }
}

impl ReqResponseExporter {
    /// Whether the exporter is well formed.
    pub open spec fn wf(&self) -> bool {
        self@.valid() && self.counted()
    }

    /// Whether the byte count of the cache agrees with its items.
    pub closed spec fn counted(&self) -> bool {
        self.cache.counted()
    }

    /// Constructs a request/response exporter, with an empty cache, from what parsing the user's
    /// configuration gave: the settings that the user wrote, or the parser's error.
    pub fn from_config(parsed: Result<PartialConfig, String>) -> (exporter: Result<
        Self,
        ConfigError,
    >)
        ensures
            exporter is Ok == parsed is Ok,
            parsed matches Ok(partial) ==> {
                let made = exporter->Ok_0;
                &&& made.wf()
                &&& made@.config.follows(partial)
                &&& made@.cache.items == Seq::<crate::cache::ItemView>::empty()
                &&& made@.cache.inflight is None
                &&& made@.cache.next_id == 1
                &&& made@.metrics == Metrics::zero()
            },
            parsed matches Err(error) ==> exporter->Err_0 == (ConfigError::InvalidUserConfig {
                error,
            }),
    {
        match parsed {
            Ok(partial) => {
                let config: Config = Config::from_partial(partial);
                let max_items: usize = if config.max_items < 1 {
                    1
                } else {
                    config.max_items
                };
                let max_total_bytes: usize = if config.max_total_bytes < 1 {
                    1
                } else {
                    config.max_total_bytes
                };
                let cache: FifoCache = FifoCache::new(max_items, max_total_bytes);
                Ok(ReqResponseExporter { config, cache, metrics: Metrics::new() })
            },
            Err(error) => Err(ConfigError::InvalidUserConfig { error }),
        }
    }

    /// Returns the immutable configuration used by this request/response exporter.
    ///
    /// This reflects the validated configuration provided at construction time
    #[must_use]
    pub fn config(&self) -> (config: &Config)
        ensures
            *config == self@.config,
    {
        &self.config
    }

    /// Turns a payload into the item to cache: its kind and the bytes of its OTLP request.
    pub fn payload_to_otlp_item(payload: &OtapPayload) -> (item: Result<(Kind, Vec<u8>), String>)
        ensures
            match otlp_item(*payload) {
                Ok((kind, bytes)) => item matches Ok(got) && got.0 == kind && got.1@ == bytes,
                Err(reason) => item matches Err(text) && text@ == reason,
            },
            !payload.holds_nothing() ==> match payload.request() {
                Ok(OtlpProtoBytes::ExportLogsRequest(bytes)) => item matches Ok(got) && got.0
                    == Kind::Logs && got.1@ == bytes@,
                Ok(OtlpProtoBytes::ExportTracesRequest(bytes)) => item matches Ok(got) && got.0
                    == Kind::Traces && got.1@ == bytes@,
                _ => item is Err,
            },
    {
        if payload.is_empty() {
            return Err("empty payload".to_string());
        }
        let otlp_bytes: &OtlpProtoBytes = match payload {
            OtapPayload::OtapArrowRecords(arrow) => match &arrow.otlp {
                Ok(otlp) => otlp,
                Err(reason) => {
                    let mut text: String = "Failed OTAP->OTLP conversion: ".to_string();
                    text.append(reason.as_str());
                    return Err(text);
                },
            },
            OtapPayload::OtlpBytes(otlp) => otlp,
        };
        match otlp_bytes {
            OtlpProtoBytes::ExportLogsRequest(bytes) => {
                let copy: Vec<u8> = bytes.clone();
                assert(copy@ =~= bytes@);
                Ok((Kind::Logs, copy))
            },
            OtlpProtoBytes::ExportTracesRequest(bytes) => {
                let copy: Vec<u8> = bytes.clone();
                assert(copy@ =~= bytes@);
                Ok((Kind::Traces, copy))
            },
            OtlpProtoBytes::ExportMetricsRequest(_) => Err(
                "req-response exporter does not support metrics".to_string(),
            ),
        }
    }

    /// Offers to the cache, refuses or passes over a payload whose request decodes or not.
    pub fn settle(
        &mut self,
        payload: OtapPayload,
        may_return_payload: bool,
        decodes: bool,
    ) -> (outcome: PdataOutcome)
        requires
            old(self).wf(),
            has_number(old(self)@, payload, decodes),
        ensures
            final(self).wf(),
            settled(old(self)@, payload, may_return_payload, decodes, final(self)@, outcome),
            may_return_payload ==> outcome.returned == payload,
    {
        let signal_type: SignalType = payload.signal_type();
        let empty: bool = payload.is_empty();
        let item: Result<(Kind, Vec<u8>), String> = Self::payload_to_otlp_item(&payload);
        let returned: OtapPayload = if may_return_payload {
            payload
        } else {
            OtapPayload::empty(signal_type)
        };
        let mut outcome: PdataOutcome = PdataOutcome {
            signal_type,
            exported: true,
            pdata_dropped: 0,
            pdata_count: 0,
            wake_clients: false,
            reply: UpstreamReply::Ack,
            returned,
            lost: Vec::new(),
        };
        if !empty {
            match item {
                Ok((kind, bytes)) => {
                    if self.config.validate_otlp && !decodes {
                        outcome.exported = false;
                        outcome.reply = UpstreamReply::Nack {
                            reason: match kind {
                                Kind::Logs => "Failed to decode logs request".to_string(),
                                Kind::Traces => "Failed to decode traces request".to_string(),
                            },
                        };
                    } else {
                        let pushed: Pushed = self.cache.push_item(kind, bytes);
                        outcome.pdata_dropped = pushed.lost.len() as u64;
                        outcome.wake_clients = true;
                        if !self.config.ack_upstream_on_enqueue {
                            outcome.reply = UpstreamReply::AckAfterDelivery { id: pushed.id };
                            outcome.lost = pushed.lost;
                        }
                    }
                },
                Err(reason) => {
                    outcome.exported = false;
                    outcome.reply = UpstreamReply::Nack { reason };
                },
            }
        }
        outcome.pdata_count = self.cache.len() as u64;
        self.metrics.count_payload(
            signal_type,
            outcome.exported,
            outcome.pdata_dropped,
            outcome.pdata_count,
        );
        outcome
    }

    /// Takes a message of the pipeline and tells what to do about it.
    pub fn on_message(&mut self, message: PipelineMessage) -> (action: PipelineAction)
        requires
            old(self).wf(),
            can_take_message(old(self)@, message),
        ensures
            final(self).wf(),
            responds(old(self)@, message, final(self)@, action),
            message matches PipelineMessage::PData { payload, may_return_payload } ==> (
            may_return_payload ==> action->Settle_0.returned == payload),
    {
        match message {
            PipelineMessage::Shutdown => PipelineAction::Terminate(self.metrics),
            PipelineMessage::CollectTelemetry => PipelineAction::ReportMetrics(self.metrics),
            PipelineMessage::PData { payload, may_return_payload } => {
                let decodes: bool = !self.config.validate_otlp || payload.decodes();
                PipelineAction::Settle(self.settle(payload, may_return_payload, decodes))
            },
            PipelineMessage::Other => PipelineAction::Ignore,
        }
    }

    /// Takes a message of the pipeline and tells what to do about it, or nothing if it brings a
    /// payload for the cache and the numbers for items are used up.
    pub fn offer(&mut self, message: PipelineMessage) -> (action: Option<PipelineAction>)
        requires
            old(self).wf(),
        ensures
            final(self).wf(),
            action is None <==> !can_take_message(old(self)@, message),
            action is None ==> final(self)@ == old(self)@,
            action matches Some(taken) ==> responds(old(self)@, message, final(self)@, taken),
    {
        if !self.cache.can_number() {
            if let PipelineMessage::PData { payload, may_return_payload: _ } = &message {
                let item: Result<(Kind, Vec<u8>), String> = Self::payload_to_otlp_item(payload);
                if item.is_ok() && (!self.config.validate_otlp || payload.decodes()) {
                    return None;
                }
            }
        }
        Some(self.on_message(message))
    }

    /// Takes an event of a client's conversation that has come as far as `state`. Gives the step
    /// that it makes, and the item whose payload upstream is to be acknowledged, if there is one.
    pub fn on_client(&mut self, state: ClientState, event: ClientEvent) -> (result: (
        ClientStep,
        Option<u64>,
    ))
        requires
            old(self).wf(),
        ensures
            final(self).wf(),
            converses(old(self)@, state, event, final(self)@, result.0, result.1),
    {
        let step: ClientStep = handle_client(state, &mut self.cache, event);
        self.metrics.count_delivery(step.pdata_sent, step.pdata_count);
        let due: Option<u64> = if self.config.ack_upstream_on_enqueue {
            None
        } else {
            step.delivered
        };
        (step, due)
    }
}

} // verus!
