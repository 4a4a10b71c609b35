use req_response_exporter::client::{ClientAction, ClientEvent, ClientState};
use req_response_exporter::config::PartialConfig;
use req_response_exporter::exporter::{
    loss_reason, PdataOutcome, PipelineAction, PipelineMessage, ReqResponseExporter,
    UpstreamReply,
};
use req_response_exporter::cache::Kind;
use req_response_exporter::metrics::{Metrics, SignalMetrics};
use req_response_exporter::payload::{ArrowRecords, OtapPayload, OtlpProtoBytes, SignalType};

// An empty `ResourceLogs` or `ResourceSpans` as the only element of field 1.
const VALID: [u8; 2] = [0x0a, 0x00];

fn test_config() -> PartialConfig {
    PartialConfig {
        listen_addr: Some("127.0.0.1:0".to_string()),
        max_items: Some(1000),
        max_total_bytes: Some(1_048_576),
        ack_timeout_ms: Some(50),
        ack_upstream_on_enqueue: Some(true),
        validate_otlp: Some(true),
    }
}

fn exporter(config: PartialConfig) -> ReqResponseExporter {
    ReqResponseExporter::from_config(Ok(config)).unwrap()
}

fn logs(bytes: &[u8]) -> OtapPayload {
    OtapPayload::OtlpBytes(OtlpProtoBytes::ExportLogsRequest(bytes.to_vec()))
}

fn traces(bytes: &[u8]) -> OtapPayload {
    OtapPayload::OtlpBytes(OtlpProtoBytes::ExportTracesRequest(bytes.to_vec()))
}

fn send(exporter: &mut ReqResponseExporter, payload: OtapPayload) -> PdataOutcome {
    send_returning(exporter, payload, false)
}

fn send_returning(
    exporter: &mut ReqResponseExporter,
    payload: OtapPayload,
    may_return_payload: bool,
) -> PdataOutcome {
    match exporter.offer(PipelineMessage::PData { payload, may_return_payload }) {
        Some(PipelineAction::Settle(outcome)) => outcome,
        other => panic!("expected an outcome, got {other:?}"),
    }
}

fn shut_down(exporter: &mut ReqResponseExporter) -> Metrics {
    match exporter.on_message(PipelineMessage::Shutdown) {
        PipelineAction::Terminate(metrics) => metrics,
        other => panic!("expected the end, got {other:?}"),
    }
}

fn nack_reason(outcome: &PdataOutcome) -> &str {
    match &outcome.reply {
        UpstreamReply::Nack { reason } => reason,
        other => panic!("expected a NACK, got {other:?}"),
    }
}

fn get(exporter: &mut ReqResponseExporter) -> (String, Vec<u8>) {
    let event = ClientEvent::Line("GET\n".to_string());
    match exporter.on_client(ClientState::AwaitRequest, event).0.action {
        ClientAction::SendItem { header, body } => (header, body),
        other => panic!("expected an item, got {other:?}"),
    }
}

#[test]
fn req_response_exporter_emits_ack_for_empty_payload() {
    let mut exporter = exporter(test_config());
    // Empty OTLP bytes should be treated as "empty payload" and ACKed (0 items).
    let outcome = send(&mut exporter, logs(b""));
    shut_down(&mut exporter);
    assert!(matches!(outcome.reply, UpstreamReply::Ack), "got {:?}", outcome.reply);
    assert!(outcome.returned.is_empty());
    assert_eq!(outcome.signal_type, SignalType::Logs);
    assert!(outcome.exported);
    assert_eq!((outcome.pdata_count, outcome.pdata_dropped), (0, 0));
    assert!(!outcome.wake_clients);
}

#[test]
fn req_response_exporter_emits_nack_for_decode_failure() {
    let mut exporter = exporter(test_config());
    // Non-empty but invalid protobuf bytes to trigger decode error.
    let outcome = send(&mut exporter, logs(b"\xff"));
    shut_down(&mut exporter);
    let reason = nack_reason(&outcome);
    assert!(reason.contains("Failed to decode logs request"), "unexpected nack reason: {reason}");
    assert!(outcome.returned.is_empty());
    assert!(!outcome.exported);
    assert_eq!((outcome.pdata_count, outcome.pdata_dropped), (0, 0));
}

#[test]
fn undecodable_traces_are_refused() {
    let mut exporter = exporter(test_config());
    let outcome = send(&mut exporter, traces(b"\x0a\x05\x01"));
    assert_eq!(nack_reason(&outcome), "Failed to decode traces request");
    assert_eq!(outcome.signal_type, SignalType::Traces);
}

#[test]
fn decodable_requests_are_cached_in_order() {
    let mut exporter = exporter(test_config());
    let outcome = send(&mut exporter, logs(&VALID));
    assert!(matches!(outcome.reply, UpstreamReply::Ack));
    assert!(outcome.exported && outcome.wake_clients);
    assert_eq!((outcome.pdata_count, outcome.pdata_dropped), (1, 0));
    send(&mut exporter, traces(&VALID));
    assert_eq!(get(&mut exporter), ("ITEM 1 logs 2\\n".to_string(), VALID.to_vec()));
    let answer = ClientEvent::Line("ACK 1\n".to_string());
    let (step, due) = exporter.on_client(ClientState::AwaitAck { id: 1 }, answer);
    assert_eq!(step.delivered, Some(1));
    assert_eq!(due, None);
    assert_eq!(get(&mut exporter), ("ITEM 2 traces 2\\n".to_string(), VALID.to_vec()));
}

#[test]
fn requests_are_not_decoded_unless_configured() {
    let mut exporter = exporter(PartialConfig { validate_otlp: Some(false), ..test_config() });
    let outcome = send(&mut exporter, logs(b"\xff"));
    assert!(matches!(outcome.reply, UpstreamReply::Ack));
    assert_eq!(get(&mut exporter).1, b"\xff");
}

#[test]
fn upstream_is_acknowledged_after_delivery_if_configured() {
    let config = PartialConfig { ack_upstream_on_enqueue: Some(false), ..test_config() };
    let mut exporter = exporter(config);
    let outcome = send(&mut exporter, logs(&VALID));
    assert!(matches!(outcome.reply, UpstreamReply::AckAfterDelivery { id: 1 }));
    assert!(outcome.exported);
    let outcome = send(&mut exporter, logs(b""));
    assert!(matches!(outcome.reply, UpstreamReply::Ack));
    get(&mut exporter);
    let wrong = ClientEvent::Line("ACK 7\n".to_string());
    let (_, due) = exporter.on_client(ClientState::AwaitAck { id: 1 }, wrong);
    assert_eq!(due, None);
    get(&mut exporter);
    let answer = ClientEvent::Line("ACK 1\n".to_string());
    let (_, due) = exporter.on_client(ClientState::AwaitAck { id: 1 }, answer);
    assert_eq!(due, Some(1));
}

#[test]
fn dropped_items_are_counted() {
    let mut exporter = exporter(PartialConfig { max_items: Some(0), ..test_config() });
    assert_eq!(send(&mut exporter, logs(&VALID)).pdata_dropped, 0);
    assert_eq!(send(&mut exporter, logs(&VALID)).pdata_dropped, 1);
    assert_eq!(get(&mut exporter).0, "ITEM 2 logs 2\\n");
}

#[test]
fn metrics_are_not_supported() {
    let mut exporter = exporter(test_config());
    let metrics = OtapPayload::OtlpBytes(OtlpProtoBytes::ExportMetricsRequest(vec![1]));
    let outcome = send(&mut exporter, metrics);
    assert_eq!(nack_reason(&outcome), "req-response exporter does not support metrics");
    assert_eq!(outcome.signal_type, SignalType::Metrics);
}

#[test]
fn arrow_records_are_converted() {
    let mut exporter = exporter(test_config());
    let arrow = |is_empty: bool, otlp: Result<OtlpProtoBytes, String>| {
        OtapPayload::OtapArrowRecords(ArrowRecords {
            signal_type: SignalType::Traces,
            is_empty,
            otlp,
        })
    };
    let request = OtlpProtoBytes::ExportTracesRequest(VALID.to_vec());
    assert!(matches!(send(&mut exporter, arrow(false, Ok(request))).reply, UpstreamReply::Ack));
    assert_eq!(get(&mut exporter).0, "ITEM 1 traces 2\\n");
    let outcome = send(&mut exporter, arrow(false, Err("NoSchema".to_string())));
    assert_eq!(nack_reason(&outcome), "Failed OTAP->OTLP conversion: NoSchema");
    let outcome = send(&mut exporter, arrow(true, Err("NoSchema".to_string())));
    assert!(matches!(outcome.reply, UpstreamReply::Ack));
    assert_eq!(outcome.returned.signal_type(), SignalType::Traces);
}

#[test]
fn payloads_become_items() {
    let item = |payload: OtapPayload| ReqResponseExporter::payload_to_otlp_item(&payload);
    assert_eq!(item(logs(b"ab")), Ok((Kind::Logs, b"ab".to_vec())));
    assert_eq!(item(traces(b"c")), Ok((Kind::Traces, b"c".to_vec())));
    assert_eq!(item(logs(b"")), Err("empty payload".to_string()));
    assert_eq!(item(OtapPayload::empty(SignalType::Metrics)), Err("empty payload".to_string()));
}

#[test]
fn payload_goes_back_only_if_wanted() {
    let mut exporter = exporter(test_config());
    let outcome = send_returning(&mut exporter, logs(&VALID), true);
    match outcome.returned {
        OtapPayload::OtlpBytes(OtlpProtoBytes::ExportLogsRequest(bytes)) => assert_eq!(bytes, VALID),
        other => panic!("unexpected payload {other:?}"),
    }
    let outcome = send_returning(&mut exporter, traces(&VALID), false);
    assert!(outcome.returned.is_empty());
    assert_eq!(outcome.returned.signal_type(), SignalType::Traces);
}

#[test]
fn decoding_tells_requests_from_other_bytes() {
    assert!(logs(&VALID).decodes());
    assert!(logs(b"").decodes());
    assert!(!logs(b"\xff").decodes());
    assert!(traces(&VALID).decodes());
    assert!(!traces(b"\x08").decodes());
}

#[test]
fn other_messages_are_answered() {
    let mut exporter = exporter(test_config());
    let action = exporter.on_message(PipelineMessage::CollectTelemetry);
    assert!(matches!(action, PipelineAction::ReportMetrics(metrics) if metrics == Metrics::new()));
    assert!(matches!(exporter.on_message(PipelineMessage::Other), PipelineAction::Ignore));
}

#[test]
fn settling_takes_the_result_of_decoding() {
    let mut exporter = exporter(test_config());
    let outcome = exporter.settle(logs(b"\xff"), false, true);
    assert!(matches!(outcome.reply, UpstreamReply::Ack));
    let outcome = exporter.settle(logs(&VALID), false, false);
    assert_eq!(nack_reason(&outcome), "Failed to decode logs request");
}

#[test]
fn cached_payloads_count_as_cached_and_not_as_sent() {
    let mut exporter = exporter(test_config());
    for _ in 0..3 {
        send(&mut exporter, logs(&VALID));
    }
    let metrics = shut_down(&mut exporter);
    assert_eq!(metrics.exporter.pdata_sent, 0);
    assert_eq!(metrics.exporter.pdata_count, 3);
    assert_eq!(metrics.exporter.pdata_dropped, 0);
}

#[test]
fn metrics_count_what_happened() {
    let mut exporter = exporter(PartialConfig { max_items: Some(1), ..test_config() });
    send(&mut exporter, logs(&VALID));
    send(&mut exporter, logs(b""));
    send(&mut exporter, logs(b"\xff"));
    send(&mut exporter, traces(&VALID));
    get(&mut exporter);
    let metrics = shut_down(&mut exporter);
    assert_eq!(metrics.pdata.logs, SignalMetrics { consumed: 3, exported: 2, failed: 1 });
    assert_eq!(metrics.pdata.traces, SignalMetrics { consumed: 1, exported: 1, failed: 0 });
    assert_eq!(metrics.pdata.metrics, SignalMetrics { consumed: 0, exported: 0, failed: 0 });
    assert_eq!(metrics.exporter.pdata_sent, 1);
    assert_eq!(metrics.exporter.pdata_count, 1);
    assert_eq!(metrics.exporter.pdata_dropped, 1);
}

#[test]
fn payloads_of_lost_items_are_refused_if_they_wait() {
    let config = PartialConfig {
        ack_upstream_on_enqueue: Some(false),
        max_items: Some(1),
        max_total_bytes: Some(4),
        ..test_config()
    };
    let mut exporter = exporter(config);
    assert_eq!(send(&mut exporter, logs(&VALID)).lost, vec![]);
    assert_eq!(send(&mut exporter, logs(&VALID)).lost, vec![1]);
    get(&mut exporter);
    let outcome = send(&mut exporter, logs(&VALID));
    assert!(matches!(outcome.reply, UpstreamReply::AckAfterDelivery { id: 3 }));
    assert_eq!(outcome.lost, vec![3]);
    let answer = ClientEvent::Line("ACK 2\n".to_string());
    let (_, due) = exporter.on_client(ClientState::AwaitAck { id: 2 }, answer);
    assert_eq!(due, Some(2));
    assert_eq!(loss_reason(), "dropped from the cache before delivery");
}

#[test]
fn payload_without_room_is_acknowledged_and_dropped() {
    let config = PartialConfig { max_total_bytes: Some(1), ..test_config() };
    let mut exporter = exporter(config);
    let outcome = send(&mut exporter, logs(&VALID));
    assert!(matches!(outcome.reply, UpstreamReply::Ack));
    assert!(outcome.exported && outcome.wake_clients);
    assert_eq!((outcome.pdata_count, outcome.pdata_dropped), (0, 1));
    assert_eq!(outcome.lost, vec![]);
    let metrics = shut_down(&mut exporter);
    assert_eq!(metrics.pdata.logs, SignalMetrics { consumed: 1, exported: 1, failed: 0 });
    assert_eq!(metrics.exporter.pdata_count, 0);
    assert_eq!(metrics.exporter.pdata_dropped, 1);
}
