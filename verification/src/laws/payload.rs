//! What holds of payloads and of the items that they become.
use vstd::prelude::*;

use crate::cache::Kind;
use crate::exporter::Admission;
use crate::payload::{ArrowRecords, OtapPayload, OtlpProtoBytes, SignalType};

verus! {

/// A request holds nothing exactly if its encoding is empty, and is of the signal that it exports.
pub proof fn request_is_what_it_holds(bytes: Vec<u8>)
    ensures
        ({
            let logs = OtapPayload::OtlpBytes(OtlpProtoBytes::ExportLogsRequest(bytes));
            let metrics = OtapPayload::OtlpBytes(OtlpProtoBytes::ExportMetricsRequest(bytes));
            let traces = OtapPayload::OtlpBytes(OtlpProtoBytes::ExportTracesRequest(bytes));
            &&& logs.holds_nothing() <==> bytes@.len() == 0
            &&& metrics.holds_nothing() <==> bytes@.len() == 0
            &&& traces.holds_nothing() <==> bytes@.len() == 0
            &&& logs.signal() == SignalType::Logs
            &&& metrics.signal() == SignalType::Metrics
            &&& traces.signal() == SignalType::Traces
        }),
{
}

/// Records hold nothing exactly if they say so, and are of the signal that they say.
pub proof fn records_are_what_they_say(records: ArrowRecords)
    ensures
        OtapPayload::OtapArrowRecords(records).holds_nothing() <==> records.is_empty,
        OtapPayload::OtapArrowRecords(records).signal() == records.signal_type,
{
}

/// Only the request of a payload matters, not its form: records that convert to a request stand for
/// that request, and become the same item.
pub proof fn form_of_a_payload_does_not_matter(
    records: ArrowRecords,
    request: OtlpProtoBytes,
    validate: bool,
    decodes: bool,
)
    requires
        !records.is_empty,
        records.otlp == Ok::<OtlpProtoBytes, String>(request),
        !OtapPayload::OtlpBytes(request).holds_nothing(),
    ensures
        ({
            let columnar = OtapPayload::OtapArrowRecords(records);
            let encoded = OtapPayload::OtlpBytes(request);
            &&& crate::exporter::otlp_item(columnar) == crate::exporter::otlp_item(encoded)
            &&& crate::exporter::admission(columnar, validate, decodes)
                == crate::exporter::admission(encoded, validate, decodes)
            &&& crate::payload::request_decodes(columnar) == crate::payload::request_decodes(
                encoded,
            )
        }),
{
}

/// The item that a payload becomes follows from its request alone: logs become an item of logs, and
/// traces one of traces, with the bytes of the request; metrics become none.
pub proof fn item_follows_the_request(payload: OtapPayload, bytes: Vec<u8>)
    requires
        !payload.holds_nothing(),
    ensures
        payload.request() == Ok::<OtlpProtoBytes, String>(OtlpProtoBytes::ExportLogsRequest(bytes))
            ==> crate::exporter::otlp_item(payload) == Ok::<(Kind, Seq<u8>), Seq<char>>(
            (Kind::Logs, bytes@),
        ),
        payload.request() == Ok::<OtlpProtoBytes, String>(
            OtlpProtoBytes::ExportTracesRequest(bytes),
        ) ==> crate::exporter::otlp_item(payload) == Ok::<(Kind, Seq<u8>), Seq<char>>(
            (Kind::Traces, bytes@),
        ),
        payload.request() == Ok::<OtlpProtoBytes, String>(
            OtlpProtoBytes::ExportMetricsRequest(bytes),
        ) ==> crate::exporter::otlp_item(payload) == Err::<(Kind, Seq<u8>), Seq<char>>(
            "req-response exporter does not support metrics"@,
        ),
{
}

/// Two payloads that hold something and have the same request become the same item, and decode
/// alike.
pub proof fn same_request_becomes_the_same_item(first: OtapPayload, second: OtapPayload)
    requires
        !first.holds_nothing(),
        !second.holds_nothing(),
        first.request() == second.request(),
    ensures
        crate::exporter::otlp_item(first) == crate::exporter::otlp_item(second),
        crate::payload::request_decodes(first) == crate::payload::request_decodes(second),
{
}

/// A request that is sent as such is the request of its payload; records have the request, or the
/// failure, that their conversion gives.
pub proof fn request_comes_with_the_payload(request: OtlpProtoBytes, records: ArrowRecords)
    ensures
        OtapPayload::OtlpBytes(request).request() == Ok::<OtlpProtoBytes, String>(request),
        OtapPayload::OtapArrowRecords(records).request() == records.otlp,
{
}

/// A payload becomes no item if it holds nothing, or if it does not convert, for the reason that
/// the conversion gives.
pub proof fn payload_without_request_becomes_no_item(payload: OtapPayload, reason: String)
    ensures
        payload.holds_nothing() ==> crate::exporter::otlp_item(payload) == Err::<
            (Kind, Seq<u8>),
            Seq<char>,
        >("empty payload"@),
        !payload.holds_nothing() && payload.request() == Err::<OtlpProtoBytes, String>(reason)
            ==> crate::exporter::otlp_item(payload) == Err::<(Kind, Seq<u8>), Seq<char>>(
            "Failed OTAP->OTLP conversion: "@ + reason@,
        ),
{
}

/// Logs are decoded as a request for logs, and traces as one for traces; there is nothing else to
/// decode.
pub proof fn requests_decode_as_what_they_are(payload: OtapPayload, bytes: Vec<u8>)
    ensures
        payload.request() == Ok::<OtlpProtoBytes, String>(OtlpProtoBytes::ExportLogsRequest(bytes))
            ==> crate::payload::request_decodes(payload) == crate::payload::logs_request_decodes(
            bytes@,
        ),
        payload.request() == Ok::<OtlpProtoBytes, String>(
            OtlpProtoBytes::ExportTracesRequest(bytes),
        ) ==> crate::payload::request_decodes(payload) == crate::payload::traces_request_decodes(
            bytes@,
        ),
        payload.request() is Err || payload.request() == Ok::<OtlpProtoBytes, String>(
            OtlpProtoBytes::ExportMetricsRequest(bytes),
        ) ==> crate::payload::request_decodes(payload),
{
}

/// Whether a request decodes matters only where requests are validated, and a request that decodes
/// is treated there as it is elsewhere.
pub proof fn validation_only_adds_refusals(payload: OtapPayload, decodes: bool)
    ensures
        crate::exporter::admission(payload, false, decodes) == crate::exporter::admission(
            payload,
            true,
            true,
        ),
{
}

/// Where requests are validated, one for logs or traces that does not decode is refused, and the
/// reason says which it was.
pub proof fn undecodable_request_is_refused(payload: OtapPayload, bytes: Vec<u8>)
    requires
        !payload.holds_nothing(),
    ensures
        payload.request() == Ok::<OtlpProtoBytes, String>(OtlpProtoBytes::ExportLogsRequest(bytes))
            ==> crate::exporter::admission(payload, true, false) == Admission::Refusal(
            "Failed to decode logs request"@,
        ),
        payload.request() == Ok::<OtlpProtoBytes, String>(
            OtlpProtoBytes::ExportTracesRequest(bytes),
        ) ==> crate::exporter::admission(payload, true, false) == Admission::Refusal(
            "Failed to decode traces request"@,
        ),
{
}

/// A payload that holds nothing is done with. One that becomes an item is offered to the cache as
/// that item where requests are not validated; and one that becomes none is refused for the reason
/// why it does not, validated or not.
pub proof fn payload_is_admitted_as_its_item(payload: OtapPayload, validate: bool, decodes: bool)
    ensures
        payload.holds_nothing() ==> crate::exporter::admission(payload, validate, decodes)
            is Nothing,
        !payload.holds_nothing() ==> match crate::exporter::otlp_item(payload) {
            Ok((kind, bytes)) => validate && !decodes || crate::exporter::admission(
                payload,
                validate,
                decodes,
            ) == Admission::Item(kind, bytes),
            Err(reason) => crate::exporter::admission(payload, validate, decodes)
                == Admission::Refusal(reason),
        },
{
}

} // verus!
