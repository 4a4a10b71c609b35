//! Telemetry payloads, and the OTLP request bytes that they hold or convert to.
use opentelemetry_proto::tonic::collector::logs::v1::ExportLogsServiceRequest;
use opentelemetry_proto::tonic::collector::trace::v1::ExportTraceServiceRequest;
use prost::Message;
use vstd::prelude::*;

verus! {

/// What kind of telemetry a payload carries.
#[derive(Debug, Clone, Copy, PartialEq, Eq, Structural)]
pub enum SignalType {
    Logs,
    Metrics,
    Traces,
}

/// An OTLP export request in Protobuf encoding.
#[derive(Debug)]
pub enum OtlpProtoBytes {
    ExportLogsRequest(Vec<u8>),
    ExportMetricsRequest(Vec<u8>),
    ExportTracesRequest(Vec<u8>),
}

impl OtlpProtoBytes {
    /// The signal of the request.
    pub open spec fn signal(self) -> SignalType {
        match self {
            OtlpProtoBytes::ExportLogsRequest(_) => SignalType::Logs,
            OtlpProtoBytes::ExportMetricsRequest(_) => SignalType::Metrics,
            OtlpProtoBytes::ExportTracesRequest(_) => SignalType::Traces,
        }
    }

    /// The encoded request.
    pub open spec fn encoded(self) -> Seq<u8> {
        match self {
            OtlpProtoBytes::ExportLogsRequest(bytes) => bytes@,
            OtlpProtoBytes::ExportMetricsRequest(bytes) => bytes@,
            OtlpProtoBytes::ExportTracesRequest(bytes) => bytes@,
        }
    }
}

/// A payload in the columnar OTAP form: its signal, whether it holds no records, and what its
/// conversion to OTLP gives, which is a request or the reason why there is none.
#[derive(Debug)]
pub struct ArrowRecords {
    pub signal_type: SignalType,
    pub is_empty: bool,
    pub otlp: Result<OtlpProtoBytes, String>,
}

/// A payload in one of its two forms.
#[derive(Debug)]
pub enum OtapPayload {
    OtapArrowRecords(ArrowRecords),
    OtlpBytes(OtlpProtoBytes),
}

impl OtapPayload {
    /// The signal of the payload.
    pub open spec fn signal(self) -> SignalType {
        match self {
            OtapPayload::OtapArrowRecords(arrow) => arrow.signal_type,
            OtapPayload::OtlpBytes(otlp) => otlp.signal(),
        }
    }

    /// Whether the payload holds nothing.
    pub open spec fn holds_nothing(self) -> bool {
        match self {
            OtapPayload::OtapArrowRecords(arrow) => arrow.is_empty,
            OtapPayload::OtlpBytes(otlp) => otlp.encoded().len() == 0,
        }
    }

    /// The OTLP request of the payload, or the reason why it converts to none.
    pub open spec fn request(self) -> Result<OtlpProtoBytes, String> {
        match self {
            OtapPayload::OtapArrowRecords(arrow) => arrow.otlp,
            OtapPayload::OtlpBytes(otlp) => Ok(otlp),
        }
    }

    /// The signal of the payload.
    pub fn signal_type(&self) -> (signal: SignalType)
        ensures
            signal == self.signal(),
    {
        match self {
            OtapPayload::OtapArrowRecords(arrow) => arrow.signal_type,
            OtapPayload::OtlpBytes(OtlpProtoBytes::ExportLogsRequest(_)) => SignalType::Logs,
            OtapPayload::OtlpBytes(OtlpProtoBytes::ExportMetricsRequest(_)) => SignalType::Metrics,
            OtapPayload::OtlpBytes(OtlpProtoBytes::ExportTracesRequest(_)) => SignalType::Traces,
        }
    }

    /// Whether the payload holds nothing.
    pub fn is_empty(&self) -> (empty: bool)
        ensures
            empty == self.holds_nothing(),
    {
        match self {
            OtapPayload::OtapArrowRecords(arrow) => arrow.is_empty,
            OtapPayload::OtlpBytes(OtlpProtoBytes::ExportLogsRequest(bytes)) => bytes.len() == 0,
            OtapPayload::OtlpBytes(OtlpProtoBytes::ExportMetricsRequest(bytes)) => bytes.len() == 0,
            OtapPayload::OtlpBytes(OtlpProtoBytes::ExportTracesRequest(bytes)) => bytes.len() == 0,
        }
    }

    /// A payload of the given signal that holds nothing.
    pub fn empty(signal: SignalType) -> (payload: OtapPayload)
        ensures
            payload is OtlpBytes,
            payload.signal() == signal,
            payload.holds_nothing(),
    {
        OtapPayload::OtlpBytes(
            match signal {
                SignalType::Logs => OtlpProtoBytes::ExportLogsRequest(Vec::new()),
                SignalType::Metrics => OtlpProtoBytes::ExportMetricsRequest(Vec::new()),
                SignalType::Traces => OtlpProtoBytes::ExportTracesRequest(Vec::new()),
            },
        )
    }
}

/// Whether `bytes` decode as an OTLP `ExportLogsServiceRequest`.
pub uninterp spec fn logs_request_decodes(bytes: Seq<u8>) -> bool;

/// Calls [`prost::Message::decode`] for [`ExportLogsServiceRequest`] and tells whether it
/// succeeds. Which bytes those are is the Protobuf encoding of that message, which the name
/// [`logs_request_decodes`] stands for.
#[verifier::external_body]
pub(crate) fn decode_logs_request(bytes: &[u8]) -> (decodes: bool)
    ensures
        decodes == logs_request_decodes(bytes@),
{
    ExportLogsServiceRequest::decode(bytes).is_ok()
}

/// Whether `bytes` decode as an OTLP `ExportTraceServiceRequest`.
pub uninterp spec fn traces_request_decodes(bytes: Seq<u8>) -> bool;

/// Calls [`prost::Message::decode`] for [`ExportTraceServiceRequest`] and tells whether it
/// succeeds. Which bytes those are is the Protobuf encoding of that message, which the name
/// [`traces_request_decodes`] stands for.
#[verifier::external_body]
pub(crate) fn decode_traces_request(bytes: &[u8]) -> (decodes: bool)
    ensures
        decodes == traces_request_decodes(bytes@),
{
    ExportTraceServiceRequest::decode(bytes).is_ok()
}

/// Whether the OTLP request of `payload` decodes as what it says it is. A payload without such a
/// request, or with one that is never cached, has nothing to decode.
pub open spec fn request_decodes(payload: OtapPayload) -> bool {
    match payload.request() {
        Ok(OtlpProtoBytes::ExportLogsRequest(bytes)) => logs_request_decodes(bytes@),
        Ok(OtlpProtoBytes::ExportTracesRequest(bytes)) => traces_request_decodes(bytes@),
        _ => true,
    }
}

impl OtapPayload {
    /// Decodes the OTLP request of the payload and tells whether that succeeds.
    pub fn decodes(&self) -> (decodes: bool)
        ensures
            decodes == request_decodes(*self),
    {
        let request: &OtlpProtoBytes = match self {
            OtapPayload::OtapArrowRecords(arrow) => match &arrow.otlp {
                Ok(otlp) => otlp,
                Err(_) => {
                    return true;
                },
            },
            OtapPayload::OtlpBytes(otlp) => otlp,
        };
        match request {
            OtlpProtoBytes::ExportLogsRequest(bytes) => decode_logs_request(bytes.as_slice()),
            OtlpProtoBytes::ExportTracesRequest(bytes) => decode_traces_request(bytes.as_slice()),
            OtlpProtoBytes::ExportMetricsRequest(_) => true,
        }
    }
}

} // verus!
