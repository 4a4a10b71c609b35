//! What holds of the metrics.
use vstd::prelude::*;

use crate::metrics::{ExporterPDataMetrics, Metrics};
use crate::payload::SignalType;

verus! {

/// A payload counts under its own signal and under no other.
pub proof fn payload_counts_under_its_own_signal(
    before: Metrics,
    signal: SignalType,
    exported: bool,
    dropped: u64,
    cached: u64,
)
    ensures
        ({
            let after = before.with_payload(signal, exported, dropped, cached);
            &&& signal != SignalType::Logs ==> after.pdata.logs == before.pdata.logs
            &&& signal != SignalType::Metrics ==> after.pdata.metrics == before.pdata.metrics
            &&& signal != SignalType::Traces ==> after.pdata.traces == before.pdata.traces
            &&& after.pdata.signal(signal) == before.pdata.signal(signal).with_payload(exported)
        }),
{
}

/// The counts of each signal are kept apart, each under its name.
pub proof fn signals_have_counts_of_their_own(counts: ExporterPDataMetrics)
    ensures
        counts.signal(SignalType::Logs) == counts.logs,
        counts.signal(SignalType::Metrics) == counts.metrics,
        counts.signal(SignalType::Traces) == counts.traces,
{
}

/// A payload counts once as consumed, and once as exported or as failed. A counter that has reached
/// its largest value stays there.
pub proof fn payload_counts_once(
    before: Metrics,
    signal: SignalType,
    exported: bool,
    dropped: u64,
    cached: u64,
)
    ensures
        ({
            let was = before.pdata.signal(signal);
            let is = before.with_payload(signal, exported, dropped, cached).pdata.signal(signal);
            &&& was.consumed < u64::MAX ==> is.consumed == was.consumed + 1
            &&& was.consumed == u64::MAX ==> is.consumed == u64::MAX
            &&& exported && was.exported < u64::MAX ==> is.exported == was.exported + 1
            &&& exported && was.exported == u64::MAX ==> is.exported == u64::MAX
            &&& exported ==> is.failed == was.failed
            &&& !exported && was.failed < u64::MAX ==> is.failed == was.failed + 1
            &&& !exported && was.failed == u64::MAX ==> is.failed == u64::MAX
            &&& !exported ==> is.exported == was.exported
        }),
{
}

/// What a payload drops is added up, and what it leaves in the cache is taken over; nothing counts
/// as sent.
pub proof fn payload_counts_what_it_drops(
    before: Metrics,
    signal: SignalType,
    exported: bool,
    dropped: u64,
    cached: u64,
)
    ensures
        ({
            let was = before.exporter;
            let is = before.with_payload(signal, exported, dropped, cached).exporter;
            &&& was.pdata_dropped + dropped <= u64::MAX ==> is.pdata_dropped == was.pdata_dropped
                + dropped
            &&& was.pdata_dropped + dropped > u64::MAX ==> is.pdata_dropped == u64::MAX
            &&& is.pdata_count == cached
            &&& is.pdata_sent == was.pdata_sent
        }),
{
}

/// What goes out to a client is added up, and what is left in the cache is taken over; nothing else
/// is counted.
pub proof fn delivery_counts_what_it_sends(before: Metrics, sent: u64, cached: u64)
    ensures
        ({
            let was = before.exporter;
            let is = before.with_delivery(sent, cached).exporter;
            &&& was.pdata_sent + sent <= u64::MAX ==> is.pdata_sent == was.pdata_sent + sent
            &&& was.pdata_sent + sent > u64::MAX ==> is.pdata_sent == u64::MAX
            &&& is.pdata_count == cached
            &&& is.pdata_dropped == was.pdata_dropped
            &&& before.with_delivery(sent, cached).pdata == before.pdata
        }),
{
}

/// Counting starts at nothing, for every signal.
pub proof fn counting_starts_at_nothing(signal: SignalType)
    ensures
        ({
            let none = Metrics::zero();
            let counts = none.pdata.signal(signal);
            &&& counts.consumed == 0 && counts.exported == 0 && counts.failed == 0
            &&& none.exporter.pdata_count == 0 && none.exporter.pdata_sent == 0
                && none.exporter.pdata_dropped == 0
        }),
{
}

} // verus!
