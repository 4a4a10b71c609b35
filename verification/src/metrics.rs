//! The metrics of the exporter.
use vstd::prelude::*;

use crate::payload::SignalType;

verus! {

/// How many payloads of one signal came in, and what became of them.
#[derive(Debug, Clone, Copy, PartialEq, Eq, Structural)]
pub struct SignalMetrics {
    pub consumed: u64,
    pub exported: u64,
    pub failed: u64,
}

/// The payload metrics of each signal.
#[derive(Debug, Clone, Copy, PartialEq, Eq, Structural)]
pub struct ExporterPDataMetrics {
    pub logs: SignalMetrics,
    pub metrics: SignalMetrics,
    pub traces: SignalMetrics,
}

/// Request Response exporter metrics.
#[derive(Debug, Clone, Copy, PartialEq, Eq, Structural)]
pub struct ExporterMetrics {
    /// Total number of pData in cache.
    pub pdata_count: u64,
    /// Total number of pData sent.
    pub pdata_sent: u64,
    /// Total number of pData dropped.
    pub pdata_dropped: u64,
}

/// All metrics of an exporter. A counter that reaches its largest value stays there.
#[derive(Debug, Clone, Copy, PartialEq, Eq, Structural)]
pub struct Metrics {
    pub pdata: ExporterPDataMetrics,
    pub exporter: ExporterMetrics,
}

/// A counter that stood at `count` after `more` more.
pub open spec fn counted_on(count: u64, more: u64) -> u64 {
    if count + more > u64::MAX {
        u64::MAX
    } else {
        (count + more) as u64
    }
}

impl SignalMetrics {
    /// Nothing counted yet.
    pub open spec fn zero() -> SignalMetrics {
        SignalMetrics { consumed: 0, exported: 0, failed: 0 }
    }

    /// These counts after one more payload.
    pub open spec fn with_payload(self, exported: bool) -> SignalMetrics {
        SignalMetrics {
            consumed: counted_on(self.consumed, 1),
            exported: counted_on(self.exported, if exported {
                1
            } else {
                0
            }),
            failed: counted_on(self.failed, if exported {
                0
            } else {
                1
            }),
        }
    }

    /// Counts one more payload.
    fn count_payload(&mut self, exported: bool)
        ensures
            *final(self) == old(self).with_payload(exported),
    {
        self.consumed = self.consumed.saturating_add(1);
        if exported {
            self.exported = self.exported.saturating_add(1);
        } else {
            self.failed = self.failed.saturating_add(1);
        }
    }
}

impl ExporterPDataMetrics {
    /// The counts of one signal.
    pub open spec fn signal(self, signal: SignalType) -> SignalMetrics {
        match signal {
            SignalType::Logs => self.logs,
            SignalType::Metrics => self.metrics,
            SignalType::Traces => self.traces,
        }
    }

    /// These counts after one more payload.
    pub open spec fn with_payload(self, signal: SignalType, exported: bool) -> ExporterPDataMetrics {
        match signal {
            SignalType::Logs => ExporterPDataMetrics {
                logs: self.logs.with_payload(exported),
                ..self
            },
            SignalType::Metrics => ExporterPDataMetrics {
                metrics: self.metrics.with_payload(exported),
                ..self
            },
            SignalType::Traces => ExporterPDataMetrics {
                traces: self.traces.with_payload(exported),
                ..self
            },
        }
    }
}

impl Metrics {
    /// Nothing counted yet.
    pub open spec fn zero() -> Metrics {
        Metrics {
            pdata: ExporterPDataMetrics {
                logs: SignalMetrics::zero(),
                metrics: SignalMetrics::zero(),
                traces: SignalMetrics::zero(),
            },
            exporter: ExporterMetrics { pdata_count: 0, pdata_sent: 0, pdata_dropped: 0 },
        }
    }

    /// These metrics after a payload that counts as exported or failed, to which `dropped` items
    /// were lost, and which left `cached` items in the cache.
    pub open spec fn with_payload(
        self,
        signal: SignalType,
        exported: bool,
        dropped: u64,
        cached: u64,
    ) -> Metrics {
        Metrics {
            pdata: self.pdata.with_payload(signal, exported),
            exporter: ExporterMetrics {
                pdata_count: cached,
                pdata_sent: self.exporter.pdata_sent,
                pdata_dropped: counted_on(self.exporter.pdata_dropped, dropped),
            },
        }
    }

    /// These metrics after `sent` items went out to a client, and `cached` items are in the cache.
    pub open spec fn with_delivery(self, sent: u64, cached: u64) -> Metrics {
        Metrics {
            exporter: ExporterMetrics {
                pdata_count: cached,
                pdata_sent: counted_on(self.exporter.pdata_sent, sent),
                pdata_dropped: self.exporter.pdata_dropped,
            },
            ..self
        }
    }

    /// Nothing counted yet.
    pub fn new() -> (metrics: Metrics)
        ensures
            metrics == Metrics::zero(),
    {
        let none: SignalMetrics = SignalMetrics { consumed: 0, exported: 0, failed: 0 };
        Metrics {
            pdata: ExporterPDataMetrics { logs: none, metrics: none, traces: none },
            exporter: ExporterMetrics { pdata_count: 0, pdata_sent: 0, pdata_dropped: 0 },
        }
    }

    /// Counts a payload.
    pub fn count_payload(&mut self, signal: SignalType, exported: bool, dropped: u64, cached: u64)
        ensures
            *final(self) == old(self).with_payload(signal, exported, dropped, cached),
    {
        match signal {
            SignalType::Logs => self.pdata.logs.count_payload(exported),
            SignalType::Metrics => self.pdata.metrics.count_payload(exported),
            SignalType::Traces => self.pdata.traces.count_payload(exported),
        }
        self.exporter.pdata_count = cached;
        self.exporter.pdata_dropped = self.exporter.pdata_dropped.saturating_add(dropped);
    }

    /// Counts items that went out to a client.
    pub fn count_delivery(&mut self, sent: u64, cached: u64)
        ensures
            *final(self) == old(self).with_delivery(sent, cached),
    {
        self.exporter.pdata_count = cached;
        self.exporter.pdata_sent = self.exporter.pdata_sent.saturating_add(sent);
    }
}

} // verus!
