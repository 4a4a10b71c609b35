//! Configuration of the request/response exporter.
use vstd::prelude::*;
use vstd::string::StringExecFns;

verus! {

/// The URN for the Request Response exporter
pub const REQ_RESPONSE_EXPORTER_URN: &'static str = "urn:microsoft:exporter:req-response";

/// The address to listen on when the configuration names none.
pub fn default_listen_addr() -> (addr: String)
    ensures
        addr@ == "0.0.0.0:9000"@,
{
    "0.0.0.0:9000".to_string()
}

/// The limit on cached items when the configuration names none.
pub fn default_max_items() -> (limit: usize)
    ensures
        limit == 10_000,
{
    10_000
}

/// The limit on cached bytes when the configuration names none: 64 MiB.
pub fn default_max_total_bytes() -> (limit: usize)
    ensures
        limit == 64 * 1024 * 1024,
{
    64 * 1024 * 1024
}

/// The time to wait for an ACK when the configuration names none.
pub fn default_ack_timeout_ms() -> (millis: u64)
    ensures
        millis == 30_000,
{
    30_000
}

/// Whether OTLP requests are decoded when the configuration does not say: they are.
pub fn default_validate_otlp() -> (validate: bool)
    ensures
        validate,
{
    true
}

/// Configuration for the Req/Response exporter
#[derive(Debug)]
pub struct Config {
    /// TCP address to listen for requests, e.g. "0.0.0.0:9000"
    pub listen_addr: String,
    /// Maximum number of cached items (FIFO length)
    pub max_items: usize,
    /// Maximum total bytes allowed in FIFO cache
    pub max_total_bytes: usize,
    /// Time to wait for ACK after sending an item
    pub ack_timeout_ms: u64,
    /// If true: exporter acks upstream immediately after enqueue (recommended).
    /// If false: exporter acks upstream only after external ACK (can stall pipeline).
    pub ack_upstream_on_enqueue: bool,
    /// If true, decode OTLP requests (logs/traces) to validate bytes, and refuse those that do
    /// not decode.
    pub validate_otlp: bool,
}

impl Clone for Config {
    fn clone(&self) -> (copy: Self)
        ensures
            copy == *self,
    {
        Config {
            listen_addr: self.listen_addr.clone(),
            max_items: self.max_items,
            max_total_bytes: self.max_total_bytes,
            ack_timeout_ms: self.ack_timeout_ms,
            ack_upstream_on_enqueue: self.ack_upstream_on_enqueue,
            validate_otlp: self.validate_otlp,
        }
    }
}

/// A configuration as a user writes it: every setting can be left out.
#[derive(Debug)]
pub struct PartialConfig {
    pub listen_addr: Option<String>,
    pub max_items: Option<usize>,
    pub max_total_bytes: Option<usize>,
    pub ack_timeout_ms: Option<u64>,
    pub ack_upstream_on_enqueue: Option<bool>,
    pub validate_otlp: Option<bool>,
}

/// `value` where it is given, else `default`.
pub open spec fn or_default<T>(value: Option<T>, default: T) -> T {
    match value {
        Some(given) => given,
        None => default,
    }
}

/// Why a configuration is refused.
#[derive(Debug)]
pub enum ConfigError {
    /// What the user wrote is not a configuration.
    InvalidUserConfig { error: String },
}

impl Config {
    /// Whether this configuration has every setting that `partial` gives, and the defaults for
    /// the others.
    pub open spec fn follows(self, partial: PartialConfig) -> bool {
        &&& self.listen_addr@ == match partial.listen_addr {
            Some(addr) => addr@,
            None => "0.0.0.0:9000"@,
        }
        &&& self.max_items == or_default(partial.max_items, 10_000)
        &&& self.max_total_bytes == or_default(partial.max_total_bytes, 67_108_864)
        &&& self.ack_timeout_ms == or_default(partial.ack_timeout_ms, 30_000)
        &&& self.ack_upstream_on_enqueue == or_default(partial.ack_upstream_on_enqueue, false)
        &&& self.validate_otlp == or_default(partial.validate_otlp, true)
    }

    /// The configuration that `partial` stands for: what it leaves out takes its default.
    pub fn from_partial(partial: PartialConfig) -> (config: Config)
        ensures
            config.follows(partial),
    {
        Config {
            listen_addr: match partial.listen_addr {
                Some(addr) => addr,
                None => default_listen_addr(),
            },
            max_items: match partial.max_items {
                Some(limit) => limit,
                None => default_max_items(),
            },
            max_total_bytes: match partial.max_total_bytes {
                Some(limit) => limit,
                None => default_max_total_bytes(),
            },
            ack_timeout_ms: match partial.ack_timeout_ms {
                Some(millis) => millis,
                None => default_ack_timeout_ms(),
            },
            ack_upstream_on_enqueue: match partial.ack_upstream_on_enqueue {
                Some(early) => early,
                None => false,
            },
            validate_otlp: match partial.validate_otlp {
                Some(validate) => validate,
                None => default_validate_otlp(),
            },
        }
    }

    /// The limit on cached items that the cache is made with, which is at least one.
    pub open spec fn item_limit(self) -> nat {
        if self.max_items < 1 {
            1
        } else {
            self.max_items as nat
        }
    }

    /// The limit on cached bytes that the cache is made with, which is at least one.
    pub open spec fn byte_limit(self) -> nat {
        if self.max_total_bytes < 1 {
            1
        } else {
            self.max_total_bytes as nat
        }
    }

    /// How long to wait for an ACK, in milliseconds, which is at least one.
    pub open spec fn ack_wait(self) -> u64 {
        if self.ack_timeout_ms < 1 {
            1
        } else {
            self.ack_timeout_ms
        }
    }

    /// How long to wait for an ACK, which is at least one millisecond.
    pub fn ack_wait_ms(&self) -> (millis: u64)
        ensures
            millis == self.ack_wait(),
    {
        if self.ack_timeout_ms < 1 {
            1
        } else {
            self.ack_timeout_ms
        }
    }
}

impl ConfigError {
    /// What the error says.
    pub open spec fn text(self) -> Seq<char> {
        match self {
            ConfigError::InvalidUserConfig { error } => error@,
        }
    }

    /// The error for a listen address that does not parse, for the reason that the parser gives.
    pub fn invalid_listen_addr(reason: &str) -> (error: ConfigError)
        ensures
            error.text() == "invalid listen_addr: "@ + reason@,
    {
        let mut text: String = "invalid listen_addr: ".to_string();
        text.append(reason);
        ConfigError::InvalidUserConfig { error: text }
    }
}

} // verus!
