//! What holds of the configuration.
use vstd::prelude::*;

use crate::config::{Config, ConfigError, PartialConfig};

verus! {

/// A setting that the user gives stands as it is given.
pub proof fn given_settings_stand(config: Config, partial: PartialConfig)
    requires
        config.follows(partial),
    ensures
        partial.listen_addr matches Some(addr) ==> config.listen_addr@ == addr@,
        partial.max_items matches Some(limit) ==> config.max_items == limit,
        partial.max_total_bytes matches Some(limit) ==> config.max_total_bytes == limit,
        partial.ack_timeout_ms matches Some(millis) ==> config.ack_timeout_ms == millis,
        partial.ack_upstream_on_enqueue matches Some(early) ==> config.ack_upstream_on_enqueue
            == early,
        partial.validate_otlp matches Some(validate) ==> config.validate_otlp == validate,
{
}

/// A setting that the user leaves out has its default, whatever the others are.
pub proof fn missing_settings_have_defaults(config: Config, partial: PartialConfig)
    requires
        config.follows(partial),
    ensures
        partial.listen_addr is None ==> config.listen_addr@ == "0.0.0.0:9000"@,
        partial.max_items is None ==> config.max_items == 10_000,
        partial.max_total_bytes is None ==> config.max_total_bytes == 64 * 1024 * 1024,
        partial.ack_timeout_ms is None ==> config.ack_timeout_ms == 30_000,
        partial.ack_upstream_on_enqueue is None ==> !config.ack_upstream_on_enqueue,
        partial.validate_otlp is None ==> config.validate_otlp,
{
}

/// The limits of the cache are those that are configured, except that neither is below one.
pub proof fn limits_are_those_configured(config: Config)
    ensures
        config.max_items > 0 ==> config.item_limit() == config.max_items,
        config.max_total_bytes > 0 ==> config.byte_limit() == config.max_total_bytes,
        config.max_items == 0 ==> config.item_limit() == 1,
        config.max_total_bytes == 0 ==> config.byte_limit() == 1,
{
}

/// The time to answer is the one that is configured, except that it is not below one millisecond.
pub proof fn time_to_answer_is_the_one_configured(config: Config)
    ensures
        config.ack_timeout_ms > 0 ==> config.ack_wait() == config.ack_timeout_ms,
        config.ack_timeout_ms == 0 ==> config.ack_wait() == 1,
{
}

/// A configuration error says what it was made with.
pub proof fn config_error_says_what_is_wrong(error: String)
    ensures
        (ConfigError::InvalidUserConfig { error }).text() == error@,
{
}

} // verus!
