//! Immutable configuration for the bridge, loaded once at startup.

use vstd::prelude::*;

verus! {

/// Default readiness-probe port when none is configured.
pub const DEFAULT_HTTP_PROBE_PORT: u16 = 8080;

/// Default ceiling, in milliseconds, on the reconnect backoff delay.
pub const DEFAULT_RECONNECT_DELAY_LIMIT_MS: u64 = 60000;

/// Bridge configuration. No part of the core mutates it.
#[derive(Clone)]
pub struct Settings {
    /// `address:port` the UDP listener binds to.
    pub udp_bind_addr: String,
    /// Broker connection URI.
    pub amqp_uri: String,
    /// Exchange name; empty means the broker's default exchange, and no
    /// declare call is issued.
    pub amqp_exchange: String,
    /// Routing key attached to every published message; may be empty.
    pub amqp_routing_key: String,
    /// Readiness HTTP port; 0 disables the probe.
    pub http_probe_port: u16,
    /// Ceiling, in milliseconds, on the reconnect backoff delay.
    pub reconnect_delay_limit_ms: u64,
    /// If true, stop after the first transient failure instead of retrying.
    pub no_reconnect: bool,
    /// Log verbosity switch.
    pub debug: bool,
}

} // verus!
