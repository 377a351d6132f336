//! Core logic of a unidirectional UDP-to-AMQP bridge.
//!
//! The library holds the decision-making parts of the bridge: the
//! connection-lifecycle supervisor (backoff, readiness, retry-or-stop
//! decisions), the forwarding step that turns a received datagram into the
//! message body to publish, the exchange-declaration plan, and the readiness
//! probe's response rule. The surrounding process (sockets, broker client,
//! HTTP server, logging) drives these functions and performs the I/O.

pub mod amqp;
pub mod backoff;
pub mod forwarding;
pub mod probe;
pub mod settings;
pub mod supervisor;
