//! The readiness probe's decision rules.
//!
//! The probe is an HTTP responder with a single route, `GET /`, answering
//! with an empty body and a status code that reflects the readiness flag.
//! It is started only when a non-zero port is configured.

use vstd::prelude::*;

verus! {

/// Status code of a ready response.
pub const STATUS_READY: u16 = 200;

/// Status code of a not-ready response.
pub const STATUS_NOT_READY: u16 = 500;

/// Whether the probe server is started at all: only for a non-zero port.
pub fn probe_enabled(http_probe_port: u16) -> (enabled: bool)
    ensures
        enabled == (http_probe_port != 0),
{
    http_probe_port != 0
}

/// The status code for `GET /`: 200 when ready, 500 when not.
pub fn probe_status_code(ready: bool) -> (code: u16)
    ensures
        ready ==> code == STATUS_READY,
        !ready ==> code == STATUS_NOT_READY,
{
    if ready {
        STATUS_READY
    } else {
        STATUS_NOT_READY
    }
}

} // verus!
