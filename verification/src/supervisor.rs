//! Readiness of the spawned backend.
//!
//! The supervisor polls the declared HTTP listen address once a second; a
//! successful response is the sole readiness signal. This module holds the
//! rule that classifies one probe's outcome; the driver performs the probe
//! and the sleep, and keeps polling until a probe is declared ready.

use vstd::prelude::*;

verus! {

/// Classify one readiness probe: ready exactly when a response arrived and
/// its status is a success status (2xx). A connection failure (no status)
/// or any non-2xx status means "not ready yet" and the poll goes on.
pub fn is_ready(status: Option<u16>) -> (r: bool)
    ensures
        r <==> (status matches Some(s) && 200 <= s < 300),
{
    match status {
        Some(s) => 200 <= s && s < 300,
        None => false,
    }
}

} // verus!
