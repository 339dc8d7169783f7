//! Process-wide tracing toggle: a small side-effect-only module wrapping the
//! trace collector's enable/disable lifecycle.

use vstd::prelude::*;

verus! {

/// Relies on xi_trace::enable_tracing: turns process-wide trace collection
/// on. Side effect only; no observable result.
#[verifier::external_body]
pub(crate) fn enable_tracing() {
    xi_trace::enable_tracing();
}

/// Relies on xi_trace::disable_tracing: turns process-wide trace collection
/// off and drops the collected samples. Side effect only; no observable
/// result.
#[verifier::external_body]
pub(crate) fn disable_tracing() {
    xi_trace::disable_tracing();
}

} // verus!
