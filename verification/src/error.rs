//! The errors an invocation can end with.
//!
//! Every error is scoped to a single invocation: it rejects that
//! invocation atomically and carries nothing over to the next one.

use vstd::prelude::*;

verus! {

/// Why a single invocation failed.
///
/// - `Configuration`: a required environment value was absent.
/// - `Dispatch`: no route matched the request, or the matched handler
///   itself failed.
/// - `Conversion`: the outbound response could not be constructed
///   (for example, an invalid header).
#[derive(Clone, Copy, Debug, PartialEq, Eq, Structural)]
pub enum InvocationError {
    Configuration,
    Dispatch,
    Conversion,
}

} // verus!
