//! The value types that cross the bridge: the descriptor a handle is built
//! from, and the call descriptions that invocations produce.

use vstd::prelude::*;

verus! {

/// The four caller-supplied raw values a callback handle is built from: three
/// function addresses (success, error, release) and one opaque context
/// address. The bridge stores them verbatim and never dereferences or
/// validates them; the caller asserts their validity.
#[derive(Clone, Copy, Debug, PartialEq, Eq, Structural)]
pub struct CallbackDescriptor {
    /// Address of the two-payload success callback.
    pub success_addr: usize,
    /// Address of the one-payload error callback.
    pub error_addr: usize,
    /// Address of the zero-payload release callback.
    pub release_addr: usize,
    /// Opaque context address, passed verbatim to every invocation.
    pub context: usize,
}

/// A pending call of the success callback: the target address, the context,
/// and the two payloads, exactly as they are to reach the native function.
#[derive(Clone, Debug, PartialEq, Eq)]
pub struct SuccessCall {
    /// The stored success address the call is directed at.
    pub target: usize,
    /// The context stored at construction, unmodified.
    pub context: usize,
    /// First payload, passed through unmodified.
    pub payload_a: String,
    /// Second payload, passed through unmodified.
    pub payload_b: String,
}

/// A pending call of the error callback: the target address, the context, and
/// the single payload.
#[derive(Clone, Debug, PartialEq, Eq)]
pub struct ErrorCall {
    /// The stored error address the call is directed at.
    pub target: usize,
    /// The context stored at construction, unmodified.
    pub context: usize,
    /// The payload, passed through unmodified.
    pub payload: String,
}

/// A pending call of the release callback: the target address and the
/// context. A handle gives out at most one of these in its whole lifetime.
#[derive(Clone, Copy, Debug, PartialEq, Eq, Structural)]
pub struct ReleaseCall {
    /// The stored release address the call is directed at.
    pub target: usize,
    /// The context stored at construction, unmodified.
    pub context: usize,
}

} // verus!
