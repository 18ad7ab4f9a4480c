//! The ownership wrapper handed to the caller-side runtime.
//!
//! A `BridgeAdapter` owns exactly one `CallbackHandle`; ownership is
//! move-only, so the handle can never be reached through two adapters at
//! once. The adapter forwards the three invocations and, on destruction,
//! drives the handle's release transition if it has not already run.

use vstd::prelude::*;

use crate::calls::ErrorCall;
use crate::calls::ReleaseCall;
use crate::calls::SuccessCall;
use crate::handle::CallbackHandle;

verus! {

/// The adapter: an owning wrapper around exactly one handle, with no
/// identity of its own beyond the handle it wraps.
pub struct BridgeAdapter {
    handle: CallbackHandle,
}

impl BridgeAdapter {
    /// The one handle this adapter owns.
    pub closed spec fn handle(&self) -> CallbackHandle {
        self.handle
    }

    /// True until the wrapped handle's release action has fired.
    pub open spec fn is_live(&self) -> bool {
        self.handle().is_live()
    }

    /// Wraps a handle, taking exclusive ownership of it. The handle's state
    /// is untouched.
    pub fn new(handle: CallbackHandle) -> (a: BridgeAdapter)
        ensures
            a.handle() == handle,
    {
        BridgeAdapter { handle }
    }

    /// Forwards the two payloads to the handle's success callback; the call
    /// carries the stored success address, the stored context, and the
    /// payloads unmodified and in order.
    pub fn invoke_success(&mut self, payload_a: String, payload_b: String) -> (c: SuccessCall)
        requires
            old(self).is_live(),
        ensures
            *final(self) == *old(self),
            c.target == old(self).handle().descriptor().success_addr,
            c.context == old(self).handle().descriptor().context,
            c.payload_a == payload_a,
            c.payload_b == payload_b,
    {
        self.handle.invoke_success(payload_a, payload_b)
    }

    /// Forwards the payload to the handle's error callback; the call carries
    /// the stored error address, the stored context, and the payload
    /// unmodified.
    pub fn invoke_error(&mut self, payload: String) -> (c: ErrorCall)
        requires
            old(self).is_live(),
        ensures
            *final(self) == *old(self),
            c.target == old(self).handle().descriptor().error_addr,
            c.context == old(self).handle().descriptor().context,
            c.payload == payload,
    {
        self.handle.invoke_error(payload)
    }

    /// Explicit release through the adapter: gives out the handle's one
    /// release call on the first trigger, nothing on any later one.
    pub fn invoke_release(&mut self) -> (c: Option<ReleaseCall>)
        ensures
            final(self).handle() == old(self).handle().after_release(),
            !final(self).is_live(),
            old(self).handle().release_fires() ==> c == Some(old(self).handle().release_call()),
            !old(self).handle().release_fires() ==> c is None,
    {
        self.handle.invoke_release()
    }

    /// Destroys the adapter and with it the handle: the release call comes
    /// out if and only if it has not already fired, so adapter destruction
    /// after an explicit release is a no-op.
    pub fn destroy(self) -> (c: Option<ReleaseCall>)
        ensures
            self.handle().release_fires() ==> c == Some(self.handle().release_call()),
            !self.handle().release_fires() ==> c is None,
    {
        self.handle.destroy()
    }
}

} // verus!
