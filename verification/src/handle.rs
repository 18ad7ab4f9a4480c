//! The callback handle and its one-shot release state machine.
//!
//! A handle is `Live` from construction until its release action fires, and
//! `Released` (terminal) afterwards. Explicit release and destruction drive
//! the same transition, so whichever teardown path runs first fires the
//! release action and the other becomes a no-op: the release action fires
//! exactly once per handle.

use vstd::prelude::*;

use crate::calls::CallbackDescriptor;
use crate::calls::ErrorCall;
use crate::calls::ReleaseCall;
use crate::calls::SuccessCall;

verus! {

/// A callback handle: the descriptor it was built from, plus the one-shot
/// released flag. Move-only; there is no way to duplicate one.
pub struct CallbackHandle {
    descriptor: CallbackDescriptor,
    released: bool,
}

impl CallbackHandle {
    /// The descriptor the handle was built from; immutable for the handle's
    /// whole lifetime.
    pub closed spec fn descriptor(&self) -> CallbackDescriptor {
        self.descriptor
    }

    /// True until the release action has fired.
    pub closed spec fn is_live(&self) -> bool {
        !self.released
    }

    /// Whether a release trigger (explicit release or destruction) fires the
    /// release action in this state: only while the handle is live.
    pub open spec fn release_fires(&self) -> bool {
        self.is_live()
    }

    /// The one release call this handle can ever give out: the stored release
    /// address with the stored context.
    pub open spec fn release_call(&self) -> ReleaseCall {
        ReleaseCall { target: self.descriptor().release_addr, context: self.descriptor().context }
    }

    /// The state after a release trigger: same descriptor, no longer live.
    pub closed spec fn after_release(&self) -> CallbackHandle {
        CallbackHandle { descriptor: self.descriptor, released: true }
    }
}

/// Builds a fresh, live handle that owns the four caller-supplied values.
/// Nothing is validated and no callback fires: the values are only stored.
pub fn create(
    success_addr: usize,
    error_addr: usize,
    release_addr: usize,
    context: usize,
) -> (h: CallbackHandle)
    ensures
        h.descriptor() == (CallbackDescriptor { success_addr, error_addr, release_addr, context }),
        h.is_live(),
{
    CallbackHandle {
        descriptor: CallbackDescriptor { success_addr, error_addr, release_addr, context },
        released: false,
    }
}

impl CallbackHandle {
    /// Directs the two payloads at the stored success callback: the resulting
    /// call carries the stored success address, the stored context, and the
    /// two payloads unmodified and in order. The handle's state is unchanged;
    /// the call may be repeated while the handle is live.
    pub fn invoke_success(&mut self, payload_a: String, payload_b: String) -> (c: SuccessCall)
        requires
            old(self).is_live(),
        ensures
            *final(self) == *old(self),
            c.target == old(self).descriptor().success_addr,
            c.context == old(self).descriptor().context,
            c.payload_a == payload_a,
            c.payload_b == payload_b,
    {
        SuccessCall {
            target: self.descriptor.success_addr,
            context: self.descriptor.context,
            payload_a,
            payload_b,
        }
    }

    /// Directs the single payload at the stored error callback: the resulting
    /// call carries the stored error address, the stored context, and the
    /// payload unmodified. The handle's state is unchanged.
    pub fn invoke_error(&mut self, payload: String) -> (c: ErrorCall)
        requires
            old(self).is_live(),
        ensures
            *final(self) == *old(self),
            c.target == old(self).descriptor().error_addr,
            c.context == old(self).descriptor().context,
            c.payload == payload,
    {
        ErrorCall { target: self.descriptor.error_addr, context: self.descriptor.context, payload }
    }

    /// Explicit release: on a live handle it gives out the one release call
    /// and moves to the released state; on a released handle it is a no-op
    /// and gives out nothing, so the release action can never fire twice.
    pub fn invoke_release(&mut self) -> (c: Option<ReleaseCall>)
        ensures
            *final(self) == old(self).after_release(),
            final(self).descriptor() == old(self).descriptor(),
            !final(self).is_live(),
            old(self).release_fires() ==> c == Some(old(self).release_call()),
            !old(self).release_fires() ==> c is None,
    {
        if self.released {
            None
        } else {
            self.released = true;
            Some(ReleaseCall {
                target: self.descriptor.release_addr,
                context: self.descriptor.context,
            })
        }
    }

    /// Destruction: consumes the handle and gives out the release call if and
    /// only if it has not already fired. The same transition as explicit
    /// release, so the two teardown paths together fire it exactly once.
    pub fn destroy(self) -> (c: Option<ReleaseCall>)
        ensures
            self.release_fires() ==> c == Some(self.release_call()),
            !self.release_fires() ==> c is None,
    {
        if self.released {
            None
        } else {
            Some(ReleaseCall {
                target: self.descriptor.release_addr,
                context: self.descriptor.context,
            })
        }
    }
}

/// How many times the release action fires across `n` consecutive release
/// triggers starting from state `h`. Explicit release and destruction drive
/// the same transition, so a trigger stands for either, in any mix.
pub open spec fn release_fire_count(h: CallbackHandle, n: nat) -> nat
    decreases n,
{
    if n == 0 {
        0nat
    } else {
        (if h.release_fires() {
            1nat
        } else {
            0nat
        }) + release_fire_count(h.after_release(), (n - 1) as nat)
    }
}

/// No release trigger fires on a handle whose release action has already
/// run: the released state is terminal and silent.
pub proof fn lemma_released_stays_silent(h: CallbackHandle, n: nat)
    requires
        !h.is_live(),
    ensures
        release_fire_count(h, n) == 0,
    decreases n,
{
    if n > 0 {
        lemma_released_stays_silent(h.after_release(), (n - 1) as nat);
    }
}

/// The central law of the bridge: however many release triggers reach a live
/// handle — explicit release calls, destruction, or any mix of the two — the
/// release action fires exactly once.
pub proof fn lemma_release_fires_exactly_once(h: CallbackHandle, n: nat)
    requires
        h.is_live(),
        n >= 1,
    ensures
        release_fire_count(h, n) == 1,
{
    lemma_released_stays_silent(h.after_release(), (n - 1) as nat);
}

/// Idempotence of the released state: two explicit release calls in a row on
/// a live handle fire the release action exactly once — the first gives it
/// out, the second gives out nothing.
pub proof fn lemma_release_idempotent(h: CallbackHandle)
    requires
        h.is_live(),
    ensures
        h.release_fires(),
        !h.after_release().release_fires(),
        release_fire_count(h, 2) == 1,
{
    lemma_release_fires_exactly_once(h, 2);
}

/// Ownership-drop equivalence: destroying a live handle that was never
/// explicitly released fires the release action exactly once, and the action
/// it gives out is the same one an explicit release would have given out.
pub proof fn lemma_destroy_equals_release(h: CallbackHandle)
    requires
        h.is_live(),
    ensures
        h.release_fires(),
        release_fire_count(h, 1) == 1,
{
    lemma_release_fires_exactly_once(h, 1);
}

/// Explicit release followed by destruction fires the release action exactly
/// once in total, not twice: the destruction path observes the released
/// state and gives out nothing.
pub proof fn lemma_release_then_destroy_once(h: CallbackHandle)
    requires
        h.is_live(),
    ensures
        h.release_fires(),
        !h.after_release().release_fires(),
        release_fire_count(h, 2) == 1,
{
    lemma_release_fires_exactly_once(h, 2);
}

/// Independent lifetimes: two handles built from the same four addresses are
/// separate values, and the release transition is a function of the one
/// handle it is applied to, so releasing one leaves the other's state — in
/// particular its liveness — exactly as it was.
pub proof fn lemma_independent_lifetimes(h1: CallbackHandle, h2: CallbackHandle)
    requires
        h1.descriptor() == h2.descriptor(),
        h1.is_live(),
        h2.is_live(),
    ensures
        !h1.after_release().is_live(),
        h2.is_live(),
        h2.release_fires(),
{
}

} // verus!
