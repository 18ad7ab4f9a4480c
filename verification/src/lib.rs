//! A callback bridge: one runtime hands over three raw callback addresses and
//! an opaque context, the bridge wraps them in a handle that can be invoked
//! with string payloads, and the release action is guaranteed to fire exactly
//! once however the handle is torn down.
//!
//! The bridge never interprets the addresses or the context: invoking a
//! callback is modelled as producing a call description (which function, which
//! context, which payloads) that an unverified shim then performs.

pub mod adapter;
pub mod calls;
pub mod handle;

pub use adapter::BridgeAdapter;
pub use calls::CallbackDescriptor;
pub use calls::ErrorCall;
pub use calls::ReleaseCall;
pub use calls::SuccessCall;
pub use handle::create;
pub use handle::CallbackHandle;
