//! The two capability sets of the plugin interface: what every plugin module
//! must expose to the loader, and what the host's services facade promises to
//! every plugin that calls into it.

use vstd::prelude::*;

use crate::events::BlurEvent;
use crate::events::BlurNotification;
use crate::fps::fps_bits_valid;
use crate::host::HostModel;
use crate::host::spec_notify;
use crate::host::spec_register_event;
use crate::host::spec_set_fps;

verus! {

/// The capability set a plugin module exposes: identity, event sink, and
/// teardown hook. The loader obtains one instance per module from the
/// module's exported entry point and owns it from then on.
pub trait BlurPlugin {
    /// The plugin's display name. Idempotent and side-effect free; the
    /// returned string never changes and stays valid for the plugin's whole
    /// lifetime.
    fn name(&self) -> &'static str;

    /// Synchronous event sink. Called once per delivered event, on the thread
    /// that ingested the notification; must return in bounded time and must
    /// not raise unhandled faults.
    fn on_event(&self, event: &BlurEvent);

    /// Teardown hook, called exactly once, after which no further event is
    /// delivered. The host orders this call before the module is unmapped.
    fn free(&self);
}

/// The services facade the host hands to every plugin at load time. The
/// reference stays valid for the plugin's whole lifetime; all behaviour is
/// pinned to the mathematical host image given by `model`.
pub trait BlurAPI: Sized {
    /// Mathematical image of the host state behind this facade.
    spec fn model(&self) -> HostModel;

    /// Sets the target frame rate for the frame limiter, given as the bit
    /// pattern of a double; zero disables the cap. Accepts exactly the finite
    /// non-negative doubles and returns whether it accepted; a rejected value
    /// (NaN, infinite, or below zero) leaves the host unchanged.
    fn set_fps(&mut self, fps_bits: u64) -> (accepted: bool)
        ensures
            final(self).model() == spec_set_fps(old(self).model(), fps_bits),
            accepted == fps_bits_valid(fps_bits),
    ;

    /// Returns the frame limiter's current target, as the bit pattern of a
    /// double; zero means uncapped. Never fails.
    fn get_fps(&self) -> (fps_bits: u64)
        ensures
            fps_bits == self.model().fps_bits,
    ;

    /// Injects one event directly, bypassing the translator: it is delivered
    /// verbatim to every live plugin, except that a device-readiness event
    /// honours the host's once-only latch.
    fn register_event(&mut self, event: &BlurEvent)
        ensures
            final(self).model() == spec_register_event(old(self).model(), event@),
    ;

    /// Ingests one host-originated notification: the translated events are
    /// delivered to every live plugin, in load order, before the call
    /// returns. A plugin that notifies from inside its own event sink must
    /// avoid cycles.
    fn notify(&mut self, notif: BlurNotification)
        ensures
            final(self).model() == spec_notify(old(self).model(), notif@),
    ;

    /// Returns the address of the rendering device that is creating the
    /// scene; zero while the device has not been initialized yet.
    fn get_d3d9dev(&self) -> (handle: u64)
        ensures
            handle == self.model().render_device,
    ;

    /// Returns the base address of the host image; non-null once host
    /// initialization is complete.
    fn get_exe_base_ptr(&self) -> (base: u64)
        ensures
            base == self.model().image_base,
    ;

    /// Returns the saved player username read from the profile; empty when
    /// unavailable.
    fn get_saved_profile_username(&self) -> (username: String)
        ensures
            username@ == self.model().username,
    ;
}

} // verus!
